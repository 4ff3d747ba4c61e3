//! Core data types of the idle-page scan/swap engine: page-type codes, the
//! compact per-page byte encoding, scan flags, address ranges, and the scan,
//! swap and watermark configurations.

use vstd::prelude::*;

use crate::error::{EtmemError, EtmemResult};

verus! {

/// Maximum size of the kernel's idle-page buffer, in bytes.
pub const PAGE_IDLE_KBUF_SIZE: usize = 8000;

/// Minimum buffer size for page scan operations: room for two 8-byte words
/// plus three marker bytes.
pub const PAGE_IDLE_BUF_MIN: usize = 8 * 2 + 3;

/// Sentinel address used when a page is not found.
pub const INVALID_PAGE: u64 = !0u64;

/// Largest watermark percentage.
pub const WATERMARK_MAX: u32 = 100;

/// Magic byte of the idle-scan control calls.
pub const IDLE_SCAN_MAGIC: u8 = 0x66;

/// Magic byte of the swapcache-reclaim control calls.
pub const RECLAIM_SWAPCACHE_MAGIC: u8 = 0x77;

/// Maximum number of pages to swap per operation.
pub const SWAP_SCAN_NUM_MAX: u32 = 32;

/// Flag asking the caller to rescan.
pub const RET_RESCAN_FLAG: u32 = 0x10000;

/// Default walk step, in pages.
pub const DEFAULT_WALK_STEP: u32 = 512;

/// Page-type codes of the kernel's idle-page report.
///
/// Each code tells the page-table level (and so the page size) and whether
/// the page was accessed, dirty, idle, or a hole. `PipCmd` is the in-band
/// command marker of the byte encoding; `Max` bounds the valid codes.
#[derive(Debug, Clone, Copy, PartialEq, Eq, Hash, Structural)]
pub enum ProcIdlePageType {
    /// 4KB page was accessed (code 0)
    PteAccessed,
    /// 2MB page was accessed (code 1)
    PmdAccessed,
    /// 1GB page is present (code 2)
    PudPresent,
    /// 4KB page is dirty (code 3)
    PteDirty,
    /// 2MB page is dirty (code 4)
    PmdDirty,
    /// 4KB page is idle (code 5)
    PteIdle,
    /// 2MB page is idle (code 6)
    PmdIdle,
    /// All 4KB entries under a 2MB entry are idle (code 7)
    PmdIdlePtes,
    /// 4KB entry is a hole (code 8)
    PteHole,
    /// 2MB entry is a hole (code 9)
    PmdHole,
    /// Command marker of the byte protocol (code 10)
    PipCmd,
    /// One past the largest valid code (code 11)
    Max,
}

/// The numeric code of each page type.
pub open spec fn spec_page_type_code(t: ProcIdlePageType) -> u8 {
    match t {
        ProcIdlePageType::PteAccessed => 0,
        ProcIdlePageType::PmdAccessed => 1,
        ProcIdlePageType::PudPresent => 2,
        ProcIdlePageType::PteDirty => 3,
        ProcIdlePageType::PmdDirty => 4,
        ProcIdlePageType::PteIdle => 5,
        ProcIdlePageType::PmdIdle => 6,
        ProcIdlePageType::PmdIdlePtes => 7,
        ProcIdlePageType::PteHole => 8,
        ProcIdlePageType::PmdHole => 9,
        ProcIdlePageType::PipCmd => 10,
        ProcIdlePageType::Max => 11,
    }
}

/// The page type denoted by a code, if any.
pub open spec fn spec_page_type_from_raw(value: u8) -> Option<ProcIdlePageType> {
    if value == 0 { Some(ProcIdlePageType::PteAccessed) }
    else if value == 1 { Some(ProcIdlePageType::PmdAccessed) }
    else if value == 2 { Some(ProcIdlePageType::PudPresent) }
    else if value == 3 { Some(ProcIdlePageType::PteDirty) }
    else if value == 4 { Some(ProcIdlePageType::PmdDirty) }
    else if value == 5 { Some(ProcIdlePageType::PteIdle) }
    else if value == 6 { Some(ProcIdlePageType::PmdIdle) }
    else if value == 7 { Some(ProcIdlePageType::PmdIdlePtes) }
    else if value == 8 { Some(ProcIdlePageType::PteHole) }
    else if value == 9 { Some(ProcIdlePageType::PmdHole) }
    else if value == 10 { Some(ProcIdlePageType::PipCmd) }
    else { None }
}

/// The fixed page size, in bytes, of each page type. Command codes default
/// to the 4KB size.
pub open spec fn spec_page_size(t: ProcIdlePageType) -> u64 {
    match t {
        ProcIdlePageType::PteAccessed => 4096,
        ProcIdlePageType::PteDirty => 4096,
        ProcIdlePageType::PteIdle => 4096,
        ProcIdlePageType::PteHole => 4096,
        ProcIdlePageType::PmdAccessed => 0x200000,
        ProcIdlePageType::PmdDirty => 0x200000,
        ProcIdlePageType::PmdIdle => 0x200000,
        ProcIdlePageType::PmdIdlePtes => 0x200000,
        ProcIdlePageType::PmdHole => 0x200000,
        ProcIdlePageType::PudPresent => 0x40000000,
        _ => 4096,
    }
}

/// Whether the type is one of the huge (2MB or 1GB) kinds.
pub open spec fn spec_is_huge(t: ProcIdlePageType) -> bool {
    t == ProcIdlePageType::PmdAccessed || t == ProcIdlePageType::PmdDirty
        || t == ProcIdlePageType::PmdIdle || t == ProcIdlePageType::PmdIdlePtes
        || t == ProcIdlePageType::PmdHole || t == ProcIdlePageType::PudPresent
}

/// Whether the type reports an idle (cold) page.
pub open spec fn spec_is_idle(t: ProcIdlePageType) -> bool {
    t == ProcIdlePageType::PteIdle || t == ProcIdlePageType::PmdIdle
        || t == ProcIdlePageType::PmdIdlePtes
}

/// Whether the type reports an accessed (hot) page.
pub open spec fn spec_is_accessed(t: ProcIdlePageType) -> bool {
    t == ProcIdlePageType::PteAccessed || t == ProcIdlePageType::PmdAccessed
}

/// Whether the type reports an unmapped hole.
pub open spec fn spec_is_hole(t: ProcIdlePageType) -> bool {
    t == ProcIdlePageType::PteHole || t == ProcIdlePageType::PmdHole
}

impl ProcIdlePageType {
    /// The numeric code of this page type in the byte protocol.
    pub fn code(&self) -> (r: u8)
        ensures
            r == spec_page_type_code(*self),
    {
        match self {
            ProcIdlePageType::PteAccessed => 0,
            ProcIdlePageType::PmdAccessed => 1,
            ProcIdlePageType::PudPresent => 2,
            ProcIdlePageType::PteDirty => 3,
            ProcIdlePageType::PmdDirty => 4,
            ProcIdlePageType::PteIdle => 5,
            ProcIdlePageType::PmdIdle => 6,
            ProcIdlePageType::PmdIdlePtes => 7,
            ProcIdlePageType::PteHole => 8,
            ProcIdlePageType::PmdHole => 9,
            ProcIdlePageType::PipCmd => 10,
            ProcIdlePageType::Max => 11,
        }
    }

    /// Decode a raw code; codes 0 through 10 are valid.
    pub fn from_raw(value: u8) -> (r: Option<Self>)
        ensures
            r == spec_page_type_from_raw(value),
    {
        match value {
            0 => Some(Self::PteAccessed),
            1 => Some(Self::PmdAccessed),
            2 => Some(Self::PudPresent),
            3 => Some(Self::PteDirty),
            4 => Some(Self::PmdDirty),
            5 => Some(Self::PteIdle),
            6 => Some(Self::PmdIdle),
            7 => Some(Self::PmdIdlePtes),
            8 => Some(Self::PteHole),
            9 => Some(Self::PmdHole),
            10 => Some(Self::PipCmd),
            _ => None,
        }
    }

    /// Whether this type is a huge page (2MB or 1GB).
    pub fn is_huge(&self) -> (r: bool)
        ensures
            r == spec_is_huge(*self),
    {
        matches!(
            self,
            Self::PmdAccessed
                | Self::PmdDirty
                | Self::PmdIdle
                | Self::PmdIdlePtes
                | Self::PmdHole
                | Self::PudPresent
        )
    }

    /// Whether this type reports an idle (cold) page.
    pub fn is_idle(&self) -> (r: bool)
        ensures
            r == spec_is_idle(*self),
    {
        matches!(self, Self::PteIdle | Self::PmdIdle | Self::PmdIdlePtes)
    }

    /// Whether this type reports an accessed (hot) page.
    pub fn is_accessed(&self) -> (r: bool)
        ensures
            r == spec_is_accessed(*self),
    {
        matches!(self, Self::PteAccessed | Self::PmdAccessed)
    }

    /// Whether this type reports an unmapped hole.
    pub fn is_hole(&self) -> (r: bool)
        ensures
            r == spec_is_hole(*self),
    {
        matches!(self, Self::PteHole | Self::PmdHole)
    }

    /// The page size in bytes for this type.
    pub fn page_size(&self) -> (r: u64)
        ensures
            r == spec_page_size(*self),
    {
        match self {
            Self::PteAccessed | Self::PteDirty | Self::PteIdle | Self::PteHole => 4096,
            Self::PmdAccessed
            | Self::PmdDirty
            | Self::PmdIdle
            | Self::PmdIdlePtes
            | Self::PmdHole => 2 * 1024 * 1024,
            Self::PudPresent => 1024 * 1024 * 1024,
            _ => 4096,
        }
    }
}

/// A half-open range `[start, end)` of virtual addresses.
#[derive(Debug, Clone, Copy, PartialEq, Eq, Structural)]
pub struct AddressRange {
    /// Start address (inclusive)
    pub start: u64,
    /// End address (exclusive)
    pub end: u64,
}

impl AddressRange {
    /// Create a new address range.
    pub fn new(start: u64, end: u64) -> (r: Self)
        ensures
            r.start == start,
            r.end == end,
    {
        Self { start, end }
    }

    /// Create a range starting at `start` covering `size` bytes.
    pub fn with_size(start: u64, size: u64) -> (r: Self)
        requires
            start + size <= u64::MAX,
        ensures
            r.start == start,
            r.end == start + size,
    {
        Self { start, end: start + size }
    }

    /// Whether `addr` lies within the range.
    pub fn contains(&self, addr: u64) -> (r: bool)
        ensures
            r == (self.start <= addr < self.end),
    {
        addr >= self.start && addr < self.end
    }

    /// The number of bytes covered; 0 for an inverted range.
    pub fn size(&self) -> (r: u64)
        ensures
            r == if self.start <= self.end { self.end - self.start } else { 0 },
    {
        self.end.saturating_sub(self.start)
    }

    /// A range is valid iff it is non-empty.
    pub fn is_valid(&self) -> (r: bool)
        ensures
            r == (self.start < self.end),
    {
        self.start < self.end
    }

    /// Whether two ranges share at least one address.
    pub fn overlaps(&self, other: &Self) -> (r: bool)
        ensures
            r == (self.start < other.end && other.start < self.end),
    {
        self.start < other.end && other.start < self.end
    }
}

impl Default for AddressRange {
    fn default() -> (r: Self)
        ensures
            r.start == 0 && r.end == 0,
    {
        Self { start: 0, end: 0 }
    }
}

/// Helpers for the kernel's compact per-page byte encoding.
///
/// One byte encodes a run of same-type pages: the upper nibble is the page
/// type code, the lower nibble the run length minus one.
pub struct PipEncoding;

/// The upper nibble of an encoded byte: the page type code.
pub open spec fn spec_extract_type(encoded: u8) -> u8 {
    (encoded >> 4) & 0xf
}

/// The lower nibble of an encoded byte: the run length minus one.
pub open spec fn spec_extract_size(encoded: u8) -> u8 {
    encoded & 0xf
}

/// A byte composed from a page type code and a run length minus one.
pub open spec fn spec_compose(page_type: u8, count: u8) -> u8 {
    ((page_type & 0xf) << 4) | (count & 0xf)
}

impl PipEncoding {
    /// The control byte that relocates the decode cursor: the command marker
    /// composed with count nibble zero.
    pub const SET_HVA: u8 = 0xa0;

    /// Extract the page type code from an encoded byte.
    pub fn extract_type(encoded: u8) -> (r: u8)
        ensures
            r == spec_extract_type(encoded),
    {
        (encoded >> 4) & 0xf
    }

    /// Extract the run length minus one from an encoded byte.
    pub fn extract_size(encoded: u8) -> (r: u8)
        ensures
            r == spec_extract_size(encoded),
            r <= 15,
    {
        proof {
            assert(encoded & 0xf <= 15) by (bit_vector);
        }
        encoded & 0xf
    }

    /// Compose a page type code and a run length minus one into one byte.
    pub fn compose(page_type: u8, count: u8) -> (r: u8)
        ensures
            r == spec_compose(page_type, count),
    {
        ((page_type & 0xf) << 4) | (count & 0xf)
    }

    /// Split an encoded byte into (type code, run length minus one).
    pub fn decode(encoded: u8) -> (r: (u8, u8))
        ensures
            r.0 == spec_extract_type(encoded),
            r.1 == spec_extract_size(encoded),
    {
        (Self::extract_type(encoded), Self::extract_size(encoded))
    }
}

/// Composing a type code up to 15 and a count nibble, then decoding, yields
/// the code and nibble back; in particular this holds for every valid page
/// type code 0 through 9 and every run length 1 through 16.
pub proof fn lemma_pip_round_trip(page_type: u8, count: u8)
    requires
        page_type <= 15,
        count <= 15,
    ensures
        spec_extract_type(spec_compose(page_type, count)) == page_type,
        spec_extract_size(spec_compose(page_type, count)) == count,
{
    assert(page_type <= 15 && count <= 15 ==> {
        &&& ((((page_type & 0xf) << 4) | (count & 0xf)) >> 4) & 0xf == page_type
        &&& (((page_type & 0xf) << 4) | (count & 0xf)) & 0xf == count
    }) by (bit_vector);
}

/// The semantic categories of the page types are laid out as the engine's
/// filters expect: no type is both idle and accessed, and a hole is
/// neither idle nor accessed.
pub proof fn lemma_page_categories_disjoint(t: ProcIdlePageType)
    ensures
        !(spec_is_idle(t) && spec_is_accessed(t)),
        spec_is_hole(t) ==> !spec_is_idle(t) && !spec_is_accessed(t),
{
}

/// The `SET_HVA` control byte is exactly the command marker composed with a
/// zero count nibble.
pub proof fn lemma_set_hva_byte()
    ensures
        PipEncoding::SET_HVA == spec_compose(spec_page_type_code(ProcIdlePageType::PipCmd), 0),
{
    assert(((10u8 & 0xf) << 4) | (0u8 & 0xf) == 0xa0u8) by (bit_vector);
}

/// Scan flags controlling idle-page scanning, kept as a validated bit set.
///
/// The bit values mirror the kernel interface: the first three reuse the
/// open-call flag bits of the platform, the rest are scan-specific.
#[derive(Debug, Clone, Copy, PartialEq, Eq, Structural)]
pub struct ScanFlags {
    /// Raw flag bits
    pub bits: u32,
}

/// Bits of the seven known scan capabilities, or-ed together.
pub open spec fn spec_scan_flags_mask() -> u32 {
    0x800u32 | 0x20000u32 | 0x40000u32 | 0o100000000u32 | 0o200000000u32 | 0o400000000u32
        | 0x1000u32
}

impl ScanFlags {
    /// Only scan huge pages.
    #[allow(non_snake_case)]
    pub fn SCAN_HUGE_PAGE() -> (r: Self)
        ensures
            r.bits == 0x800,
    {
        Self { bits: 0x800 }
    }

    /// Stop when every 4KB entry under a 2MB entry is idle.
    #[allow(non_snake_case)]
    pub fn SCAN_SKIM_IDLE() -> (r: Self)
        ensures
            r.bits == 0x20000,
    {
        Self { bits: 0x20000 }
    }

    /// Report dirty bits.
    #[allow(non_snake_case)]
    pub fn SCAN_DIRTY_PAGE() -> (r: Self)
        ensures
            r.bits == 0x40000,
    {
        Self { bits: 0x40000 }
    }

    /// Treat normal pages as huge when scanning a virtual machine.
    #[allow(non_snake_case)]
    pub fn SCAN_AS_HUGE() -> (r: Self)
        ensures
            r.bits == 0o100000000,
    {
        Self { bits: 0o100000000 }
    }

    /// Ignore host access when scanning a virtual machine.
    #[allow(non_snake_case)]
    pub fn SCAN_IGN_HOST() -> (r: Self)
        ensures
            r.bits == 0o200000000,
    {
        Self { bits: 0o200000000 }
    }

    /// Scanning the host for virtual-machine hole detection.
    #[allow(non_snake_case)]
    pub fn VM_SCAN_HOST() -> (r: Self)
        ensures
            r.bits == 0o400000000,
    {
        Self { bits: 0o400000000 }
    }

    /// Scan one memory region with a flag.
    #[allow(non_snake_case)]
    pub fn VMA_SCAN_FLAG() -> (r: Self)
        ensures
            r.bits == 0x1000,
    {
        Self { bits: 0x1000 }
    }

    /// The empty flag set.
    pub fn empty() -> (r: Self)
        ensures
            r.bits == 0,
    {
        Self { bits: 0 }
    }

    /// The raw bits of the set.
    pub fn bits(&self) -> (r: u32)
        ensures
            r == self.bits,
    {
        self.bits
    }

    /// Whether the set holds no flags.
    pub fn is_empty(&self) -> (r: bool)
        ensures
            r == (self.bits == 0),
    {
        self.bits == 0
    }

    /// Whether every flag of `other` is in this set.
    pub fn contains(&self, other: ScanFlags) -> (r: bool)
        ensures
            r == (self.bits & other.bits == other.bits),
    {
        self.bits & other.bits == other.bits
    }

    /// The union of two flag sets.
    pub fn union(self, other: ScanFlags) -> (r: ScanFlags)
        ensures
            r.bits == self.bits | other.bits,
    {
        ScanFlags { bits: self.bits | other.bits }
    }

    /// The flags of this set that are not in `other`.
    pub fn difference(self, other: ScanFlags) -> (r: ScanFlags)
        ensures
            r.bits == self.bits & !other.bits,
    {
        ScanFlags { bits: self.bits & !other.bits }
    }

    /// A set is valid iff it holds no bits outside the seven known flags.
    pub fn is_valid(&self) -> (r: bool)
        ensures
            r == (self.bits & !spec_scan_flags_mask() == 0),
    {
        let valid_mask: u32 = 0x800 | 0x20000 | 0x40000 | 0o100000000 | 0o200000000
            | 0o400000000 | 0x1000;
        self.bits & !valid_mask == 0
    }
}

impl Default for ScanFlags {
    fn default() -> (r: Self)
        ensures
            r.bits == 0,
    {
        Self { bits: 0 }
    }
}

impl core::ops::BitOr for ScanFlags {
    type Output = ScanFlags;

    /// The union of two flag sets.
    fn bitor(self, rhs: ScanFlags) -> (r: ScanFlags)
    {
        ScanFlags { bits: self.bits | rhs.bits }
    }
}

impl vstd::std_specs::ops::BitOrSpecImpl for ScanFlags {
    open spec fn obeys_bitor_spec() -> bool {
        true
    }

    open spec fn bitor_req(self, rhs: ScanFlags) -> bool {
        true
    }

    open spec fn bitor_spec(self, rhs: ScanFlags) -> ScanFlags {
        ScanFlags { bits: self.bits | rhs.bits }
    }
}

/// Watermark levels of the swapcache reclaim interface.
#[derive(Debug, Clone, Copy, PartialEq, Eq, Structural)]
pub enum SwapcacheWatermark {
    /// Start reclaiming above this level (level number 0)
    Low,
    /// Stop reclaiming at this level (level number 1)
    High,
    /// Number of watermark levels (2)
    NrWatermark,
}

impl SwapcacheWatermark {
    /// The numeric level of this watermark in the control-call argument.
    pub fn level(&self) -> (r: u32)
        ensures
            r == match *self {
                SwapcacheWatermark::Low => 0u32,
                SwapcacheWatermark::High => 1u32,
                SwapcacheWatermark::NrWatermark => 2u32,
            },
    {
        match self {
            SwapcacheWatermark::Low => 0,
            SwapcacheWatermark::High => 1,
            SwapcacheWatermark::NrWatermark => 2,
        }
    }

    /// Decode a raw level; 0 and 1 are valid.
    pub fn from_raw(value: u8) -> (r: Option<Self>)
        ensures
            r == if value == 0 { Some(SwapcacheWatermark::Low) }
                 else if value == 1 { Some(SwapcacheWatermark::High) }
                 else { None::<SwapcacheWatermark> },
    {
        match value {
            0 => Some(Self::Low),
            1 => Some(Self::High),
            _ => None,
        }
    }
}

/// One run of same-type pages found during scanning.
#[derive(Debug, Clone, Copy, PartialEq, Eq, Structural)]
pub struct IdlePageInfo {
    /// Virtual address of the first page of the run
    pub address: u64,
    /// Page type of the run
    pub page_type: ProcIdlePageType,
    /// Number of consecutive pages, 1 through 16
    pub count: u8,
}

impl IdlePageInfo {
    /// The bytes covered by this run.
    pub open spec fn spec_total_size(&self) -> int {
        spec_page_size(self.page_type) * self.count
    }

    /// The first address past this run.
    pub open spec fn spec_end_address(&self) -> int {
        self.address + self.spec_total_size()
    }

    /// Create a run record; a count below 1 is clamped to 1.
    pub fn new(address: u64, page_type: ProcIdlePageType, count: u8) -> (r: Self)
        ensures
            r.address == address,
            r.page_type == page_type,
            r.count == if count < 1 { 1u8 } else { count },
    {
        Self {
            address,
            page_type,
            count: if count < 1 { 1 } else { count },
        }
    }

    /// The bytes covered by this run.
    pub fn total_size(&self) -> (r: u64)
        ensures
            r == self.spec_total_size(),
    {
        self.page_type.page_size() * self.count as u64
    }

    /// The first address past this run.
    pub fn end_address(&self) -> (r: u64)
        requires
            self.spec_end_address() <= u64::MAX,
        ensures
            r == self.spec_end_address(),
    {
        self.address + self.total_size()
    }

    /// Whether this run reports idle pages.
    pub fn is_idle(&self) -> (r: bool)
        ensures
            r == spec_is_idle(self.page_type),
    {
        self.page_type.is_idle()
    }

    /// Whether this run reports accessed pages.
    pub fn is_accessed(&self) -> (r: bool)
        ensures
            r == spec_is_accessed(self.page_type),
    {
        self.page_type.is_accessed()
    }
}

/// Watermark configuration of swapcache reclaim: reclaim starts above the
/// low percentage and stops at the high one.
#[derive(Debug, Clone, Copy, PartialEq, Eq, Structural)]
pub struct WatermarkConfig {
    /// Low watermark percentage (0 through 100)
    pub low_percent: u8,
    /// High watermark percentage (0 through 100)
    pub high_percent: u8,
}

impl WatermarkConfig {
    /// Create a watermark configuration.
    pub fn new(low_percent: u8, high_percent: u8) -> (r: Self)
        ensures
            r.low_percent == low_percent,
            r.high_percent == high_percent,
    {
        Self { low_percent, high_percent }
    }

    /// Whether this configuration is accepted.
    pub open spec fn spec_valid(&self) -> bool {
        self.low_percent <= 100 && self.high_percent <= 100
            && self.low_percent < self.high_percent
    }

    /// The exact outcome of validation.
    pub open spec fn validate_result(&self) -> EtmemResult<()> {
        if self.low_percent > 100 || self.high_percent > 100 {
            Err(EtmemError::WatermarkOutOfRange)
        } else if self.low_percent >= self.high_percent {
            Err(EtmemError::InvalidWatermarkOrder)
        } else {
            Ok(())
        }
    }

    /// A configuration is valid iff both percentages are at most 100 and the
    /// low one is strictly below the high one. Percentages above 100 are
    /// reported before a wrong ordering.
    pub fn validate(&self) -> (r: EtmemResult<()>)
        ensures
            r is Ok <==> self.spec_valid(),
            r == self.validate_result(),
    {
        if self.low_percent > 100 || self.high_percent > 100 {
            return Err(EtmemError::WatermarkOutOfRange);
        }
        if self.low_percent >= self.high_percent {
            return Err(EtmemError::InvalidWatermarkOrder);
        }
        Ok(())
    }

    /// The default configuration: 30 percent low, 70 percent high.
    pub fn default_config() -> (r: Self)
        ensures
            r.low_percent == 30,
            r.high_percent == 70,
    {
        Self { low_percent: 30, high_percent: 70 }
    }
}

impl Default for WatermarkConfig {
    fn default() -> (r: Self)
        ensures
            r.low_percent == 30,
            r.high_percent == 70,
    {
        Self { low_percent: 30, high_percent: 70 }
    }
}

/// State of the kernel buffer after a scan step.
#[derive(Debug, Clone, Copy, PartialEq, Eq, Structural)]
pub enum BufferStatus {
    /// Operation completed (status 0)
    Success,
    /// Kernel buffer full, more data available (status 1)
    KbufFull,
    /// User buffer full (status 2)
    BufFull,
}

impl BufferStatus {
    /// Decode a raw status; 0 through 2 are valid.
    pub fn from_raw(value: u8) -> (r: Option<Self>)
        ensures
            r == if value == 0 { Some(BufferStatus::Success) }
                 else if value == 1 { Some(BufferStatus::KbufFull) }
                 else if value == 2 { Some(BufferStatus::BufFull) }
                 else { None::<BufferStatus> },
    {
        match value {
            0 => Some(Self::Success),
            1 => Some(Self::KbufFull),
            2 => Some(Self::BufFull),
            _ => None,
        }
    }

    /// Both full states signal that more data is available.
    pub fn has_more(&self) -> (r: bool)
        ensures
            r == (*self == BufferStatus::KbufFull || *self == BufferStatus::BufFull),
    {
        matches!(self, Self::KbufFull | Self::BufFull)
    }
}

/// Configuration of a scan session.
#[derive(Debug, Clone, PartialEq, Eq, Structural)]
pub struct ScanConfig {
    /// Scan flags controlling scan behavior
    pub flags: ScanFlags,
    /// Buffer size for reading idle-page data, in bytes
    pub buffer_size: usize,
    /// Walk step in pages
    pub walk_step: u32,
}

impl ScanConfig {
    /// The default configuration: no flags, the maximum kernel buffer size,
    /// and the default walk step.
    pub fn new() -> (r: Self)
        ensures
            r.flags.bits == 0,
            r.buffer_size == PAGE_IDLE_KBUF_SIZE,
            r.walk_step == DEFAULT_WALK_STEP,
    {
        Self {
            flags: ScanFlags { bits: 0 },
            buffer_size: PAGE_IDLE_KBUF_SIZE,
            walk_step: DEFAULT_WALK_STEP,
        }
    }

    /// This configuration with the given flags.
    pub fn with_flags(self, flags: ScanFlags) -> (r: Self)
        ensures
            r.flags == flags,
            r.buffer_size == self.buffer_size,
            r.walk_step == self.walk_step,
    {
        Self { flags, ..self }
    }

    /// This configuration with the given buffer size.
    pub fn with_buffer_size(self, size: usize) -> (r: Self)
        ensures
            r.flags == self.flags,
            r.buffer_size == size,
            r.walk_step == self.walk_step,
    {
        Self { buffer_size: size, ..self }
    }

    /// This configuration with the given walk step.
    pub fn with_walk_step(self, step: u32) -> (r: Self)
        ensures
            r.flags == self.flags,
            r.buffer_size == self.buffer_size,
            r.walk_step == step,
    {
        Self { walk_step: step, ..self }
    }

    /// Whether this configuration is accepted.
    pub open spec fn spec_valid(&self) -> bool {
        &&& self.flags.bits & !spec_scan_flags_mask() == 0
        &&& PAGE_IDLE_BUF_MIN <= self.buffer_size <= PAGE_IDLE_KBUF_SIZE
    }

    /// The exact outcome of validation.
    pub open spec fn validate_result(&self) -> EtmemResult<()> {
        if self.flags.bits & !spec_scan_flags_mask() != 0 {
            Err(EtmemError::InvalidFlags)
        } else if !(PAGE_IDLE_BUF_MIN <= self.buffer_size <= PAGE_IDLE_KBUF_SIZE) {
            Err(EtmemError::BufferTooSmall)
        } else {
            Ok(())
        }
    }

    /// A configuration is valid iff its flags hold no unknown bit and its
    /// buffer size lies between the minimum header reserve and the kernel
    /// buffer maximum. Unknown flags are reported before a bad size.
    pub fn validate(&self) -> (r: EtmemResult<()>)
        ensures
            r is Ok <==> self.spec_valid(),
            r == self.validate_result(),
    {
        if !self.flags.is_valid() {
            return Err(EtmemError::InvalidFlags);
        }
        if self.buffer_size < PAGE_IDLE_BUF_MIN {
            return Err(EtmemError::BufferTooSmall);
        }
        if self.buffer_size > PAGE_IDLE_KBUF_SIZE {
            return Err(EtmemError::BufferTooSmall);
        }
        Ok(())
    }
}

impl Default for ScanConfig {
    fn default() -> (r: Self)
        ensures
            r.flags.bits == 0,
            r.buffer_size == PAGE_IDLE_KBUF_SIZE,
            r.walk_step == DEFAULT_WALK_STEP,
    {
        Self::new()
    }
}

/// Configuration of a swap session.
#[derive(Debug, Clone, PartialEq, Eq, Structural)]
pub struct SwapConfig {
    /// Enable proactive swapcache reclaim
    pub proactive_reclaim: bool,
    /// Watermark configuration for reclaim
    pub watermark: WatermarkConfig,
    /// Number of pending addresses that triggers a flush
    pub max_pages: u32,
}

impl SwapConfig {
    /// The default configuration: no proactive reclaim, the default
    /// watermarks, and the default batch threshold.
    pub fn new() -> (r: Self)
        ensures
            r.proactive_reclaim == false,
            r.watermark.low_percent == 30 && r.watermark.high_percent == 70,
            r.max_pages == SWAP_SCAN_NUM_MAX,
    {
        Self {
            proactive_reclaim: false,
            watermark: WatermarkConfig { low_percent: 30, high_percent: 70 },
            max_pages: SWAP_SCAN_NUM_MAX,
        }
    }

    /// This configuration with proactive reclaim switched on or off.
    pub fn with_proactive_reclaim(self, enable: bool) -> (r: Self)
        ensures
            r.proactive_reclaim == enable,
            r.watermark == self.watermark,
            r.max_pages == self.max_pages,
    {
        Self { proactive_reclaim: enable, ..self }
    }

    /// This configuration with the given watermark.
    pub fn with_watermark(self, watermark: WatermarkConfig) -> (r: Self)
        ensures
            r.proactive_reclaim == self.proactive_reclaim,
            r.watermark == watermark,
            r.max_pages == self.max_pages,
    {
        Self { watermark, ..self }
    }

    /// This configuration with the given batch threshold.
    pub fn with_max_pages(self, max: u32) -> (r: Self)
        ensures
            r.proactive_reclaim == self.proactive_reclaim,
            r.watermark == self.watermark,
            r.max_pages == max,
    {
        Self { max_pages: max, ..self }
    }
}

impl Default for SwapConfig {
    fn default() -> (r: Self)
        ensures
            r.proactive_reclaim == false,
            r.watermark.low_percent == 30 && r.watermark.high_percent == 70,
            r.max_pages == SWAP_SCAN_NUM_MAX,
    {
        Self::new()
    }
}

} // verus!
