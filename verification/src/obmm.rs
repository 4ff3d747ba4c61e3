//! Data model of the remote-memory export/import layer: its constants,
//! flag sets, memory descriptor and result records, and its error
//! taxonomy. The layer itself is a thin pass-through to a native library,
//! which the embedding binary calls; everything here is plain data.

use vstd::prelude::*;

use crate::strfmt::spec_i64_dec_digits;

verus! {

/// Maximum number of memory-locality nodes supported.
pub const MAX_NUMA_NODES: usize = 16;

/// The invalid memory ID.
pub const OBMM_INVALID_MEMID: u64 = 0;

/// Maximum number of local memory-locality nodes supported.
pub const OBMM_MAX_LOCAL_NUMA_NODES: usize = 16;

/// Memory ID of an exported or imported region.
pub type MemId = u64;

/// Privilege bits of unified-bus memory regions.
#[derive(Debug, Clone, Copy, PartialEq, Eq, Structural)]
pub struct UbPrivData {
    /// Raw privilege bits
    pub bits: u16,
}

impl UbPrivData {
    /// Owner-chip bit.
    #[allow(non_snake_case)]
    pub fn OCHIP() -> (r: Self)
        ensures
            r.bits == 0x20,
    {
        Self { bits: 0x20 }
    }

    /// Cacheable bit.
    #[allow(non_snake_case)]
    pub fn CACHEABLE() -> (r: Self)
        ensures
            r.bits == 0x40,
    {
        Self { bits: 0x40 }
    }

    /// The empty set.
    pub fn empty() -> (r: Self)
        ensures
            r.bits == 0,
    {
        Self { bits: 0 }
    }

    /// The raw bits.
    pub fn bits(&self) -> (r: u16)
        ensures
            r == self.bits,
    {
        self.bits
    }

    /// Whether no bit is set.
    pub fn is_empty(&self) -> (r: bool)
        ensures
            r == (self.bits == 0),
    {
        self.bits == 0
    }

    /// Whether every bit of `other` is set here.
    pub fn contains(&self, other: UbPrivData) -> (r: bool)
        ensures
            r == (self.bits & other.bits == other.bits),
    {
        self.bits & other.bits == other.bits
    }
}

impl Default for UbPrivData {
    fn default() -> (r: Self)
        ensures
            r.bits == 0,
    {
        Self { bits: 0 }
    }
}

impl core::ops::BitOr for UbPrivData {
    type Output = UbPrivData;

    /// The union of two bit sets.
    fn bitor(self, rhs: UbPrivData) -> (r: UbPrivData) {
        UbPrivData { bits: self.bits | rhs.bits }
    }
}

impl vstd::std_specs::ops::BitOrSpecImpl for UbPrivData {
    open spec fn obeys_bitor_spec() -> bool {
        true
    }

    open spec fn bitor_req(self, rhs: UbPrivData) -> bool {
        true
    }

    open spec fn bitor_spec(self, rhs: UbPrivData) -> UbPrivData {
        UbPrivData { bits: self.bits | rhs.bits }
    }
}

/// Flags of memory exporting.
#[derive(Debug, Clone, Copy, PartialEq, Eq, Structural)]
pub struct ObmmExportFlags {
    /// Raw flag bits
    pub bits: u64,
}

impl ObmmExportFlags {
    /// Allow memory mapping.
    #[allow(non_snake_case)]
    pub fn ALLOWMMAP() -> (r: Self)
        ensures
            r.bits == 1,
    {
        Self { bits: 1 }
    }

    /// Export to remote memory-locality nodes.
    #[allow(non_snake_case)]
    pub fn REMOTENUMA() -> (r: Self)
        ensures
            r.bits == 2,
    {
        Self { bits: 2 }
    }

    /// The empty flag set.
    pub fn empty() -> (r: Self)
        ensures
            r.bits == 0,
    {
        Self { bits: 0 }
    }

    /// The raw bits.
    pub fn bits(&self) -> (r: u64)
        ensures
            r == self.bits,
    {
        self.bits
    }

    /// Whether no flag is set.
    pub fn is_empty(&self) -> (r: bool)
        ensures
            r == (self.bits == 0),
    {
        self.bits == 0
    }

    /// Whether every flag of `other` is set here.
    pub fn contains(&self, other: ObmmExportFlags) -> (r: bool)
        ensures
            r == (self.bits & other.bits == other.bits),
    {
        self.bits & other.bits == other.bits
    }
}

impl Default for ObmmExportFlags {
    fn default() -> (r: Self)
        ensures
            r.bits == 0,
    {
        Self { bits: 0 }
    }
}

impl core::ops::BitOr for ObmmExportFlags {
    type Output = ObmmExportFlags;

    /// The union of two flag sets.
    fn bitor(self, rhs: ObmmExportFlags) -> (r: ObmmExportFlags) {
        ObmmExportFlags { bits: self.bits | rhs.bits }
    }
}

impl vstd::std_specs::ops::BitOrSpecImpl for ObmmExportFlags {
    open spec fn obeys_bitor_spec() -> bool {
        true
    }

    open spec fn bitor_req(self, rhs: ObmmExportFlags) -> bool {
        true
    }

    open spec fn bitor_spec(self, rhs: ObmmExportFlags) -> ObmmExportFlags {
        ObmmExportFlags { bits: self.bits | rhs.bits }
    }
}

/// Flags of memory unexporting.
#[derive(Debug, Clone, Copy, PartialEq, Eq, Structural)]
pub struct ObmmUnexportFlags {
    /// Raw flag bits
    pub bits: u64,
}

impl ObmmUnexportFlags {
    /// Force the unexport.
    #[allow(non_snake_case)]
    pub fn FORCE() -> (r: Self)
        ensures
            r.bits == 1,
    {
        Self { bits: 1 }
    }

    /// The empty flag set.
    pub fn empty() -> (r: Self)
        ensures
            r.bits == 0,
    {
        Self { bits: 0 }
    }

    /// The raw bits.
    pub fn bits(&self) -> (r: u64)
        ensures
            r == self.bits,
    {
        self.bits
    }
}

impl Default for ObmmUnexportFlags {
    fn default() -> (r: Self)
        ensures
            r.bits == 0,
    {
        Self { bits: 0 }
    }
}

/// Flags of memory preimporting.
#[derive(Debug, Clone, Copy, PartialEq, Eq, Structural)]
pub struct ObmmPreimportFlags {
    /// Raw flag bits
    pub bits: u64,
}

impl ObmmPreimportFlags {
    /// Allow memory mapping of the preimported region.
    #[allow(non_snake_case)]
    pub fn ALLOWMMAP() -> (r: Self)
        ensures
            r.bits == 1,
    {
        Self { bits: 1 }
    }

    /// The empty flag set.
    pub fn empty() -> (r: Self)
        ensures
            r.bits == 0,
    {
        Self { bits: 0 }
    }

    /// The raw bits.
    pub fn bits(&self) -> (r: u64)
        ensures
            r == self.bits,
    {
        self.bits
    }
}

impl Default for ObmmPreimportFlags {
    fn default() -> (r: Self)
        ensures
            r.bits == 0,
    {
        Self { bits: 0 }
    }
}

/// Descriptor of a memory region offered for remote access.
#[derive(Debug, Clone)]
pub struct ObmmMemDesc<T> {
    /// Base address of the region
    pub addr: u64,
    /// Length of the region in bytes
    pub length: u64,
    /// Source entity ID, 128 bits little-endian
    pub seid: [u8; 16],
    /// Destination entity ID, 128 bits little-endian
    pub deid: [u8; 16],
    /// Token ID
    pub tokenid: u32,
    /// Source component network address
    pub scna: u32,
    /// Destination component network address
    pub dcna: u32,
    /// Length of the privilege data
    pub priv_len: u16,
    /// Privilege data
    pub priv_data: T,
}

impl<T: Default> ObmmMemDesc<T> {
    /// An all-zero descriptor with default privilege data.
    pub fn new() -> (r: Self)
        ensures
            r.addr == 0,
            r.length == 0,
            r.tokenid == 0,
            r.scna == 0,
            r.dcna == 0,
            r.priv_len == 0,
    {
        Self {
            addr: 0,
            length: 0,
            seid: [0; 16],
            deid: [0; 16],
            tokenid: 0,
            scna: 0,
            dcna: 0,
            priv_len: 0,
            priv_data: T::default(),
        }
    }
}

impl<T: Default> Default for ObmmMemDesc<T> {
    fn default() -> (r: Self)
        ensures
            r.addr == 0,
            r.length == 0,
            r.tokenid == 0,
            r.scna == 0,
            r.dcna == 0,
            r.priv_len == 0,
    {
        Self::new()
    }
}

/// What a preimport asks for: a physical range, a placement hint, and the
/// entity pair it belongs to.
#[derive(Debug, Clone, Copy, PartialEq, Eq)]
pub struct ObmmPreimportInfo {
    /// Physical address of the region
    pub pa: u64,
    /// Length of the region in bytes
    pub length: u64,
    /// Base distribution hint
    pub base_dist: i32,
    /// Memory-locality node of the preimport
    pub numa_id: i32,
    /// Source entity ID, 128 bits little-endian
    pub seid: [u8; 16],
    /// Destination entity ID, 128 bits little-endian
    pub deid: [u8; 16],
    /// Source component network address
    pub scna: u32,
    /// Destination component network address
    pub dcna: u32,
    /// Length of the privilege data
    pub priv_len: u16,
}

impl Default for ObmmPreimportInfo {
    fn default() -> (r: Self)
        ensures
            r.pa == 0,
            r.length == 0,
            r.base_dist == 0,
            r.numa_id == 0,
            r.scna == 0,
            r.dcna == 0,
            r.priv_len == 0,
    {
        Self {
            pa: 0,
            length: 0,
            base_dist: 0,
            numa_id: 0,
            seid: [0; 16],
            deid: [0; 16],
            scna: 0,
            dcna: 0,
            priv_len: 0,
        }
    }
}

/// What an import returned: the assigned memory ID and the node the
/// memory was placed on.
#[derive(Debug, Clone, Copy, PartialEq, Eq, Structural)]
pub struct ImportResult {
    /// Assigned memory ID
    pub mem_id: MemId,
    /// Node where the memory was placed
    pub numa_node: i32,
}

impl Default for ImportResult {
    fn default() -> (r: Self)
        ensures
            r.mem_id == 0,
            r.numa_node == 0,
    {
        Self { mem_id: 0, numa_node: 0 }
    }
}

/// What a query returned: the region and position matching the question.
#[derive(Debug, Clone, Copy, PartialEq, Eq, Structural)]
pub struct QueryResult {
    /// Memory ID (for a query by physical address)
    pub mem_id: MemId,
    /// Offset within the region (for a query by physical address)
    pub offset: u64,
    /// Physical address (for a query by memory ID)
    pub phys_addr: u64,
}

impl Default for QueryResult {
    fn default() -> (r: Self)
        ensures
            r.mem_id == 0,
            r.offset == 0,
            r.phys_addr == 0,
    {
        Self { mem_id: 0, offset: 0, phys_addr: 0 }
    }
}

/// Errors of the remote-memory operations.
#[derive(Debug, Clone, PartialEq)]
pub enum ObmmError {
    /// An invalid memory ID was encountered
    InvalidMemId,
    /// Export failed with the given code
    ExportFailed(i32),
    /// Unexport failed with the given code
    UnexportFailed(i32),
    /// Import failed with the given code
    ImportFailed(i32),
    /// Unimport failed with the given code
    UnimportFailed(i32),
    /// Preimport failed with the given code
    PreimportFailed(i32),
    /// Unpreimport failed with the given code
    UnpreimportFailed(i32),
    /// Exporting a user address failed with the given code
    ExportUseraddrFailed(i32),
    /// Setting ownership failed with the given code
    SetOwnershipFailed(i32),
    /// A query failed with the given code
    QueryFailed(i32),
    /// Invalid input was provided
    InvalidInput(&'static str),
    /// An I/O error occurred
    IoError(String),
    /// Serialization or deserialization failed
    SerializationError(String),
}

impl ObmmError {
    /// The human-readable description of each error.
    pub open spec fn spec_message(&self) -> Seq<char> {
        match self {
            ObmmError::InvalidMemId => "Invalid memory ID"@,
            ObmmError::ExportFailed(code) => "Memory export failed with code: "@
                + spec_i64_dec_digits(*code as int),
            ObmmError::UnexportFailed(code) => "Memory unexport failed with code: "@
                + spec_i64_dec_digits(*code as int),
            ObmmError::ImportFailed(code) => "Memory import failed with code: "@
                + spec_i64_dec_digits(*code as int),
            ObmmError::UnimportFailed(code) => "Memory unimport failed with code: "@
                + spec_i64_dec_digits(*code as int),
            ObmmError::PreimportFailed(code) => "Memory preimport failed with code: "@
                + spec_i64_dec_digits(*code as int),
            ObmmError::UnpreimportFailed(code) => "Memory unpreimport failed with code: "@
                + spec_i64_dec_digits(*code as int),
            ObmmError::ExportUseraddrFailed(code) => "Export user address failed with code: "@
                + spec_i64_dec_digits(*code as int),
            ObmmError::SetOwnershipFailed(code) => "Set ownership failed with code: "@
                + spec_i64_dec_digits(*code as int),
            ObmmError::QueryFailed(code) => "Query operation failed with code: "@
                + spec_i64_dec_digits(*code as int),
            ObmmError::InvalidInput(msg) => "Invalid input: "@ + msg@,
            ObmmError::IoError(msg) => "I/O error: "@ + msg@,
            ObmmError::SerializationError(msg) => "Serialization error: "@ + msg@,
        }
    }

    /// A human-readable description of the error.
    pub fn message(&self) -> (r: String)
        ensures
            r@ == self.spec_message(),
    {
        let mut s = String::new();
        match self {
            ObmmError::InvalidMemId => s.append("Invalid memory ID"),
            ObmmError::ExportFailed(code) => {
                s.append("Memory export failed with code: ");
                let d = crate::strfmt::i64_to_dec(*code as i64);
                s.append(d.as_str());
            },
            ObmmError::UnexportFailed(code) => {
                s.append("Memory unexport failed with code: ");
                let d = crate::strfmt::i64_to_dec(*code as i64);
                s.append(d.as_str());
            },
            ObmmError::ImportFailed(code) => {
                s.append("Memory import failed with code: ");
                let d = crate::strfmt::i64_to_dec(*code as i64);
                s.append(d.as_str());
            },
            ObmmError::UnimportFailed(code) => {
                s.append("Memory unimport failed with code: ");
                let d = crate::strfmt::i64_to_dec(*code as i64);
                s.append(d.as_str());
            },
            ObmmError::PreimportFailed(code) => {
                s.append("Memory preimport failed with code: ");
                let d = crate::strfmt::i64_to_dec(*code as i64);
                s.append(d.as_str());
            },
            ObmmError::UnpreimportFailed(code) => {
                s.append("Memory unpreimport failed with code: ");
                let d = crate::strfmt::i64_to_dec(*code as i64);
                s.append(d.as_str());
            },
            ObmmError::ExportUseraddrFailed(code) => {
                s.append("Export user address failed with code: ");
                let d = crate::strfmt::i64_to_dec(*code as i64);
                s.append(d.as_str());
            },
            ObmmError::SetOwnershipFailed(code) => {
                s.append("Set ownership failed with code: ");
                let d = crate::strfmt::i64_to_dec(*code as i64);
                s.append(d.as_str());
            },
            ObmmError::QueryFailed(code) => {
                s.append("Query operation failed with code: ");
                let d = crate::strfmt::i64_to_dec(*code as i64);
                s.append(d.as_str());
            },
            ObmmError::InvalidInput(msg) => {
                s.append("Invalid input: ");
                s.append(msg);
            },
            ObmmError::IoError(msg) => {
                s.append("I/O error: ");
                s.append(msg.as_str());
            },
            ObmmError::SerializationError(msg) => {
                s.append("Serialization error: ");
                s.append(msg.as_str());
            },
        }
        proof {
            assert(s@ =~= self.spec_message());
        }
        s
    }
}

/// Result alias of the remote-memory operations.
pub type ObmmResult<T> = core::result::Result<T, ObmmError>;

/// Conversion of C-style return codes into `ObmmResult`.
pub trait ToObmmResult<T>: Sized {
    /// Whether this code counts as success for the target result type.
    spec fn spec_ok(self) -> bool;

    /// The success value this code carries.
    spec fn spec_val(self) -> T;

    /// Convert `self` to a result, mapping a failure code through `error_mapper`.
    fn to_obmm_result<F: Fn(i32) -> ObmmError>(self, error_mapper: F) -> (r: ObmmResult<T>)
        requires
            forall|code: i32| #[trigger] call_requires(error_mapper, (code,)),
        ensures
            r is Ok <==> self.spec_ok(),
            r is Ok ==> r->Ok_0 == self.spec_val();
}

impl ToObmmResult<()> for i32 {
    /// Zero is success; any other code is an error.
    open spec fn spec_ok(self) -> bool {
        self == 0
    }

    open spec fn spec_val(self) -> () {
        ()
    }

    fn to_obmm_result<F: Fn(i32) -> ObmmError>(self, error_mapper: F) -> (r: ObmmResult<()>) {
        if self == 0 {
            Ok(())
        } else {
            Err(error_mapper(self))
        }
    }
}

impl ToObmmResult<u64> for u64 {
    /// A memory ID is success iff it is not the invalid zero ID, and is
    /// returned as it is; zero is mapped through the error mapper with
    /// code zero.
    open spec fn spec_ok(self) -> bool {
        self != 0
    }

    open spec fn spec_val(self) -> u64 {
        self
    }

    fn to_obmm_result<F: Fn(i32) -> ObmmError>(self, error_mapper: F) -> (r: ObmmResult<u64>) {
        if self == 0 {
            Err(error_mapper(0))
        } else {
            Ok(self)
        }
    }
}

} // verus!
