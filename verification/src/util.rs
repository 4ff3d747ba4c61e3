//! Address arithmetic, page-record statistics and filters, and the
//! human-readable byte formatter.

use std::collections::HashMap;

use vstd::prelude::*;

use crate::strfmt::{spec_dec_digits, spec_digit_char, u64_to_dec};
use crate::types::{
    IdlePageInfo, ProcIdlePageType, spec_is_accessed, spec_is_huge, spec_is_idle,
};

verus! {

/// Whether an address is 4096-byte aligned.
pub fn is_page_aligned(addr: u64) -> (r: bool)
    ensures
        r == (addr % 4096 == 0),
{
    addr % 4096 == 0
}

/// Whether an address is 2MB aligned.
pub fn is_huge_page_aligned(addr: u64) -> (r: bool)
    ensures
        r == (addr % 0x200000 == 0),
{
    addr % (2 * 1024 * 1024) == 0
}

/// The address rounded down to a 4096-byte boundary.
pub fn page_align_down(addr: u64) -> (r: u64)
    ensures
        r == (addr / 4096) * 4096,
{
    proof {
        assert(addr & !4095u64 == (addr / 4096) * 4096) by (bit_vector);
    }
    addr & !(4096 - 1)
}

/// The address rounded up to a 4096-byte boundary.
pub fn page_align_up(addr: u64) -> (r: u64)
    requires
        addr + 4095 <= u64::MAX,
    ensures
        r == ((addr + 4095) / 4096) * 4096,
{
    ((addr + 4095) / 4096) * 4096
}

/// The address rounded down to a 2MB boundary.
pub fn huge_page_align_down(addr: u64) -> (r: u64)
    ensures
        r == (addr / 0x200000) * 0x200000,
{
    proof {
        assert(addr & !0x1fffffu64 == (addr / 0x200000) * 0x200000) by (bit_vector);
    }
    addr & !((2 * 1024 * 1024) - 1)
}

/// The page size suggested for a range: the largest of 1GB, 2MB or 4096
/// whose size the range reaches with a 2MB-aligned start.
pub fn suggest_page_size(start: u64, size: u64) -> (r: u64)
    ensures
        r == if size >= 0x40000000 && start % 0x200000 == 0 { 0x40000000u64 }
             else if size >= 0x200000 && start % 0x200000 == 0 { 0x200000u64 }
             else { 4096u64 },
{
    if size >= 1024 * 1024 * 1024 && is_huge_page_aligned(start) {
        1024 * 1024 * 1024
    } else if size >= 2 * 1024 * 1024 && is_huge_page_aligned(start) {
        2 * 1024 * 1024
    } else {
        4096
    }
}

/// The bytes covered by a sequence of run records.
pub open spec fn spec_total_bytes(s: Seq<IdlePageInfo>) -> int
    decreases s.len(),
{
    if s.len() == 0 {
        0
    } else {
        spec_total_bytes(s.drop_last()) + s.last().spec_total_size()
    }
}

/// The bytes covered by the idle records of a sequence.
pub open spec fn spec_idle_bytes(s: Seq<IdlePageInfo>) -> int
    decreases s.len(),
{
    if s.len() == 0 {
        0
    } else {
        spec_idle_bytes(s.drop_last()) + if spec_is_idle(s.last().page_type) {
            s.last().spec_total_size()
        } else {
            0
        }
    }
}

/// The bytes covered by the accessed records of a sequence.
pub open spec fn spec_accessed_bytes(s: Seq<IdlePageInfo>) -> int
    decreases s.len(),
{
    if s.len() == 0 {
        0
    } else {
        spec_accessed_bytes(s.drop_last()) + if spec_is_accessed(s.last().page_type) {
            s.last().spec_total_size()
        } else {
            0
        }
    }
}

/// The number of pages covered by a sequence of run records.
pub open spec fn spec_total_pages(s: Seq<IdlePageInfo>) -> int
    decreases s.len(),
{
    if s.len() == 0 {
        0
    } else {
        spec_total_pages(s.drop_last()) + s.last().count
    }
}

/// The number of idle pages of a sequence of run records.
pub open spec fn spec_idle_pages(s: Seq<IdlePageInfo>) -> int
    decreases s.len(),
{
    if s.len() == 0 {
        0
    } else {
        spec_idle_pages(s.drop_last()) + if spec_is_idle(s.last().page_type) {
            s.last().count as int
        } else {
            0
        }
    }
}

/// The number of accessed pages of a sequence of run records.
pub open spec fn spec_accessed_pages(s: Seq<IdlePageInfo>) -> int
    decreases s.len(),
{
    if s.len() == 0 {
        0
    } else {
        spec_accessed_pages(s.drop_last()) + if spec_is_accessed(s.last().page_type) {
            s.last().count as int
        } else {
            0
        }
    }
}

/// The number of huge-page records of a sequence.
pub open spec fn spec_huge_records(s: Seq<IdlePageInfo>) -> int
    decreases s.len(),
{
    if s.len() == 0 {
        0
    } else {
        spec_huge_records(s.drop_last()) + if spec_is_huge(s.last().page_type) {
            1int
        } else {
            0
        }
    }
}

/// Total bytes covered by a list of run records.
pub fn total_memory_size(pages: &[IdlePageInfo]) -> (r: u64)
    requires
        spec_total_bytes(pages@) <= u64::MAX,
    ensures
        r == spec_total_bytes(pages@),
{
    let mut sum: u64 = 0;
    let mut i: usize = 0;
    proof {
        assert(pages@.subrange(0, 0) =~= Seq::<IdlePageInfo>::empty());
        lemma_total_bytes_prefix_bound(pages@, 0);
    }
    while i < pages.len()
        invariant
            i <= pages@.len(),
            sum == spec_total_bytes(pages@.subrange(0, i as int)),
            spec_total_bytes(pages@) <= u64::MAX,
        decreases pages@.len() - i,
    {
        proof {
            assert(pages@.subrange(0, i + 1).drop_last() =~= pages@.subrange(0, i as int));
            lemma_total_bytes_prefix_bound(pages@, i + 1);
            lemma_total_bytes_nonneg(pages@.subrange(0, i as int));
            lemma_total_size_nonneg(pages@[i as int]);
        }
        sum = sum + pages[i].total_size();
        i = i + 1;
    }
    proof {
        assert(pages@.subrange(0, pages@.len() as int) =~= pages@);
    }
    sum
}

/// Every record covers a non-negative number of bytes.
proof fn lemma_total_size_nonneg(p: IdlePageInfo)
    ensures
        0 <= p.spec_total_size() <= 0x40000000 * 255,
{
    crate::scan::lemma_page_size_bound(p.page_type);
    assert(crate::types::spec_page_size(p.page_type) * p.count <= 0x40000000 * 255)
        by (nonlinear_arith)
        requires
            0 < crate::types::spec_page_size(p.page_type) <= 0x40000000,
            p.count <= 255,
    ;
    assert(crate::types::spec_page_size(p.page_type) * p.count >= 0) by (nonlinear_arith)
        requires
            crate::types::spec_page_size(p.page_type) > 0,
            p.count >= 0,
    ;
}

/// Byte totals are non-negative.
proof fn lemma_total_bytes_nonneg(s: Seq<IdlePageInfo>)
    ensures
        spec_total_bytes(s) >= 0,
    decreases s.len(),
{
    if s.len() > 0 {
        lemma_total_bytes_nonneg(s.drop_last());
        lemma_total_size_nonneg(s.last());
    }
}

/// A prefix covers at most as many bytes as the whole.
proof fn lemma_total_bytes_prefix_bound(s: Seq<IdlePageInfo>, i: int)
    requires
        0 <= i <= s.len(),
    ensures
        spec_total_bytes(s.subrange(0, i)) <= spec_total_bytes(s),
    decreases s.len() - i,
{
    if i == s.len() {
        assert(s.subrange(0, i) =~= s);
    } else {
        lemma_total_bytes_prefix_bound(s, i + 1);
        assert(s.subrange(0, i + 1).drop_last() =~= s.subrange(0, i));
        lemma_total_size_nonneg(s[i]);
    }
}

/// Statistics of a scan: counts and byte totals of the idle, accessed and
/// huge pages seen.
#[derive(Debug, Clone, Copy, Default)]
pub struct IdlePageStats {
    /// Total number of pages
    pub total_pages: usize,
    /// Number of idle pages
    pub idle_pages: usize,
    /// Number of accessed pages
    pub accessed_pages: usize,
    /// Number of huge-page records
    pub huge_pages: usize,
    /// Total memory size in bytes
    pub total_bytes: u64,
    /// Idle memory size in bytes
    pub idle_bytes: u64,
    /// Accessed memory size in bytes
    pub accessed_bytes: u64,
}

impl IdlePageStats {
    /// Compute the statistics of a list of run records: the page counts
    /// and byte totals overall and split into idle and accessed, and the
    /// number of huge-page records.
    pub fn from_pages(pages: &[IdlePageInfo]) -> (r: IdlePageStats)
        requires
            spec_total_bytes(pages@) <= u64::MAX,
            spec_total_pages(pages@) <= usize::MAX,
        ensures
            r.total_pages == spec_total_pages(pages@),
            r.idle_pages == spec_idle_pages(pages@),
            r.accessed_pages == spec_accessed_pages(pages@),
            r.huge_pages == spec_huge_records(pages@),
            r.total_bytes == spec_total_bytes(pages@),
            r.idle_bytes == spec_idle_bytes(pages@),
            r.accessed_bytes == spec_accessed_bytes(pages@),
    {
        let mut stats = IdlePageStats {
            total_pages: 0,
            idle_pages: 0,
            accessed_pages: 0,
            huge_pages: 0,
            total_bytes: 0,
            idle_bytes: 0,
            accessed_bytes: 0,
        };

        let mut i: usize = 0;
        proof {
            assert(pages@.subrange(0, 0) =~= Seq::<IdlePageInfo>::empty());
        }
        while i < pages.len()
            invariant
                i <= pages@.len(),
                spec_total_bytes(pages@) <= u64::MAX,
                spec_total_pages(pages@) <= usize::MAX,
                stats.total_pages == spec_total_pages(pages@.subrange(0, i as int)),
                stats.idle_pages == spec_idle_pages(pages@.subrange(0, i as int)),
                stats.accessed_pages == spec_accessed_pages(pages@.subrange(0, i as int)),
                stats.huge_pages == spec_huge_records(pages@.subrange(0, i as int)),
                stats.total_bytes == spec_total_bytes(pages@.subrange(0, i as int)),
                stats.idle_bytes == spec_idle_bytes(pages@.subrange(0, i as int)),
                stats.accessed_bytes == spec_accessed_bytes(pages@.subrange(0, i as int)),
            decreases pages@.len() - i,
        {
            let page = pages[i];
            proof {
                assert(pages@.subrange(0, i + 1).drop_last() =~= pages@.subrange(0, i as int));
                assert(pages@.subrange(0, i + 1).last() == page);
                lemma_stats_prefix_bounds(pages@, i + 1);
                lemma_stats_prefix_bounds(pages@, i as int);
                lemma_total_size_nonneg(page);
                lemma_splits_nonneg(pages@.subrange(0, i as int));
            }
            stats.total_pages = stats.total_pages + page.count as usize;
            stats.total_bytes = stats.total_bytes + page.total_size();

            if page.is_idle() {
                stats.idle_pages = stats.idle_pages + page.count as usize;
                stats.idle_bytes = stats.idle_bytes + page.total_size();
            } else if page.is_accessed() {
                stats.accessed_pages = stats.accessed_pages + page.count as usize;
                stats.accessed_bytes = stats.accessed_bytes + page.total_size();
            }

            if page.page_type.is_huge() {
                stats.huge_pages = stats.huge_pages + 1;
            }
            i = i + 1;
        }
        proof {
            assert(pages@.subrange(0, pages@.len() as int) =~= pages@);
        }
        stats
    }
}

/// The split sums never exceed the full ones, and a prefix never exceeds
/// the whole.
proof fn lemma_stats_prefix_bounds(s: Seq<IdlePageInfo>, i: int)
    requires
        0 <= i <= s.len(),
    ensures
        spec_total_bytes(s.subrange(0, i)) <= spec_total_bytes(s),
        spec_total_pages(s.subrange(0, i)) <= spec_total_pages(s),
        spec_idle_bytes(s.subrange(0, i)) <= spec_total_bytes(s.subrange(0, i)),
        spec_accessed_bytes(s.subrange(0, i)) <= spec_total_bytes(s.subrange(0, i)),
        spec_idle_pages(s.subrange(0, i)) <= spec_total_pages(s.subrange(0, i)),
        spec_accessed_pages(s.subrange(0, i)) <= spec_total_pages(s.subrange(0, i)),
        spec_huge_records(s.subrange(0, i)) <= i,
    decreases s.len(), s.len() - i,
{
    lemma_total_bytes_prefix_bound(s, i);
    lemma_total_pages_prefix_bound(s, i);
    lemma_splits_bounded(s.subrange(0, i));
}

/// A prefix covers at most as many pages as the whole.
proof fn lemma_total_pages_prefix_bound(s: Seq<IdlePageInfo>, i: int)
    requires
        0 <= i <= s.len(),
    ensures
        spec_total_pages(s.subrange(0, i)) <= spec_total_pages(s),
    decreases s.len() - i,
{
    if i == s.len() {
        assert(s.subrange(0, i) =~= s);
    } else {
        lemma_total_pages_prefix_bound(s, i + 1);
        assert(s.subrange(0, i + 1).drop_last() =~= s.subrange(0, i));
    }
}

/// Idle and accessed sums are bounded by the totals; every record count
/// is at least one, so huge records are no more numerous than pages.
proof fn lemma_splits_bounded(s: Seq<IdlePageInfo>)
    ensures
        spec_idle_bytes(s) <= spec_total_bytes(s),
        spec_accessed_bytes(s) <= spec_total_bytes(s),
        spec_idle_pages(s) <= spec_total_pages(s),
        spec_accessed_pages(s) <= spec_total_pages(s),
        spec_huge_records(s) <= s.len(),
    decreases s.len(),
{
    if s.len() > 0 {
        lemma_splits_bounded(s.drop_last());
        lemma_total_size_nonneg(s.last());
    }
}

/// Split sums are non-negative.
proof fn lemma_splits_nonneg(s: Seq<IdlePageInfo>)
    ensures
        spec_idle_bytes(s) >= 0,
        spec_accessed_bytes(s) >= 0,
        spec_idle_pages(s) >= 0,
        spec_accessed_pages(s) >= 0,
        spec_huge_records(s) >= 0,
        spec_total_pages(s) >= 0,
        spec_total_bytes(s) >= 0,
    decreases s.len(),
{
    if s.len() > 0 {
        lemma_splits_nonneg(s.drop_last());
        lemma_total_size_nonneg(s.last());
    }
}

/// Bytes covered by the idle records of a list.
pub fn idle_memory_size(pages: &[IdlePageInfo]) -> (r: u64)
    requires
        spec_total_bytes(pages@) <= u64::MAX,
    ensures
        r == spec_idle_bytes(pages@),
{
    let mut sum: u64 = 0;
    let mut i: usize = 0;
    proof {
        assert(pages@.subrange(0, 0) =~= Seq::<IdlePageInfo>::empty());
    }
    while i < pages.len()
        invariant
            i <= pages@.len(),
            sum == spec_idle_bytes(pages@.subrange(0, i as int)),
            spec_total_bytes(pages@) <= u64::MAX,
        decreases pages@.len() - i,
    {
        let page = pages[i];
        proof {
            assert(pages@.subrange(0, i + 1).drop_last() =~= pages@.subrange(0, i as int));
            lemma_stats_prefix_bounds(pages@, i + 1);
            lemma_splits_nonneg(pages@.subrange(0, i as int));
            lemma_splits_nonneg(pages@.subrange(0, i + 1));
            lemma_total_size_nonneg(page);
        }
        if page.is_idle() {
            sum = sum + page.total_size();
        }
        i = i + 1;
    }
    proof {
        assert(pages@.subrange(0, pages@.len() as int) =~= pages@);
    }
    sum
}

/// Bytes covered by the accessed records of a list.
pub fn accessed_memory_size(pages: &[IdlePageInfo]) -> (r: u64)
    requires
        spec_total_bytes(pages@) <= u64::MAX,
    ensures
        r == spec_accessed_bytes(pages@),
{
    let mut sum: u64 = 0;
    let mut i: usize = 0;
    proof {
        assert(pages@.subrange(0, 0) =~= Seq::<IdlePageInfo>::empty());
    }
    while i < pages.len()
        invariant
            i <= pages@.len(),
            sum == spec_accessed_bytes(pages@.subrange(0, i as int)),
            spec_total_bytes(pages@) <= u64::MAX,
        decreases pages@.len() - i,
    {
        let page = pages[i];
        proof {
            assert(pages@.subrange(0, i + 1).drop_last() =~= pages@.subrange(0, i as int));
            lemma_stats_prefix_bounds(pages@, i + 1);
            lemma_splits_nonneg(pages@.subrange(0, i as int));
            lemma_splits_nonneg(pages@.subrange(0, i + 1));
            lemma_total_size_nonneg(page);
        }
        if page.is_accessed() {
            sum = sum + page.total_size();
        }
        i = i + 1;
    }
    proof {
        assert(pages@.subrange(0, pages@.len() as int) =~= pages@);
    }
    sum
}

/// Group records by their page type. The grouping lives in a hash map
/// keyed by the page type; what the map holds is checked by the tests, not
/// by proof, since nothing is known of the hashing of a derived key.
pub fn group_by_type(pages: &[IdlePageInfo]) -> HashMap<ProcIdlePageType, Vec<IdlePageInfo>> {
    let mut groups: HashMap<ProcIdlePageType, Vec<IdlePageInfo>> = HashMap::new();

    let mut i: usize = 0;
    while i < pages.len()
        decreases pages@.len() - i,
    {
        let page = pages[i];
        let mut v: Vec<IdlePageInfo> = match groups.remove(&page.page_type) {
            Some(v) => v,
            None => Vec::new(),
        };
        v.push(page);
        groups.insert(page.page_type, v);
        i = i + 1;
    }

    groups
}

/// The records that report idle pages, in order.
pub fn filter_idle_pages(pages: &[IdlePageInfo]) -> (r: Vec<IdlePageInfo>)
    ensures
        r@ == pages@.filter(|p: IdlePageInfo| spec_is_idle(p.page_type)),
{
    let ghost pred = |p: IdlePageInfo| spec_is_idle(p.page_type);
    let mut out: Vec<IdlePageInfo> = Vec::new();
    proof {
        reveal(Seq::filter);
        assert(pages@.subrange(0, 0) =~= Seq::<IdlePageInfo>::empty());
    }
    let mut i: usize = 0;
    while i < pages.len()
        invariant
            i <= pages@.len(),
            out@ == pages@.subrange(0, i as int).filter(pred),
            pred == (|p: IdlePageInfo| spec_is_idle(p.page_type)),
        decreases pages@.len() - i,
    {
        let page = pages[i];
        proof {
            reveal(Seq::filter);
            assert(pages@.subrange(0, i + 1).drop_last() =~= pages@.subrange(0, i as int));
            assert(pages@.subrange(0, i + 1).last() == page);
        }
        if page.is_idle() {
            out.push(page);
        }
        i = i + 1;
    }
    proof {
        assert(pages@.subrange(0, pages@.len() as int) =~= pages@);
    }
    out
}

/// The records that report accessed pages, in order.
pub fn filter_accessed_pages(pages: &[IdlePageInfo]) -> (r: Vec<IdlePageInfo>)
    ensures
        r@ == pages@.filter(|p: IdlePageInfo| spec_is_accessed(p.page_type)),
{
    let ghost pred = |p: IdlePageInfo| spec_is_accessed(p.page_type);
    let mut out: Vec<IdlePageInfo> = Vec::new();
    proof {
        reveal(Seq::filter);
        assert(pages@.subrange(0, 0) =~= Seq::<IdlePageInfo>::empty());
    }
    let mut i: usize = 0;
    while i < pages.len()
        invariant
            i <= pages@.len(),
            out@ == pages@.subrange(0, i as int).filter(pred),
            pred == (|p: IdlePageInfo| spec_is_accessed(p.page_type)),
        decreases pages@.len() - i,
    {
        let page = pages[i];
        proof {
            reveal(Seq::filter);
            assert(pages@.subrange(0, i + 1).drop_last() =~= pages@.subrange(0, i as int));
            assert(pages@.subrange(0, i + 1).last() == page);
        }
        if page.is_accessed() {
            out.push(page);
        }
        i = i + 1;
    }
    proof {
        assert(pages@.subrange(0, pages@.len() as int) =~= pages@);
    }
    out
}

/// The records of huge-page types, in order.
pub fn filter_huge_pages(pages: &[IdlePageInfo]) -> (r: Vec<IdlePageInfo>)
    ensures
        r@ == pages@.filter(|p: IdlePageInfo| spec_is_huge(p.page_type)),
{
    let ghost pred = |p: IdlePageInfo| spec_is_huge(p.page_type);
    let mut out: Vec<IdlePageInfo> = Vec::new();
    proof {
        reveal(Seq::filter);
        assert(pages@.subrange(0, 0) =~= Seq::<IdlePageInfo>::empty());
    }
    let mut i: usize = 0;
    while i < pages.len()
        invariant
            i <= pages@.len(),
            out@ == pages@.subrange(0, i as int).filter(pred),
            pred == (|p: IdlePageInfo| spec_is_huge(p.page_type)),
        decreases pages@.len() - i,
    {
        let page = pages[i];
        proof {
            reveal(Seq::filter);
            assert(pages@.subrange(0, i + 1).drop_last() =~= pages@.subrange(0, i as int));
            assert(pages@.subrange(0, i + 1).last() == page);
        }
        if page.page_type.is_huge() {
            out.push(page);
        }
        i = i + 1;
    }
    proof {
        assert(pages@.subrange(0, pages@.len() as int) =~= pages@);
    }
    out
}

/// The scale chosen for a byte count: how many times it divides by 1024
/// before falling under 1024, capped at the fourth unit.
pub open spec fn spec_byte_unit(bytes: int) -> int {
    if bytes < 0x400 { 0int }
    else if bytes < 0x100000 { 1int }
    else if bytes < 0x40000000 { 2int }
    else if bytes < 0x10000000000 { 3int }
    else { 4int }
}

/// 1024 to the power of the unit index.
pub open spec fn spec_unit_divisor(unit: int) -> int {
    if unit == 0 { 1int }
    else if unit == 1 { 0x400int }
    else if unit == 2 { 0x100000int }
    else if unit == 3 { 0x40000000int }
    else { 0x10000000000int }
}

/// The scaled value in hundredths, rounded half to even: the number such
/// that dividing it by 100 gives the byte count divided by the unit's
/// divisor, to two decimal places.
pub open spec fn spec_centi_value(bytes: int, unit: int) -> int {
    let d = spec_unit_divisor(unit);
    let q = (bytes * 100) / d;
    let r = (bytes * 100) % d;
    if 2 * r > d { q + 1 }
    else if 2 * r < d { q }
    else if q % 2 == 0 { q }
    else { q + 1 }
}

/// The name of each unit.
pub open spec fn spec_unit_name(unit: int) -> Seq<char> {
    if unit == 0 { seq!['B'] }
    else if unit == 1 { seq!['K', 'B'] }
    else if unit == 2 { seq!['M', 'B'] }
    else if unit == 3 { seq!['G', 'B'] }
    else { seq!['T', 'B'] }
}

/// The formatted byte count: the scaled value with exactly two decimal
/// places, a space, and the unit name.
pub open spec fn spec_format_bytes(bytes: int) -> Seq<char> {
    let unit = spec_byte_unit(bytes);
    let centi = spec_centi_value(bytes, unit);
    let whole = centi / 100;
    let frac = centi % 100;
    spec_dec_digits(whole) + seq!['.'] + seq![spec_digit_char(frac / 10)]
        + seq![spec_digit_char(frac % 10)] + seq![' '] + spec_unit_name(unit)
}

/// Format a byte count for people: scaled to the largest unit under 1024,
/// with two decimal places (rounding half to even) and the unit name.
pub fn format_bytes(bytes: u64) -> (s: String)
    ensures
        s@ == spec_format_bytes(bytes as int),
{
    let (divisor, unit_str): (u64, &'static str) = if bytes < 1024 {
        (1, "B")
    } else if bytes < 1024 * 1024 {
        (1024, "KB")
    } else if bytes < 1024 * 1024 * 1024 {
        (1024 * 1024, "MB")
    } else if bytes < 1024 * 1024 * 1024 * 1024 {
        (1024 * 1024 * 1024, "GB")
    } else {
        (1024 * 1024 * 1024 * 1024, "TB")
    };

    let scaled: u128 = (bytes as u128) * 100;
    let d: u128 = divisor as u128;
    let q: u128 = scaled / d;
    let r: u128 = scaled % d;
    let centi: u128 = if 2 * r > d {
        q + 1
    } else if 2 * r < d {
        q
    } else if q % 2 == 0 {
        q
    } else {
        q + 1
    };
    proof {
        assert(centi == spec_centi_value(bytes as int, spec_byte_unit(bytes as int)));
        assert(centi <= (bytes as int) * 100 / spec_unit_divisor(spec_byte_unit(bytes as int))
            + 1);
        assert(centi <= u64::MAX);
    }
    let centi64: u64 = centi as u64;
    let whole: u64 = centi64 / 100;
    let frac: u64 = centi64 % 100;

    let mut s = u64_to_dec(whole);
    proof {
        reveal_strlit(".");
        reveal_strlit(" ");
        reveal_strlit("B");
        reveal_strlit("KB");
        reveal_strlit("MB");
        reveal_strlit("GB");
        reveal_strlit("TB");
    }
    s.append(".");
    let d1 = crate::strfmt::u64_to_dec(frac / 10);
    s.append(d1.as_str());
    let d2 = crate::strfmt::u64_to_dec(frac % 10);
    s.append(d2.as_str());
    s.append(" ");
    s.append(unit_str);
    proof {
        assert(s@ =~= spec_format_bytes(bytes as int));
    }
    s
}

/// The shift of a page size: 12 for 4096, 21 for 2MB, 30 for 1GB, and 12
/// for anything else.
pub fn page_shift(page_size: u64) -> (r: u32)
    ensures
        r == if page_size == 0x200000 { 21u32 } else if page_size == 0x40000000 { 30u32 }
             else { 12u32 },
{
    if page_size == 4096 {
        12
    } else if page_size == 2 * 1024 * 1024 {
        21
    } else if page_size == 1024 * 1024 * 1024 {
        30
    } else {
        12
    }
}

/// Pages times page size, in bytes.
pub fn pages_to_bytes(pages: u64, page_size: u64) -> (r: u64)
    requires
        pages * page_size <= u64::MAX,
    ensures
        r == pages * page_size,
{
    pages * page_size
}

/// Bytes divided by page size, rounded up.
pub fn bytes_to_pages(bytes: u64, page_size: u64) -> (r: u64)
    requires
        page_size > 0,
        bytes + page_size <= u64::MAX,
    ensures
        r == (bytes + page_size - 1) as int / page_size as int,
{
    (bytes + page_size - 1) / page_size
}

/// Relies on `std::path::Path::exists` to probe the file system; nothing
/// is promised of the outcome, which depends on what is on disk.
#[verifier::external_body]
fn path_exists(path: &str) -> bool {
    std::path::Path::new(path).exists()
}

/// Whether the kernel's idle-page interfaces are present for the current
/// process. The outcome depends on the running kernel, so nothing more is
/// promised of it.
pub fn is_etmem_available() -> bool {
    path_exists("/proc/self/idle_pages") && path_exists("/proc/self/swap_pages")
}

} // verus!
