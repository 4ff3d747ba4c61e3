//! The kernel surface of the engine as data: the procfs paths of the
//! per-process interfaces, the control-call numbers, and the watermark
//! control-call argument. The calls themselves are issued by the embedding
//! binary; everything here is computed and verified.

use vstd::prelude::*;

use crate::strfmt::{spec_dec_digits, u64_to_dec};

verus! {

/// Sysfs path of the system-wide kernel swap toggle.
pub const SYS_ETMEM_SWAP_ENABLE: &'static str = "/sys/kernel/mm/swap/kernel_swap_enable";

/// Control-call numbers are built from a one-byte magic in bits 8 through
/// 15, a command sub-number in bits 0 through 7, an argument size in bits
/// 16 through 29, and the "write argument to kernel" direction bit 30.
///
/// Add scan flags (idle-scan magic, command 0, 4-byte argument).
pub const IDLE_SCAN_ADD_FLAGS: u64 = (0x66u64 << 8) | (4u64 << 16) | (1u64 << 30);

/// Remove scan flags (idle-scan magic, command 1, 4-byte argument).
pub const IDLE_SCAN_REMOVE_FLAGS: u64 = (0x66u64 << 8) | 0x1u64 | (4u64 << 16) | (1u64 << 30);

/// Add region-scoped scan flags (idle-scan magic, command 2, 4-byte argument).
pub const VMA_SCAN_ADD_FLAGS: u64 = (0x66u64 << 8) | 0x2u64 | (4u64 << 16) | (1u64 << 30);

/// Remove region-scoped scan flags (idle-scan magic, command 3, 4-byte argument).
pub const VMA_SCAN_REMOVE_FLAGS: u64 = (0x66u64 << 8) | 0x3u64 | (4u64 << 16) | (1u64 << 30);

/// Enable swapcache reclaim (swapcache magic, command 1, 4-byte argument).
pub const RECLAIM_SWAPCACHE_ON: u64 = (0x77u64 << 8) | 0x01u64 | (4u64 << 16) | (1u64 << 30);

/// Disable swapcache reclaim (swapcache magic, command 0, 4-byte argument).
pub const RECLAIM_SWAPCACHE_OFF: u64 = (0x77u64 << 8) | (4u64 << 16) | (1u64 << 30);

/// Set a swapcache watermark (swapcache magic, command 2, 8-byte argument).
pub const SET_SWAPCACHE_WMARK: u64 = (0x77u64 << 8) | 0x02u64 | (8u64 << 16) | (1u64 << 30);

/// The characters of the idle-page interface path of a process.
pub open spec fn spec_idle_pages_path(pid: u32) -> Seq<char> {
    "/proc/"@ + spec_dec_digits(pid as int) + "/idle_pages"@
}

/// The characters of the swap interface path of a process.
pub open spec fn spec_swap_pages_path(pid: u32) -> Seq<char> {
    "/proc/"@ + spec_dec_digits(pid as int) + "/swap_pages"@
}

/// Procfs path of a process's idle-page read interface.
pub fn idle_pages_path(pid: u32) -> (s: String)
    ensures
        s@ == spec_idle_pages_path(pid),
{
    let mut s = String::new();
    s.append("/proc/");
    let digits = u64_to_dec(pid as u64);
    s.append(digits.as_str());
    s.append("/idle_pages");
    proof {
        assert(s@ =~= spec_idle_pages_path(pid));
    }
    s
}

/// Procfs path of a process's swap write interface.
pub fn swap_pages_path(pid: u32) -> (s: String)
    ensures
        s@ == spec_swap_pages_path(pid),
{
    let mut s = String::new();
    s.append("/proc/");
    let digits = u64_to_dec(pid as u64);
    s.append(digits.as_str());
    s.append("/swap_pages");
    proof {
        assert(s@ =~= spec_swap_pages_path(pid));
    }
    s
}

/// Argument of the set-watermark control call: a level (0 low, 1 high) and
/// a percentage.
#[derive(Debug, Clone, Copy, PartialEq, Eq, Structural)]
pub struct SwapcacheWmarkArg {
    /// Watermark level (0 = low, 1 = high)
    pub level: u32,
    /// Watermark percentage (0 through 100)
    pub percent: u32,
}

} // verus!
