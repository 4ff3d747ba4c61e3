//! Tiered-memory management primitives: an idle-page scan/swap engine for the
//! kernel's per-process idle-page interface, together with the pure parsing
//! and formatting logic of the firmware-control and remote-memory tooling
//! built around it.

use vstd::prelude::*;

mod error;
mod fwctl;
mod fwctl_device;
mod fwctl_list;
mod obmm;
mod ownership;
pub mod prot;
mod scan;
mod strfmt;
mod swap;
mod sys;
mod types;
mod util;

pub use error::{EtmemError, EtmemResult, ToEtmemResult, map_os_error};
pub use error::{OS_EACCES, OS_EINVAL, OS_ENODEV, OS_EPERM, OS_ESRCH};
pub use fwctl::{
    FwctlDeviceInfo, IoDieInfo, MarPerfConfig, MarPerfQuery, MarPerfResult, PortInfo,
    UbFwctlCmd, UbfwctlError, payload_average, port_pair_of,
};
pub use fwctl::{
    BA_MAR_PERF_MAX_SIZE, BA_MAR_PERF_NUM_TWO, CLOCK_CYCLE_IDX, FLUX_RD_IDX, FLUX_SUM_IDX,
    FLUX_WR_IDX, MAX_PORTS, MAX_TIME_MS, MIN_TIME_MS, MS_TO_US, NAME, PORT_ID_IDX,
    RD_CMD_IDX, RLATCNT_FIRST_IDX, SUM_CMD_IDX, WLATCNT_FIRST_IDX, WR_CMD_IDX,
};
pub use fwctl_device::{
    DiscoveredDevice, FWCTL_DEV_DIR, FWCTL_DEV_PREFIX, FWCTL_RPC, FWCTL_RPC_CONFIGURATION,
    parse_device_id, parse_uevent_entity,
};
pub use fwctl_list::{
    DeviceInfo, FwctlCommand, ListCommand, MarPerfCommand, PortDisplayInfo, format_device,
    format_device_list, to_device_info,
};
pub use obmm::{
    ImportResult, MAX_NUMA_NODES, MemId, OBMM_INVALID_MEMID, OBMM_MAX_LOCAL_NUMA_NODES,
    ObmmError, ObmmExportFlags, ObmmMemDesc, ObmmPreimportFlags, ObmmPreimportInfo,
    ObmmResult, ObmmUnexportFlags, QueryResult, ToObmmResult, UbPrivData,
};
pub use ownership::OwnershipSetter;
pub use scan::{
    PageIdleCtrl, ScanSession, filter_in_range, lemma_decode_address_advance,
    lemma_decode_record_bounds, lemma_decode_set_hva, lemma_le64_round_trip,
    range_continuation, spec_decode_pip,
};
pub use swap::{SwapSession, flush_outcome, parse_swap_enabled, swap_enable_value};
pub use strfmt::{i64_to_dec, u64_to_dec, u64_to_hex};
pub use sys::{
    IDLE_SCAN_ADD_FLAGS, IDLE_SCAN_REMOVE_FLAGS, RECLAIM_SWAPCACHE_OFF, RECLAIM_SWAPCACHE_ON,
    SET_SWAPCACHE_WMARK, SYS_ETMEM_SWAP_ENABLE, SwapcacheWmarkArg, VMA_SCAN_ADD_FLAGS,
    VMA_SCAN_REMOVE_FLAGS, idle_pages_path, swap_pages_path,
};
pub use types::{
    AddressRange, BufferStatus, IdlePageInfo, PipEncoding, ProcIdlePageType, ScanConfig,
    ScanFlags, SwapConfig, SwapcacheWatermark, WatermarkConfig, lemma_page_categories_disjoint,
    lemma_pip_round_trip, lemma_set_hva_byte,
};
pub use types::{
    DEFAULT_WALK_STEP, IDLE_SCAN_MAGIC, INVALID_PAGE, PAGE_IDLE_BUF_MIN, PAGE_IDLE_KBUF_SIZE,
    RECLAIM_SWAPCACHE_MAGIC, RET_RESCAN_FLAG, SWAP_SCAN_NUM_MAX, WATERMARK_MAX,
};
pub use util::{
    IdlePageStats, accessed_memory_size, bytes_to_pages, filter_accessed_pages,
    filter_huge_pages, filter_idle_pages, format_bytes, group_by_type, huge_page_align_down,
    idle_memory_size, is_etmem_available, is_huge_page_aligned, is_page_aligned,
    page_align_down, page_align_up, page_shift, pages_to_bytes, suggest_page_size,
    total_memory_size,
};

verus! {

/// Whether the kernel's idle-page interfaces are present on this system.
/// The outcome depends on the running kernel, so nothing more is promised
/// of it.
pub fn is_available() -> bool {
    util::is_etmem_available()
}

/// What initialization reports for each probe outcome: a missing kernel
/// feature first, then missing permission, then success.
pub fn init_status(available: bool, permitted: bool) -> (r: EtmemResult<()>)
    ensures
        !available ==> r == EtmemResult::<()>::Err(EtmemError::ModuleNotLoaded),
        available && !permitted ==> r == EtmemResult::<()>::Err(EtmemError::PermissionDenied),
        available && permitted ==> r == EtmemResult::<()>::Ok(()),
{
    if !available {
        return Err(EtmemError::ModuleNotLoaded);
    }
    if !permitted {
        return Err(EtmemError::PermissionDenied);
    }
    Ok(())
}

} // verus!
