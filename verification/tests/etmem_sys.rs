use memlink::{idle_pages_path, swap_pages_path, IDLE_SCAN_ADD_FLAGS};
use memlink::{
    IDLE_SCAN_REMOVE_FLAGS, RECLAIM_SWAPCACHE_OFF, RECLAIM_SWAPCACHE_ON, SET_SWAPCACHE_WMARK,
    VMA_SCAN_ADD_FLAGS, VMA_SCAN_REMOVE_FLAGS,
};

#[test]
fn test_paths() {
    assert_eq!(idle_pages_path(1234), "/proc/1234/idle_pages");
    assert_eq!(swap_pages_path(5678), "/proc/5678/swap_pages");
}

#[test]
fn test_ioctl_encoding() {
    // _IOW(0x66, 0, u32): magic in bits 8..16, 4-byte argument size, write
    // direction bit.
    let expected = ((0x66u64) << 8) | (4u64 << 16) | (1u64 << 30);
    assert_eq!(IDLE_SCAN_ADD_FLAGS, expected);
}

#[test]
fn test_control_call_numbers() {
    assert_eq!(IDLE_SCAN_REMOVE_FLAGS, ((0x66u64) << 8) | 1 | (4u64 << 16) | (1u64 << 30));
    assert_eq!(VMA_SCAN_ADD_FLAGS, ((0x66u64) << 8) | 2 | (4u64 << 16) | (1u64 << 30));
    assert_eq!(VMA_SCAN_REMOVE_FLAGS, ((0x66u64) << 8) | 3 | (4u64 << 16) | (1u64 << 30));
    assert_eq!(RECLAIM_SWAPCACHE_ON, ((0x77u64) << 8) | 1 | (4u64 << 16) | (1u64 << 30));
    assert_eq!(RECLAIM_SWAPCACHE_OFF, ((0x77u64) << 8) | (4u64 << 16) | (1u64 << 30));
    assert_eq!(SET_SWAPCACHE_WMARK, ((0x77u64) << 8) | 2 | (8u64 << 16) | (1u64 << 30));
}
