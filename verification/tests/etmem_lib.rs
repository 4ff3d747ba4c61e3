use memlink::{AddressRange, EtmemError, ProcIdlePageType, ScanFlags, init_status, map_os_error};

#[test]
fn test_is_available() {
    let available = memlink::is_available();
    println!("ETMEM available: {}", available);
}

#[test]
fn test_re_exports() {
    let _: AddressRange = AddressRange::default();
    let _: ScanFlags = ScanFlags::empty();
    let _: ProcIdlePageType = ProcIdlePageType::PteIdle;
}

#[test]
fn test_etmem_availability() {
    let available = memlink::is_available();
    println!("ETMEM available: {available}");
}

#[test]
fn test_init_status_outcomes() {
    assert!(matches!(init_status(false, true), Err(EtmemError::ModuleNotLoaded)));
    assert!(matches!(init_status(false, false), Err(EtmemError::ModuleNotLoaded)));
    assert!(matches!(init_status(true, false), Err(EtmemError::PermissionDenied)));
    assert!(init_status(true, true).is_ok());
}

#[test]
fn test_map_os_error_taxonomy() {
    assert_eq!(map_os_error(Some(1), String::new()), EtmemError::PermissionDenied);
    assert_eq!(map_os_error(Some(13), String::new()), EtmemError::PermissionDenied);
    assert_eq!(map_os_error(Some(3), String::new()), EtmemError::ProcessNotFound);
    assert_eq!(map_os_error(Some(19), String::new()), EtmemError::ModuleNotLoaded);
    assert_eq!(map_os_error(Some(22), String::new()), EtmemError::InvalidFlags);
    assert_eq!(
        map_os_error(Some(5), "input/output error".to_string()),
        EtmemError::IoError("input/output error".to_string())
    );
    assert_eq!(
        map_os_error(None, "broken".to_string()),
        EtmemError::IoError("broken".to_string())
    );
}

#[test]
fn test_error_messages() {
    assert_eq!(EtmemError::InvalidPid.message(), "Invalid process ID");
    assert_eq!(EtmemError::InvalidPageType(11).message(), "Invalid page type: 11");
    assert_eq!(EtmemError::IoctlError(-22).message(), "IOCTL failed with code: -22");
    assert_eq!(
        EtmemError::SwapFailed("kernel said no".to_string()).message(),
        "Swap failed: kernel said no"
    );
    assert_eq!(
        EtmemError::BufferTooSmall.message(),
        "Buffer too small (minimum 19 bytes)"
    );
}

#[test]
fn test_numeral_builders() {
    assert_eq!(memlink::u64_to_dec(0), "0");
    assert_eq!(memlink::u64_to_dec(1234567890), "1234567890");
    assert_eq!(memlink::u64_to_hex(0), "0");
    assert_eq!(memlink::u64_to_hex(0xdeadbeef), "deadbeef");
    assert_eq!(memlink::u64_to_hex(u64::MAX), "ffffffffffffffff");
    assert_eq!(memlink::i64_to_dec(-45), "-45");
    assert_eq!(memlink::i64_to_dec(45), "45");
    assert_eq!(memlink::i64_to_dec(i64::MIN), "-9223372036854775808");
}
