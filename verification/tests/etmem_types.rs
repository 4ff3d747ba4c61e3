use memlink::{
    AddressRange, BufferStatus, IdlePageInfo, PipEncoding, ProcIdlePageType, ScanConfig,
    ScanFlags, WatermarkConfig,
};

#[test]
fn test_pip_encoding() {
    let encoded = PipEncoding::compose(ProcIdlePageType::PteIdle.code(), 5);
    assert_eq!(PipEncoding::extract_type(encoded), ProcIdlePageType::PteIdle.code());
    assert_eq!(PipEncoding::extract_size(encoded), 5);

    let (t, s) = PipEncoding::decode(encoded);
    assert_eq!(t, ProcIdlePageType::PteIdle.code());
    assert_eq!(s, 5);
}

#[test]
fn test_proc_idle_page_type() {
    assert!(ProcIdlePageType::PmdIdle.is_huge());
    assert!(!ProcIdlePageType::PteIdle.is_huge());
    assert!(ProcIdlePageType::PteIdle.is_idle());
    assert!(ProcIdlePageType::PteAccessed.is_accessed());
    assert!(ProcIdlePageType::PteHole.is_hole());
    assert_eq!(ProcIdlePageType::PteAccessed.page_size(), 4096);
    assert_eq!(ProcIdlePageType::PmdAccessed.page_size(), 2 * 1024 * 1024);
    assert_eq!(ProcIdlePageType::PudPresent.page_size(), 1024 * 1024 * 1024);
}

#[test]
fn test_scan_flags() {
    let flags = ScanFlags::SCAN_HUGE_PAGE() | ScanFlags::SCAN_DIRTY_PAGE();
    assert!(flags.is_valid());
    assert!(flags.contains(ScanFlags::SCAN_HUGE_PAGE()));
    assert!(flags.contains(ScanFlags::SCAN_DIRTY_PAGE()));
}

#[test]
fn test_address_range() {
    let range = AddressRange::new(0x1000, 0x5000);
    assert!(range.contains(0x2000));
    assert!(!range.contains(0x5000));
    assert_eq!(range.size(), 0x4000);
    assert!(range.is_valid());

    let with_size = AddressRange::with_size(0x1000, 0x4000);
    assert_eq!(with_size, range);
}

#[test]
fn test_watermark_config() {
    let config = WatermarkConfig::new(30, 70);
    assert!(config.validate().is_ok());

    let invalid = WatermarkConfig::new(70, 30);
    assert!(invalid.validate().is_err());

    let out_of_range = WatermarkConfig::new(0, 101);
    assert!(out_of_range.validate().is_err());
}

#[test]
fn test_idle_page_info() {
    let info = IdlePageInfo::new(0x1000, ProcIdlePageType::PteIdle, 2);
    assert_eq!(info.address, 0x1000);
    assert!(info.is_idle());
    assert_eq!(info.total_size(), 4096 * 2);
    assert_eq!(info.end_address(), 0x1000 + 4096 * 2);
}

#[test]
fn types_test_scan_config_validation() {
    let config = ScanConfig::default();
    assert!(config.validate().is_ok());

    let invalid = ScanConfig::default().with_buffer_size(10);
    assert!(invalid.validate().is_err());
}

#[test]
fn test_scan_config_rejects_oversized_buffer() {
    let config = ScanConfig::default().with_buffer_size(8001);
    assert!(config.validate().is_err());
    let config = ScanConfig::default().with_buffer_size(8000);
    assert!(config.validate().is_ok());
    let config = ScanConfig::default().with_buffer_size(19);
    assert!(config.validate().is_ok());
    let config = ScanConfig::default().with_buffer_size(18);
    assert!(config.validate().is_err());
}

#[test]
fn test_scan_flags_unknown_bit_rejected() {
    let flags = ScanFlags { bits: 0x2 };
    assert!(!flags.is_valid());
    let config = ScanConfig::default().with_flags(flags);
    assert!(matches!(config.validate(), Err(memlink::EtmemError::InvalidFlags)));
}

#[test]
fn test_watermark_validation_errors_are_exact() {
    assert!(matches!(
        WatermarkConfig::new(0, 101).validate(),
        Err(memlink::EtmemError::WatermarkOutOfRange)
    ));
    assert!(matches!(
        WatermarkConfig::new(70, 30).validate(),
        Err(memlink::EtmemError::InvalidWatermarkOrder)
    ));
    assert!(matches!(
        WatermarkConfig::new(50, 50).validate(),
        Err(memlink::EtmemError::InvalidWatermarkOrder)
    ));
    assert!(WatermarkConfig::new(0, 100).validate().is_ok());
}

#[test]
fn test_pip_round_trip_all_codes() {
    for page_type in 0u8..=9 {
        for count in 1u8..=16 {
            let byte = PipEncoding::compose(page_type, count - 1);
            let (t, s) = PipEncoding::decode(byte);
            assert_eq!(t, page_type);
            assert_eq!(s, count - 1);
        }
    }
}

#[test]
fn test_set_hva_byte_is_composed_command() {
    assert_eq!(PipEncoding::SET_HVA, PipEncoding::compose(ProcIdlePageType::PipCmd.code(), 0));
}

#[test]
fn test_page_type_from_raw_codes() {
    for code in 0u8..=10 {
        let t = ProcIdlePageType::from_raw(code).unwrap();
        assert_eq!(t.code(), code);
    }
    assert!(ProcIdlePageType::from_raw(11).is_none());
    assert!(ProcIdlePageType::from_raw(255).is_none());
}

#[test]
fn test_buffer_status_from_raw() {
    assert_eq!(BufferStatus::from_raw(0), Some(BufferStatus::Success));
    assert_eq!(BufferStatus::from_raw(1), Some(BufferStatus::KbufFull));
    assert_eq!(BufferStatus::from_raw(2), Some(BufferStatus::BufFull));
    assert_eq!(BufferStatus::from_raw(3), None);
    assert!(BufferStatus::KbufFull.has_more());
    assert!(BufferStatus::BufFull.has_more());
    assert!(!BufferStatus::Success.has_more());
}
