use memlink::{
    AddressRange, EtmemError, IdlePageInfo, PageIdleCtrl, PipEncoding, ProcIdlePageType,
    ScanConfig, ScanFlags, ScanSession, filter_in_range, range_continuation,
};

#[test]
fn test_page_idle_ctrl_new() {
    let ctrl = PageIdleCtrl::new(4096, ScanFlags::SCAN_HUGE_PAGE());
    assert_eq!(ctrl.next_hva(), 0);
    assert!(ctrl.flags().contains(ScanFlags::SCAN_HUGE_PAGE()));
}

#[test]
fn test_decode_pip_data() {
    let mut ctrl = PageIdleCtrl::default();

    let data = vec![PipEncoding::compose(ProcIdlePageType::PteAccessed.code(), 0)];
    let result = ctrl.decode_pip_data(&data, 0x1000).unwrap();

    assert_eq!(result.len(), 1);
    assert_eq!(result[0].address, 0x1000);
    assert_eq!(result[0].page_type, ProcIdlePageType::PteAccessed);
    assert_eq!(result[0].count, 1);
}

#[test]
fn test_decode_pip_data_with_hva() {
    let mut ctrl = PageIdleCtrl::default();

    let mut data = vec![PipEncoding::SET_HVA];
    let hva: u64 = 0x10000;
    data.extend_from_slice(&hva.to_le_bytes());
    data.push(PipEncoding::compose(ProcIdlePageType::PteIdle.code(), 0));

    let result = ctrl.decode_pip_data(&data, 0).unwrap();

    assert_eq!(result.len(), 1);
    assert_eq!(result[0].address, 0x10000);
    assert_eq!(result[0].page_type, ProcIdlePageType::PteIdle);
}

#[test]
fn scan_test_scan_config_validation() {
    let config = ScanConfig::default();
    assert!(ScanSession::new(0, config).is_err());
}

#[test]
fn test_address_range_validation() {
    let _range = AddressRange::new(0x1000, 0x5000);
    let mut ctrl = PageIdleCtrl::default();

    let status = ctrl.add_page_internal(0x1000, 0x2000, ProcIdlePageType::PteIdle, 4096);
    assert!(matches!(status, memlink::BufferStatus::Success));
}

#[test]
fn test_decode_unknown_type_code_error() {
    let mut ctrl = PageIdleCtrl::default();
    let data = vec![PipEncoding::compose(11, 0)];
    let err = ctrl.decode_pip_data(&data, 0).unwrap_err();
    assert_eq!(err, EtmemError::InvalidPageType(11));

    let data = vec![PipEncoding::compose(15, 7)];
    let err = ctrl.decode_pip_data(&data, 0).unwrap_err();
    assert_eq!(err, EtmemError::InvalidPageType(15));
}

#[test]
fn test_decode_address_advance_per_byte() {
    let mut ctrl = PageIdleCtrl::default();
    // Three runs: 2 accessed 4KB pages, 3 idle 2MB pages, 1 idle 4KB page.
    let data = vec![
        PipEncoding::compose(ProcIdlePageType::PteAccessed.code(), 1),
        PipEncoding::compose(ProcIdlePageType::PmdIdle.code(), 2),
        PipEncoding::compose(ProcIdlePageType::PteIdle.code(), 0),
    ];
    let result = ctrl.decode_pip_data(&data, 0x4000).unwrap();
    assert_eq!(result.len(), 3);
    assert_eq!(result[0].address, 0x4000);
    assert_eq!(result[0].count, 2);
    assert_eq!(result[1].address, 0x4000 + 2 * 4096);
    assert_eq!(result[1].count, 3);
    assert_eq!(result[2].address, 0x4000 + 2 * 4096 + 3 * 0x200000);
    assert_eq!(result[2].count, 1);
}

#[test]
fn test_decode_set_hva_consumes_nine_bytes() {
    let mut ctrl = PageIdleCtrl::default();
    let v: u64 = 0xdead_b000;
    let t = ProcIdlePageType::PmdIdle;
    let mut data = vec![PipEncoding::SET_HVA];
    data.extend_from_slice(&v.to_le_bytes());
    data.push(PipEncoding::compose(t.code(), 0));
    assert_eq!(data.len(), 10);

    let result = ctrl.decode_pip_data(&data, 0x1000).unwrap();
    assert_eq!(result.len(), 1);
    assert_eq!(result[0].address, v);
    assert_eq!(result[0].page_type, t);
    assert_eq!(result[0].count, 1);
}

#[test]
fn test_decode_unknown_command_skipped() {
    let mut ctrl = PageIdleCtrl::default();
    // A command byte other than SET_HVA is skipped as a single byte.
    let data = vec![
        PipEncoding::compose(ProcIdlePageType::PipCmd.code(), 3),
        PipEncoding::compose(ProcIdlePageType::PteIdle.code(), 0),
    ];
    let result = ctrl.decode_pip_data(&data, 0x1000).unwrap();
    assert_eq!(result.len(), 1);
    assert_eq!(result[0].address, 0x1000);
}

#[test]
fn test_end_to_end_decode_three_records() {
    let mut ctrl = PageIdleCtrl::default();
    let data = vec![
        PipEncoding::compose(ProcIdlePageType::PteAccessed.code(), 0),
        PipEncoding::compose(ProcIdlePageType::PteIdle.code(), 0),
        PipEncoding::compose(ProcIdlePageType::PmdIdle.code(), 0),
    ];
    let result = ctrl.decode_pip_data(&data, 0x1000).unwrap();
    assert_eq!(result.len(), 3);
    assert_eq!(result[0].address, 0x1000);
    assert_eq!(result[0].total_size(), 4096);
    assert_eq!(result[1].address, 0x2000);
    assert_eq!(result[1].total_size(), 4096);
    assert_eq!(result[2].address, 0x3000);
    assert_eq!(result[2].total_size(), 2097152);
}

#[test]
fn test_coalescing_accumulator() {
    let mut ctrl = PageIdleCtrl::default();
    // Three contiguous single-page submissions of the same type merge.
    assert!(matches!(
        ctrl.add_page_internal(0x1000, 0, ProcIdlePageType::PteIdle, 4096),
        memlink::BufferStatus::Success
    ));
    assert!(matches!(
        ctrl.add_page_internal(0x2000, 0, ProcIdlePageType::PteIdle, 4096),
        memlink::BufferStatus::Success
    ));
    assert!(matches!(
        ctrl.add_page_internal(0x3000, 0, ProcIdlePageType::PteIdle, 4096),
        memlink::BufferStatus::Success
    ));
    assert_eq!(ctrl.results().len(), 1);
    assert_eq!(ctrl.results()[0].count, 3);
    assert_eq!(ctrl.results()[0].address, 0x1000);

    // A non-contiguous submission starts a new record.
    assert!(matches!(
        ctrl.add_page_internal(0x10000, 0, ProcIdlePageType::PteIdle, 4096),
        memlink::BufferStatus::Success
    ));
    assert_eq!(ctrl.results().len(), 2);

    // A differing-type contiguous submission starts a new record too.
    assert!(matches!(
        ctrl.add_page_internal(0x11000, 0, ProcIdlePageType::PteAccessed, 4096),
        memlink::BufferStatus::Success
    ));
    assert_eq!(ctrl.results().len(), 3);
    let taken = ctrl.take_results();
    assert_eq!(taken.len(), 3);
    assert_eq!(ctrl.results().len(), 0);
}

#[test]
fn test_accumulator_capacity_bound() {
    let mut ctrl = PageIdleCtrl::default();
    // Shrink the read limit so that half of it is 2 records.
    ctrl.init_buffer(14, 0);
    assert!(matches!(
        ctrl.add_page_internal(0x1000, 0, ProcIdlePageType::PteIdle, 4096),
        memlink::BufferStatus::Success
    ));
    assert!(matches!(
        ctrl.add_page_internal(0x10000, 0, ProcIdlePageType::PteIdle, 4096),
        memlink::BufferStatus::Success
    ));
    assert!(matches!(
        ctrl.add_page_internal(0x20000, 0, ProcIdlePageType::PteIdle, 4096),
        memlink::BufferStatus::KbufFull
    ));
    assert_eq!(ctrl.results().len(), 2);
}

#[test]
fn test_scan_session_new_validation() {
    assert!(matches!(
        ScanSession::new(0, ScanConfig::default()),
        Err(EtmemError::InvalidPid)
    ));
    assert!(matches!(
        ScanSession::new(1, ScanConfig::default().with_buffer_size(5)),
        Err(EtmemError::BufferTooSmall)
    ));
    let session = ScanSession::new(1234, ScanConfig::default()).unwrap();
    assert_eq!(session.pid(), 1234);
    assert_eq!(session.control().results().len(), 0);
}

#[test]
fn test_scan_session_read_stages() {
    let mut session = ScanSession::new(1, ScanConfig::default().with_buffer_size(19)).unwrap();
    assert!(matches!(
        session.read_prepare(0x1001),
        Err(EtmemError::InvalidAddress)
    ));
    assert_eq!(session.read_prepare(0x1000).unwrap(), 19);

    // A zero-byte read means no records and no continuation.
    let (pages, next) = session.read_finish(0x1000, &[]).unwrap();
    assert!(pages.is_empty());
    assert!(next.is_none());

    // A short read decodes but reports no continuation.
    let data = vec![PipEncoding::compose(ProcIdlePageType::PteIdle.code(), 0)];
    let (pages, next) = session.read_finish(0x1000, &data).unwrap();
    assert_eq!(pages.len(), 1);
    assert!(next.is_none());

    // A read that fills the buffer reports the end of the last record.
    let data = vec![PipEncoding::compose(ProcIdlePageType::PteIdle.code(), 0); 19];
    let (pages, next) = session.read_finish(0x1000, &data).unwrap();
    assert_eq!(pages.len(), 19);
    assert_eq!(next, Some(0x1000 + 19 * 4096));
}

#[test]
fn test_scan_session_flag_mirror() {
    let mut session = ScanSession::new(1, ScanConfig::default()).unwrap();
    session.apply_add_flags(ScanFlags::SCAN_HUGE_PAGE());
    assert!(session.config().flags.contains(ScanFlags::SCAN_HUGE_PAGE()));
    session.apply_add_flags(ScanFlags::SCAN_DIRTY_PAGE());
    assert!(session.config().flags.contains(ScanFlags::SCAN_HUGE_PAGE()));
    assert!(session.config().flags.contains(ScanFlags::SCAN_DIRTY_PAGE()));
    session.apply_remove_flags(ScanFlags::SCAN_HUGE_PAGE());
    assert!(!session.config().flags.contains(ScanFlags::SCAN_HUGE_PAGE()));
    assert!(session.config().flags.contains(ScanFlags::SCAN_DIRTY_PAGE()));
}

#[test]
fn test_range_helpers() {
    let range = AddressRange::new(0x2000, 0x4000);
    let pages = vec![
        IdlePageInfo::new(0x1000, ProcIdlePageType::PteIdle, 1),
        IdlePageInfo::new(0x2000, ProcIdlePageType::PteIdle, 1),
        IdlePageInfo::new(0x3000, ProcIdlePageType::PteAccessed, 1),
        IdlePageInfo::new(0x4000, ProcIdlePageType::PteIdle, 1),
    ];
    let kept = filter_in_range(&pages, range);
    assert_eq!(kept.len(), 2);
    assert_eq!(kept[0].address, 0x2000);
    assert_eq!(kept[1].address, 0x3000);

    assert_eq!(range_continuation(Some(0x3000), range), Some(0x3000));
    assert_eq!(range_continuation(Some(0x4000), range), None);
    assert_eq!(range_continuation(None, range), None);

    let mut session = ScanSession::new(1, ScanConfig::default()).unwrap();
    assert!(session.range_prepare(AddressRange::new(5, 5)).is_err());
    assert!(session.range_prepare(range).is_ok());
}

#[test]
fn test_init_buffer_reserve() {
    let mut ctrl = PageIdleCtrl::default();
    let status = ctrl.init_buffer(100, 0);
    assert!(matches!(status, memlink::BufferStatus::Success));

    // Too little room for the reserved trailing command reports a full
    // kernel buffer.
    let status = ctrl.init_buffer(10, 0);
    assert!(matches!(status, memlink::BufferStatus::KbufFull));

    let status = ctrl.init_buffer(100, 95);
    assert!(matches!(status, memlink::BufferStatus::KbufFull));
}
