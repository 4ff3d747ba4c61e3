use std::cell::RefCell;

use memlink::{
    EtmemError, EtmemResult, SwapConfig, SwapSession, WatermarkConfig, flush_outcome,
    parse_swap_enabled, swap_enable_value, SWAP_SCAN_NUM_MAX,
};

#[test]
fn test_swap_config_default() {
    let config = SwapConfig::default();
    assert!(!config.proactive_reclaim);
    assert_eq!(config.max_pages, SWAP_SCAN_NUM_MAX);
    assert_eq!(config.watermark.low_percent, 30);
    assert_eq!(config.watermark.high_percent, 70);
}

#[test]
fn test_watermark_validation() {
    let watermark = WatermarkConfig::new(30, 70);
    assert!(watermark.validate().is_ok());

    let invalid = WatermarkConfig::new(70, 30);
    assert!(invalid.validate().is_err());
}

#[test]
fn test_address_formatting() {
    let mut buf = memlink::u64_to_hex(0x7fff0000u64);
    buf.push('\n');
    assert_eq!(buf, "7fff0000\n");
}

fn accepting_write(log: &RefCell<Vec<String>>) -> impl Fn(String) -> EtmemResult<i64> + '_ {
    move |buf: String| {
        let n = buf.len() as i64;
        log.borrow_mut().push(buf);
        Ok(n)
    }
}

#[test]
fn test_swap_session_new_validation() {
    assert!(matches!(
        SwapSession::new(0, SwapConfig::default()),
        Err(EtmemError::InvalidPid)
    ));
    assert!(matches!(
        SwapSession::new(1, SwapConfig::default().with_watermark(WatermarkConfig::new(9, 5))),
        Err(EtmemError::InvalidWatermarkOrder)
    ));
    let session = SwapSession::new(7, SwapConfig::default()).unwrap();
    assert_eq!(session.pid(), 7);
    assert_eq!(session.pending_count(), 0);
}

#[test]
fn test_swap_auto_flush_at_max_pages() {
    let log: RefCell<Vec<String>> = RefCell::new(Vec::new());
    let write = accepting_write(&log);
    let mut session = SwapSession::new(1, SwapConfig::default().with_max_pages(4)).unwrap();

    // Three adds buffer without flushing.
    for k in 0..3u64 {
        session.add_address(k * 4096, &write).unwrap();
    }
    assert_eq!(session.pending_count(), 3);
    assert!(session.has_pending());
    assert!(log.borrow().is_empty());

    // The fourth add reaches max_pages and clears the batch by itself.
    session.add_address(3 * 4096, &write).unwrap();
    assert_eq!(session.pending_count(), 0);
    assert!(!session.has_pending());
    assert_eq!(log.borrow().len(), 1);
    assert_eq!(log.borrow()[0], "0\n1000\n2000\n3000\n");
}

#[test]
fn test_swap_add_address_alignment() {
    let log: RefCell<Vec<String>> = RefCell::new(Vec::new());
    let write = accepting_write(&log);
    let mut session = SwapSession::new(1, SwapConfig::default()).unwrap();
    assert!(matches!(
        session.add_address(0x1001, &write),
        Err(EtmemError::InvalidAddress)
    ));
    assert_eq!(session.pending_count(), 0);
}

#[test]
fn test_swap_flush_empty_is_noop() {
    let log: RefCell<Vec<String>> = RefCell::new(Vec::new());
    let write = accepting_write(&log);
    let mut session = SwapSession::new(1, SwapConfig::default()).unwrap();
    assert_eq!(session.flush(&write).unwrap(), 0);
    assert!(log.borrow().is_empty());
}

#[test]
fn test_swap_flush_formats_hex_lines() {
    let log: RefCell<Vec<String>> = RefCell::new(Vec::new());
    let write = accepting_write(&log);
    let mut session = SwapSession::new(1, SwapConfig::default()).unwrap();
    session.add_address(0x7fff0000, &write).unwrap();
    session.add_address(0xabc000, &write).unwrap();
    assert_eq!(session.flush_buffer(), "7fff0000\nabc000\n");
    assert_eq!(session.flush(&write).unwrap(), 2);
    assert_eq!(session.pending_count(), 0);
    assert_eq!(log.borrow()[0], "7fff0000\nabc000\n");
}

#[test]
fn test_swap_flush_failure_keeps_batch() {
    let failing = |_buf: String| -> EtmemResult<i64> {
        Err(EtmemError::IoError("sink closed".to_string()))
    };
    let mut session = SwapSession::new(1, SwapConfig::default()).unwrap();
    session.add_address(0x1000, &failing).unwrap();
    assert!(session.flush(&failing).is_err());
    assert_eq!(session.pending_count(), 1);

    let rejecting = |_buf: String| -> EtmemResult<i64> { Ok(-1) };
    assert!(matches!(
        session.flush(&rejecting),
        Err(EtmemError::SwapFailed(_))
    ));
    assert_eq!(session.pending_count(), 1);

    session.clear_pending();
    assert_eq!(session.pending_count(), 0);
}

#[test]
fn test_swap_address_combines_add_and_flush() {
    let log: RefCell<Vec<String>> = RefCell::new(Vec::new());
    let write = accepting_write(&log);
    let mut session = SwapSession::new(1, SwapConfig::default()).unwrap();
    session.swap_address(0x4000, &write).unwrap();
    assert_eq!(session.pending_count(), 0);
    assert_eq!(log.borrow()[0], "4000\n");
}

#[test]
fn test_swap_add_addresses_short_circuits() {
    let log: RefCell<Vec<String>> = RefCell::new(Vec::new());
    let write = accepting_write(&log);
    let mut session = SwapSession::new(1, SwapConfig::default()).unwrap();
    let addrs = [0x1000u64, 0x2000, 0x3001, 0x4000];
    assert!(matches!(
        session.add_addresses(&addrs, &write),
        Err(EtmemError::InvalidAddress)
    ));
    assert_eq!(session.pending_count(), 2);

    let good = [0x5000u64, 0x6000];
    session.add_addresses(&good, &write).unwrap();
    assert_eq!(session.pending_count(), 4);
}

#[test]
fn test_flush_outcome_cases() {
    assert_eq!(flush_outcome(Ok(10), 3), Ok(3));
    assert_eq!(flush_outcome(Ok(0), 5), Ok(5));
    assert!(matches!(
        flush_outcome(Ok(-1), 5),
        Err(EtmemError::SwapFailed(_))
    ));
    assert_eq!(
        flush_outcome(Err(EtmemError::InvalidPid), 5),
        Err(EtmemError::InvalidPid)
    );
}

#[test]
fn test_watermark_args_and_mirrors() {
    let (low, high) = SwapSession::watermark_args(WatermarkConfig::new(20, 80)).unwrap();
    assert_eq!(low.level, 0);
    assert_eq!(low.percent, 20);
    assert_eq!(high.level, 1);
    assert_eq!(high.percent, 80);
    assert!(SwapSession::watermark_args(WatermarkConfig::new(80, 20)).is_err());

    let mut session = SwapSession::new(1, SwapConfig::default()).unwrap();
    session.apply_watermark(WatermarkConfig::new(20, 80));
    assert_eq!(session.config().watermark, WatermarkConfig::new(20, 80));
    session.apply_reclaim(true);
    assert!(session.config().proactive_reclaim);
    session.apply_reclaim(false);
    assert!(!session.config().proactive_reclaim);
}

#[test]
fn test_parse_swap_enabled_values() {
    assert!(parse_swap_enabled(b"true"));
    assert!(parse_swap_enabled(b"true\n"));
    assert!(parse_swap_enabled(b"  1 "));
    assert!(parse_swap_enabled(b"enabled\n"));
    assert!(!parse_swap_enabled(b"false"));
    assert!(!parse_swap_enabled(b"0"));
    assert!(!parse_swap_enabled(b""));
    assert!(!parse_swap_enabled(b"TRUE"));
}

#[test]
fn test_swap_enable_value_text() {
    assert_eq!(swap_enable_value(true), "true");
    assert_eq!(swap_enable_value(false), "false");
}
