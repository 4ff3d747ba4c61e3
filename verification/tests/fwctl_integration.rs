use memlink::{
    DiscoveredDevice, FwctlDeviceInfo, IoDieInfo, MarPerfQuery, MarPerfResult, PortInfo,
    UbfwctlError, format_device_list, MAX_TIME_MS, MIN_TIME_MS,
};

#[test]
fn test_mar_perf_query_from_raw_data() {
    let raw_data: Vec<u32> = vec![
        0,      // port ID
        1000,   // clock cycle
        10000,  // write flux
        20000,  // read flux
        30000,  // total flux
        100,    // write commands
        200,    // read commands
        300,    // total commands
        50,     // write latency cycles
        60,     // read latency cycles
    ];

    let query = MarPerfQuery::from_raw_data(&raw_data);

    assert_eq!(query.port_id, 0);
    assert_eq!(query.flux_wr, 10000);
    assert_eq!(query.flux_rd, 20000);
    assert_eq!(query.flux_sum, 30000);
    assert_eq!(query.wr_cmd_cnt, 100);
    assert_eq!(query.rd_cmd_cnt, 200);
    assert_eq!(query.sum_cmd_cnt, 300);
    assert_eq!(query.wlatcnt_first, 50);
    assert_eq!(query.rlatcnt_first, 60);
}

#[test]
fn test_mar_perf_result_display() {
    let result = MarPerfResult {
        first_port_id: 0,
        second_port_id: 1,
        wr_traffic: 10000,
        rd_traffic: 20000,
        sum_traffic: 30000,
        wr_pld_avg_len: 100,
        rd_pld_avg_len: 100,
        pld_avg_len: 100,
        wr_delayed: 50,
        rd_delayed: 60,
    };

    let output = result.report();

    assert!(output.contains("ba-mar_perf"));
    assert!(output.contains("port_id: 0 1"));
    assert!(output.contains("wr_traffic: 10000"));
    assert!(output.contains("rd_traffic: 20000"));
    assert!(output.contains("sum_traffic: 30000"));
    assert!(output.contains("wr_pld_avg_len: 100"));
    assert!(output.contains("rd_pld_avg_len: 100"));
    assert!(output.contains("pld_avg_len: 100"));
    assert!(output.contains("wr_delayed: 50"));
    assert!(output.contains("rd_delayed: 60"));
}

#[test]
fn test_error_validate_time_valid() {
    assert!(UbfwctlError::validate_time(MIN_TIME_MS).is_ok());
    assert!(UbfwctlError::validate_time(MAX_TIME_MS).is_ok());
    assert!(UbfwctlError::validate_time(1000).is_ok());
}

#[test]
fn test_error_validate_time_invalid() {
    let result = UbfwctlError::validate_time(0);
    assert!(result.is_err());
    match result.unwrap_err() {
        UbfwctlError::InvalidTime(t) => assert_eq!(t, 0),
        _ => panic!("Expected InvalidTime error"),
    }

    let result = UbfwctlError::validate_time(MAX_TIME_MS + 1);
    assert!(result.is_err());
    match result.unwrap_err() {
        UbfwctlError::InvalidTime(t) => assert_eq!(t, MAX_TIME_MS + 1),
        _ => panic!("Expected InvalidTime error"),
    }
}

#[test]
fn test_error_display_variants() {
    let err = UbfwctlError::InvalidPort(99);
    let msg = err.message();
    assert!(msg.contains("Invalid port"));

    let err = UbfwctlError::IoctlFailed("test error".to_string());
    let msg = err.message();
    assert!(msg.contains("Ioctl failed"));

    let err = UbfwctlError::DeviceNotFound { chip_id: 0, die_id: 0 };
    let msg = err.message();
    assert!(msg.contains("not found"));

    let err = UbfwctlError::InvalidResponse("bad data".to_string());
    let msg = err.message();
    assert!(msg.contains("Invalid response"));

    let err = UbfwctlError::ShmLockFailed("lock failed".to_string());
    let msg = err.message();
    assert!(msg.contains("lock failed"));

    let err = UbfwctlError::CommandNotSupported("foo".to_string());
    let msg = err.message();
    assert!(msg.contains("not supported"));
}

#[test]
fn test_io_die_info_from_raw_data() {
    let mut raw_data: Vec<u8> = Vec::new();

    raw_data.extend_from_slice(&1u32.to_ne_bytes()); // port count = 1
    raw_data.extend_from_slice(&0u32.to_ne_bytes()); // chip ID
    raw_data.extend_from_slice(&0u32.to_ne_bytes()); // die ID
    raw_data.extend_from_slice(&0u32.to_ne_bytes()); // reserved
    raw_data.extend_from_slice(&0u32.to_ne_bytes()); // reserved
    raw_data.extend_from_slice(&0u32.to_ne_bytes()); // reserved

    raw_data.extend_from_slice(&0x0u32.to_ne_bytes()); // port ID
    raw_data.extend_from_slice(&1u32.to_ne_bytes()); // link status up
    raw_data.extend_from_slice(&0u32.to_ne_bytes()); // link state
    raw_data.extend_from_slice(&1u32.to_ne_bytes()); // port type ub
    raw_data.extend_from_slice(&0u32.to_ne_bytes()); // reserved
    raw_data.extend_from_slice(&0u32.to_ne_bytes()); // reserved

    let io_die_info = IoDieInfo::from_raw_data(&raw_data).unwrap();

    assert_eq!(io_die_info.port_count, 1);
    assert_eq!(io_die_info.chip_id, 0);
    assert_eq!(io_die_info.die_id, 0);
    assert_eq!(io_die_info.ports.len(), 1);
    assert_eq!(io_die_info.ports[0].port_id, 0x0);
    assert_eq!(io_die_info.ports[0].link_status, 1);
    assert_eq!(io_die_info.ports[0].port_type, 1);
}

#[test]
fn test_io_die_info_multiple_ports() {
    let mut raw_data: Vec<u8> = Vec::new();

    raw_data.extend_from_slice(&2u32.to_ne_bytes()); // port count = 2
    raw_data.extend_from_slice(&0u32.to_ne_bytes());
    raw_data.extend_from_slice(&0u32.to_ne_bytes());
    raw_data.extend_from_slice(&0u32.to_ne_bytes());
    raw_data.extend_from_slice(&0u32.to_ne_bytes());
    raw_data.extend_from_slice(&0u32.to_ne_bytes());

    raw_data.extend_from_slice(&0x0u32.to_ne_bytes());
    raw_data.extend_from_slice(&1u32.to_ne_bytes());
    raw_data.extend_from_slice(&0u32.to_ne_bytes());
    raw_data.extend_from_slice(&1u32.to_ne_bytes());
    raw_data.extend_from_slice(&0u32.to_ne_bytes());
    raw_data.extend_from_slice(&0u32.to_ne_bytes());

    raw_data.extend_from_slice(&0x1u32.to_ne_bytes());
    raw_data.extend_from_slice(&0u32.to_ne_bytes());
    raw_data.extend_from_slice(&0u32.to_ne_bytes());
    raw_data.extend_from_slice(&0u32.to_ne_bytes());
    raw_data.extend_from_slice(&0u32.to_ne_bytes());
    raw_data.extend_from_slice(&0u32.to_ne_bytes());

    let io_die_info = IoDieInfo::from_raw_data(&raw_data).unwrap();

    assert_eq!(io_die_info.port_count, 2);
    assert_eq!(io_die_info.ports.len(), 2);

    assert_eq!(io_die_info.ports[0].port_id, 0x0);
    assert_eq!(io_die_info.ports[0].link_status, 1);
    assert_eq!(io_die_info.ports[0].port_type, 1);
    assert_eq!(io_die_info.ports[0].link_status_str(), "up");
    assert_eq!(io_die_info.ports[0].port_type_str(), "ub");

    assert_eq!(io_die_info.ports[1].port_id, 0x1);
    assert_eq!(io_die_info.ports[1].link_status, 0);
    assert_eq!(io_die_info.ports[1].port_type, 0);
    assert_eq!(io_die_info.ports[1].link_status_str(), "down");
    assert_eq!(io_die_info.ports[1].port_type_str(), "eth");
}

#[test]
fn test_io_die_info_from_raw_data_insufficient() {
    let raw_data: Vec<u8> = vec![0; 10];
    let result = IoDieInfo::from_raw_data(&raw_data);
    assert!(result.is_err());
    assert!(result.unwrap_err().contains("Insufficient data"));
}

#[test]
fn test_io_die_info_invalid_port_count() {
    let mut raw_data: Vec<u8> = Vec::new();

    raw_data.extend_from_slice(&0u32.to_ne_bytes()); // port count = 0
    raw_data.extend_from_slice(&0u32.to_ne_bytes());
    raw_data.extend_from_slice(&0u32.to_ne_bytes());
    raw_data.extend_from_slice(&0u32.to_ne_bytes());
    raw_data.extend_from_slice(&0u32.to_ne_bytes());
    raw_data.extend_from_slice(&0u32.to_ne_bytes());

    let result = IoDieInfo::from_raw_data(&raw_data);
    assert!(result.is_err());
    assert!(result.unwrap_err().contains("Invalid port count"));
}

#[test]
fn test_format_device_list_empty() {
    let devices: Vec<DiscoveredDevice> = vec![];
    let output = format_device_list(&devices);
    assert!(output.contains("No devices found"));
}

#[test]
fn test_format_device_list_single() {
    let device_info = FwctlDeviceInfo::new(0, 0, "/dev/fwctl/fwctl00".to_string());
    let io_die_info = IoDieInfo {
        port_count: 1,
        chip_id: 0,
        die_id: 0,
        reserved: [0; 3],
        ports: vec![PortInfo {
            port_id: 0,
            link_status: 1,
            link_state_info: 0,
            port_type: 1,
            reserved: [0; 2],
        }],
    };
    let devices = vec![DiscoveredDevice::new(
        device_info,
        io_die_info,
        "test_entity".to_string(),
    )];

    let output = format_device_list(&devices);
    assert!(output.contains("ubctl_id: 0"));
    assert!(output.contains("chip_id: 0"));
    assert!(output.contains("die_id: 0"));
    assert!(output.contains("port_count: 1"));
    assert!(output.contains("port_id: 0x0"));
    assert!(output.contains("port_type: ub"));
    assert!(output.contains("link_status: up"));
    assert!(output.contains("total ubctl count: 1"));
}

#[test]
fn test_format_device_list_multiple() {
    let devices = vec![
        DiscoveredDevice::new(
            FwctlDeviceInfo::new(0, 0, "/dev/fwctl/fwctl00".to_string()),
            IoDieInfo {
                port_count: 2,
                chip_id: 0,
                die_id: 0,
                reserved: [0; 3],
                ports: vec![
                    PortInfo {
                        port_id: 0,
                        link_status: 1,
                        link_state_info: 0,
                        port_type: 1,
                        reserved: [0; 2],
                    },
                    PortInfo {
                        port_id: 1,
                        link_status: 0,
                        link_state_info: 0,
                        port_type: 0,
                        reserved: [0; 2],
                    },
                ],
            },
            "entity0".to_string(),
        ),
        DiscoveredDevice::new(
            FwctlDeviceInfo::new(1, 0, "/dev/fwctl/fwctl00010000".to_string()),
            IoDieInfo {
                port_count: 1,
                chip_id: 1,
                die_id: 0,
                reserved: [0; 3],
                ports: vec![PortInfo {
                    port_id: 0,
                    link_status: 1,
                    link_state_info: 0,
                    port_type: 1,
                    reserved: [0; 2],
                }],
            },
            "entity1".to_string(),
        ),
    ];

    let output = format_device_list(&devices);

    assert!(output.contains("ubctl_id: 0"));
    assert!(output.contains("chip_id: 0"));
    assert!(output.contains("die_id: 0"));
    assert!(output.contains("port_count: 2"));

    assert!(output.contains("ubctl_id: 1"));
    assert!(output.contains("chip_id: 1"));
    assert!(output.contains("port_count: 1"));

    assert!(output.contains("total ubctl count: 2"));
}

#[test]
fn test_port_pair_and_payload_helpers() {
    assert_eq!(memlink::port_pair_of(0), (0, 1));
    assert_eq!(memlink::port_pair_of(1), (0, 1));
    assert_eq!(memlink::port_pair_of(6), (6, 7));
    assert_eq!(memlink::port_pair_of(7), (6, 7));

    assert_eq!(memlink::payload_average(10000, 100), 100);
    assert_eq!(memlink::payload_average(10000, 0), 0);
    assert_eq!(memlink::payload_average(0, 5), 0);
}
