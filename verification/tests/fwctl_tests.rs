use memlink::{
    DiscoveredDevice, FwctlDeviceInfo, IoDieInfo, PortInfo, UbfwctlError, format_device,
    format_device_list, parse_device_id, to_device_info,
};

fn create_test_device() -> DiscoveredDevice {
    let device_info = FwctlDeviceInfo::new(0, 0, "/dev/fwctl/fwctl00".to_string());

    let ports = vec![
        PortInfo {
            port_id: 0,
            link_status: 1,
            link_state_info: 0,
            port_type: 0,
            reserved: [0; 2],
        },
        PortInfo {
            port_id: 1,
            link_status: 0,
            link_state_info: 0,
            port_type: 1,
            reserved: [0; 2],
        },
    ];

    let io_die_info = IoDieInfo {
        port_count: 2,
        chip_id: 0,
        die_id: 0,
        reserved: [0; 3],
        ports,
    };

    DiscoveredDevice::new(device_info, io_die_info, "test_entity".to_string())
}

#[test]
fn test_format_device() {
    let device = create_test_device();
    let output = format_device(&device, 0);

    assert!(output.contains("ubctl_id: 0"));
    assert!(output.contains("chip_id: 0"));
    assert!(output.contains("die_id: 0"));
    assert!(output.contains("port_count: 2"));
    assert!(output.contains("port_id: 0x0"));
    assert!(output.contains("port_type: eth"));
    assert!(output.contains("link_status: up"));
    assert!(output.contains("port_id: 0x1"));
    assert!(output.contains("port_type: ub"));
    assert!(output.contains("link_status: down"));
}

#[test]
fn test_format_device_list() {
    let device = create_test_device();
    let devices = vec![device];
    let output = format_device_list(&devices);

    assert!(output.contains("ubctl_id: 0"));
    assert!(output.contains("total ubctl count: 1"));
}

#[test]
fn test_format_empty_device_list() {
    let devices: Vec<DiscoveredDevice> = vec![];
    let output = format_device_list(&devices);

    assert_eq!(output, "No devices found.\n");
}

#[test]
fn test_to_device_info() {
    let device = create_test_device();
    let devices = vec![device];
    let info_list = to_device_info(&devices);

    assert_eq!(info_list.len(), 1);
    assert_eq!(info_list[0].ubctl_id, 0);
    assert_eq!(info_list[0].chip_id, 0);
    assert_eq!(info_list[0].die_id, 0);
    assert_eq!(info_list[0].port_count, 2);
    assert_eq!(info_list[0].ports.len(), 2);
}

#[test]
fn test_list_command_new() {
    let _cmd = memlink::ListCommand::new();
}

#[test]
fn test_mar_perf_command_new() {
    let _cmd = memlink::MarPerfCommand::new();
}

#[test]
fn test_parse_device_id() {
    let (chip, die) = parse_device_id("fwctl00").unwrap();
    assert_eq!(chip, 0);
    assert_eq!(die, 0);

    let (chip, die) = parse_device_id("fwctl0001").unwrap();
    assert_eq!(chip, 0);
    assert_eq!(die, 1);

    let (chip, die) = parse_device_id("fwctl00010001").unwrap();
    assert_eq!(chip, 1);
    assert_eq!(die, 1);

    let (chip, die) = parse_device_id("fwctlFFFF0000").unwrap();
    assert_eq!(chip, 65535);
    assert_eq!(die, 0);
}

#[test]
fn test_parse_device_id_invalid() {
    assert!(parse_device_id("invalid").is_err());
    assert!(parse_device_id("fwctl").is_err());
    assert!(parse_device_id("fwctlxyz").is_err());
}

#[test]
fn test_parse_device_id_overflow() {
    assert!(parse_device_id("fwctl100000000").is_err());
    let (chip, die) = parse_device_id("fwctlffffffff").unwrap();
    assert_eq!(chip, 0xffff);
    assert_eq!(die, 0xffff);
}

#[test]
fn test_discovered_device_accessors() {
    let device_info = FwctlDeviceInfo::new(1, 2, "/dev/fwctl/test".to_string());
    let io_die_info = IoDieInfo {
        port_count: 4,
        chip_id: 1,
        die_id: 2,
        reserved: [0; 3],
        ports: Vec::new(),
    };

    let discovered = DiscoveredDevice::new(device_info, io_die_info, "test_entity".to_string());

    assert_eq!(discovered.chip_id(), 1);
    assert_eq!(discovered.die_id(), 2);
    assert_eq!(discovered.port_count(), 4);
    assert_eq!(discovered.entity_name(), "test_entity");
    assert_eq!(discovered.path(), "/dev/fwctl/test");
}

#[test]
fn test_name() {
    assert_eq!(memlink::NAME, "ubfwctl");
}

#[test]
fn test_error_display() {
    let err = UbfwctlError::InvalidTime(0);
    let msg = err.message();
    assert!(msg.contains("Invalid time"));
}

#[test]
fn test_parse_uevent_entity_cases() {
    let text = b"DRIVER=ubase\nUB_ENTITY_NAME=entity7\nOTHER=1\n";
    let (s, e) = memlink::parse_uevent_entity(text).unwrap();
    assert_eq!(&text[s..e], b"entity7");

    // Values are trimmed of surrounding whitespace.
    let text = b"DRIVER = ubase\nUB_ENTITY_NAME =  entity9 \n";
    let (s, e) = memlink::parse_uevent_entity(text).unwrap();
    assert_eq!(&text[s..e], b"entity9");

    // Without the driver line nothing qualifies.
    assert!(memlink::parse_uevent_entity(b"UB_ENTITY_NAME=entity7\n").is_none());
    // Without an entity name nothing qualifies.
    assert!(memlink::parse_uevent_entity(b"DRIVER=ubase\n").is_none());
    // An empty entity name does not qualify.
    assert!(memlink::parse_uevent_entity(b"DRIVER=ubase\nUB_ENTITY_NAME=\n").is_none());
    // A different driver does not qualify.
    assert!(memlink::parse_uevent_entity(b"DRIVER=other\nUB_ENTITY_NAME=x\n").is_none());
}
