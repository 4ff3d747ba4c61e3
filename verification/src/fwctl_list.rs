//! Reports of the firmware-control tooling: the formatted device list and
//! the bandwidth-measurement report, built character by character from the
//! discovered data.

use vstd::prelude::*;

use crate::fwctl::{MarPerfResult, PortInfo};
use crate::fwctl_device::DiscoveredDevice;
use crate::strfmt::{spec_dec_digits, spec_hex_digits, u64_to_dec, u64_to_hex};

verus! {

/// The text of a port type: "eth" for 0, "ub" otherwise.
pub open spec fn spec_port_type_text(port_type: u32) -> Seq<char> {
    if port_type == 0 {
        "eth"@
    } else {
        "ub"@
    }
}

/// The text of a link status: "down" for 0, "up" otherwise.
pub open spec fn spec_link_status_text(link_status: u32) -> Seq<char> {
    if link_status == 0 {
        "down"@
    } else {
        "up"@
    }
}

/// The three report lines of one port.
pub open spec fn spec_format_port(p: PortInfo) -> Seq<char> {
    "\t\tport_id: 0x"@ + spec_hex_digits(p.port_id as int) + "\n"@ + "\t\tport_type: "@
        + spec_port_type_text(p.port_type) + "\n"@ + "\t\tlink_status: "@
        + spec_link_status_text(p.link_status) + "\n"@
}

/// The report lines of a port table, in order.
pub open spec fn spec_format_ports(ports: Seq<PortInfo>) -> Seq<char>
    decreases ports.len(),
{
    if ports.len() == 0 {
        Seq::empty()
    } else {
        spec_format_ports(ports.drop_last()) + spec_format_port(ports.last())
    }
}

/// The report of one device: its sequential number, identity, port count
/// and port table.
pub open spec fn spec_format_device(d: DiscoveredDevice, ubctl_id: u32) -> Seq<char> {
    "ubctl_id: "@ + spec_dec_digits(ubctl_id as int) + "\n"@ + "\tchip_id: "@
        + spec_dec_digits(d.info.chip_id as int) + "\n"@ + "\tdie_id: "@
        + spec_dec_digits(d.info.die_id as int) + "\n"@ + "\tport_count: "@
        + spec_dec_digits(d.io_die_info.port_count as int) + "\n"@
        + spec_format_ports(d.io_die_info.ports@)
}

/// The sequential number shown for a device: its index, or zero where the
/// index does not fit 32 bits.
pub open spec fn spec_ubctl_id(idx: int) -> u32 {
    if idx <= u32::MAX {
        idx as u32
    } else {
        0
    }
}

/// The reports of all devices, each followed by an empty line.
pub open spec fn spec_device_entries(devices: Seq<DiscoveredDevice>) -> Seq<char>
    decreases devices.len(),
{
    if devices.len() == 0 {
        Seq::empty()
    } else {
        spec_device_entries(devices.drop_last())
            + spec_format_device(devices.last(), spec_ubctl_id(devices.len() - 1)) + "\n"@
    }
}

/// The full device list: the devices' reports and a total, or a fixed
/// notice when there is none.
pub open spec fn spec_format_device_list(devices: Seq<DiscoveredDevice>) -> Seq<char> {
    if devices.len() == 0 {
        "No devices found.\n"@
    } else {
        spec_device_entries(devices) + "total ubctl count: "@
            + spec_dec_digits(devices.len() as int) + "\n"@
    }
}

/// Format one device's report.
pub fn format_device(device: &DiscoveredDevice, ubctl_id: u32) -> (s: String)
    ensures
        s@ == spec_format_device(*device, ubctl_id),
{
    let mut s = String::new();
    s.append("ubctl_id: ");
    let d0 = u64_to_dec(ubctl_id as u64);
    s.append(d0.as_str());
    s.append("\n");
    s.append("\tchip_id: ");
    let d1 = u64_to_dec(device.info.chip_id as u64);
    s.append(d1.as_str());
    s.append("\n");
    s.append("\tdie_id: ");
    let d2 = u64_to_dec(device.info.die_id as u64);
    s.append(d2.as_str());
    s.append("\n");
    s.append("\tport_count: ");
    let d3 = u64_to_dec(device.io_die_info.port_count as u64);
    s.append(d3.as_str());
    s.append("\n");

    let ghost header = s@;
    let ports = &device.io_die_info.ports;
    let mut i: usize = 0;
    proof {
        assert(ports@.subrange(0, 0) =~= Seq::<PortInfo>::empty());
        assert(s@ =~= header + spec_format_ports(ports@.subrange(0, 0)));
    }
    while i < ports.len()
        invariant
            i <= ports@.len(),
            ports@ == device.io_die_info.ports@,
            s@ == header + spec_format_ports(ports@.subrange(0, i as int)),
        decreases ports@.len() - i,
    {
        let port = &ports[i];
        s.append("\t\tport_id: 0x");
        let h = u64_to_hex(port.port_id as u64);
        s.append(h.as_str());
        s.append("\n");
        s.append("\t\tport_type: ");
        s.append(port.port_type_str());
        s.append("\n");
        s.append("\t\tlink_status: ");
        s.append(port.link_status_str());
        s.append("\n");
        proof {
            assert(ports@.subrange(0, i + 1).drop_last() =~= ports@.subrange(0, i as int));
            assert(ports@.subrange(0, i + 1).last() == ports@[i as int]);
            assert(s@ =~= header + spec_format_ports(ports@.subrange(0, i + 1)));
        }
        i = i + 1;
    }
    proof {
        assert(ports@.subrange(0, ports@.len() as int) =~= ports@);
        assert(s@ =~= spec_format_device(*device, ubctl_id));
    }
    s
}

/// Format the full device list.
pub fn format_device_list(devices: &[DiscoveredDevice]) -> (s: String)
    ensures
        s@ == spec_format_device_list(devices@),
{
    if devices.len() == 0 {
        let mut s = String::new();
        s.append("No devices found.\n");
        proof {
            assert(s@ =~= "No devices found.\n"@);
        }
        return s;
    }

    let mut s = String::new();
    let mut i: usize = 0;
    proof {
        assert(devices@.subrange(0, 0) =~= Seq::<DiscoveredDevice>::empty());
        assert(s@ =~= spec_device_entries(devices@.subrange(0, 0)));
    }
    while i < devices.len()
        invariant
            i <= devices@.len(),
            s@ == spec_device_entries(devices@.subrange(0, i as int)),
        decreases devices@.len() - i,
    {
        let idx: u32 = if i <= u32::MAX as usize {
            i as u32
        } else {
            0
        };
        let entry = format_device(&devices[i], idx);
        s.append(entry.as_str());
        s.append("\n");
        proof {
            assert(devices@.subrange(0, i + 1).drop_last() =~= devices@.subrange(0, i as int));
            assert(devices@.subrange(0, i + 1).last() == devices@[i as int]);
            assert(idx == spec_ubctl_id(i as int));
            assert(s@ =~= spec_device_entries(devices@.subrange(0, i + 1)));
        }
        i = i + 1;
    }
    proof {
        assert(devices@.subrange(0, devices@.len() as int) =~= devices@);
    }
    s.append("total ubctl count: ");
    let d = u64_to_dec(devices.len() as u64);
    s.append(d.as_str());
    s.append("\n");
    proof {
        assert(s@ =~= spec_format_device_list(devices@));
    }
    s
}

/// Display form of one device, with its texts spelled out.
#[derive(Debug, Clone)]
pub struct DeviceInfo {
    /// Sequential number in the list
    pub ubctl_id: u32,
    /// Chip ID
    pub chip_id: u32,
    /// Die ID
    pub die_id: u32,
    /// Port count
    pub port_count: u32,
    /// Port display records
    pub ports: Vec<PortDisplayInfo>,
}

/// Display form of one port.
#[derive(Debug, Clone)]
pub struct PortDisplayInfo {
    /// Port ID
    pub port_id: u32,
    /// Port type text ("eth" or "ub")
    pub port_type: String,
    /// Link status text ("up" or "down")
    pub link_status: String,
}

/// Whether a display record renders one discovered device at an index.
pub open spec fn spec_device_info_matches(
    info: DeviceInfo,
    d: DiscoveredDevice,
    idx: int,
) -> bool {
    &&& info.ubctl_id == spec_ubctl_id(idx)
    &&& info.chip_id == d.info.chip_id
    &&& info.die_id == d.info.die_id
    &&& info.port_count == d.io_die_info.port_count
    &&& info.ports@.len() == d.io_die_info.ports@.len()
    &&& forall|j: int| 0 <= j < info.ports@.len() ==> {
        &&& (#[trigger] info.ports@[j]).port_id == d.io_die_info.ports@[j].port_id
        &&& info.ports@[j].port_type@ == spec_port_type_text(
            d.io_die_info.ports@[j].port_type,
        )
        &&& info.ports@[j].link_status@ == spec_link_status_text(
            d.io_die_info.ports@[j].link_status,
        )
    }
}

impl DeviceInfo {
    /// The display form of one discovered device, with a zero sequential
    /// number for the caller to assign.
    pub fn from_device(device: &DiscoveredDevice) -> (r: DeviceInfo)
        ensures
            spec_device_info_matches(r, *device, 0),
    {
        let src = &device.io_die_info.ports;
        let mut ports: Vec<PortDisplayInfo> = Vec::new();
        let mut j: usize = 0;
        while j < src.len()
            invariant
                j <= src@.len(),
                src@ == device.io_die_info.ports@,
                ports@.len() == j,
                forall|k: int| 0 <= k < j ==> {
                    &&& (#[trigger] ports@[k]).port_id == src@[k].port_id
                    &&& ports@[k].port_type@ == spec_port_type_text(src@[k].port_type)
                    &&& ports@[k].link_status@ == spec_link_status_text(src@[k].link_status)
                },
            decreases src@.len() - j,
        {
            let p = &src[j];
            let mut ptype = String::new();
            ptype.append(p.port_type_str());
            let mut lstat = String::new();
            lstat.append(p.link_status_str());
            proof {
                assert(ptype@ =~= spec_port_type_text(src@[j as int].port_type));
                assert(lstat@ =~= spec_link_status_text(src@[j as int].link_status));
            }
            ports.push(PortDisplayInfo { port_id: p.port_id, port_type: ptype, link_status: lstat });
            j = j + 1;
        }
        DeviceInfo {
            ubctl_id: 0,
            chip_id: device.info.chip_id,
            die_id: device.info.die_id,
            port_count: device.io_die_info.port_count,
            ports,
        }
    }
}

/// The display forms of all discovered devices, numbered in order.
pub fn to_device_info(devices: &[DiscoveredDevice]) -> (r: Vec<DeviceInfo>)
    ensures
        r@.len() == devices@.len(),
        forall|k: int| 0 <= k < devices@.len() ==> spec_device_info_matches(
            #[trigger] r@[k],
            devices@[k],
            k,
        ),
{
    let mut out: Vec<DeviceInfo> = Vec::new();
    let mut i: usize = 0;
    while i < devices.len()
        invariant
            i <= devices@.len(),
            out@.len() == i,
            forall|k: int| 0 <= k < i ==> spec_device_info_matches(
                #[trigger] out@[k],
                devices@[k],
                k,
            ),
        decreases devices@.len() - i,
    {
        let mut info = DeviceInfo::from_device(&devices[i]);
        info.ubctl_id = if i <= u32::MAX as usize {
            i as u32
        } else {
            0
        };
        out.push(info);
        i = i + 1;
    }
    out
}

/// Interface of firmware-control commands, for tools built on this
/// library to implement.
pub trait FwctlCommand {
    /// Input of the command
    type Input;

    /// Output of the command
    type Output;

    /// Error of the command
    type Error;

    /// Execute the command on one input.
    fn execute(&self, input: Self::Input) -> Result<Self::Output, Self::Error>;
}

/// The device-list command; discovery and formatting are wired together by
/// the embedding binary.
#[derive(Debug, Clone, Copy)]
pub struct ListCommand;

impl ListCommand {
    /// Create a list command.
    pub fn new() -> ListCommand {
        ListCommand
    }
}

impl Default for ListCommand {
    fn default() -> ListCommand {
        ListCommand
    }
}

/// The bandwidth-measurement command; the device calls are issued by the
/// embedding binary.
#[derive(Debug, Clone, Copy)]
pub struct MarPerfCommand;

impl MarPerfCommand {
    /// Create a measurement command.
    pub fn new() -> MarPerfCommand {
        MarPerfCommand
    }
}

impl Default for MarPerfCommand {
    fn default() -> MarPerfCommand {
        MarPerfCommand
    }
}

/// The report of one measurement result, line by line.
pub open spec fn spec_mar_perf_report(r: MarPerfResult) -> Seq<char> {
    "-------------------------- ba-mar_perf --------------------------\n"@ + "port_id: "@
        + spec_dec_digits(r.first_port_id as int) + " "@
        + spec_dec_digits(r.second_port_id as int) + "\n"@ + "wr_traffic: "@
        + spec_dec_digits(r.wr_traffic as int) + "\n"@ + "rd_traffic: "@
        + spec_dec_digits(r.rd_traffic as int) + "\n"@ + "sum_traffic: "@
        + spec_dec_digits(r.sum_traffic as int) + "\n"@ + "wr_pld_avg_len: "@
        + spec_dec_digits(r.wr_pld_avg_len as int) + "\n"@ + "rd_pld_avg_len: "@
        + spec_dec_digits(r.rd_pld_avg_len as int) + "\n"@ + "pld_avg_len: "@
        + spec_dec_digits(r.pld_avg_len as int) + "\n"@ + "wr_delayed: "@
        + spec_dec_digits(r.wr_delayed as int) + "\n"@ + "rd_delayed: "@
        + spec_dec_digits(r.rd_delayed as int)
}

impl MarPerfResult {
    /// The measurement report: a banner, the port pair, and one line per
    /// figure, with no newline after the last.
    pub fn report(&self) -> (s: String)
        ensures
            s@ == spec_mar_perf_report(*self),
    {
        let mut s = String::new();
        s.append("-------------------------- ba-mar_perf --------------------------\n");
        s.append("port_id: ");
        let d0 = u64_to_dec(self.first_port_id as u64);
        s.append(d0.as_str());
        s.append(" ");
        let d1 = u64_to_dec(self.second_port_id as u64);
        s.append(d1.as_str());
        s.append("\n");
        s.append("wr_traffic: ");
        let d2 = u64_to_dec(self.wr_traffic as u64);
        s.append(d2.as_str());
        s.append("\n");
        s.append("rd_traffic: ");
        let d3 = u64_to_dec(self.rd_traffic as u64);
        s.append(d3.as_str());
        s.append("\n");
        s.append("sum_traffic: ");
        let d4 = u64_to_dec(self.sum_traffic as u64);
        s.append(d4.as_str());
        s.append("\n");
        s.append("wr_pld_avg_len: ");
        let d5 = u64_to_dec(self.wr_pld_avg_len as u64);
        s.append(d5.as_str());
        s.append("\n");
        s.append("rd_pld_avg_len: ");
        let d6 = u64_to_dec(self.rd_pld_avg_len as u64);
        s.append(d6.as_str());
        s.append("\n");
        s.append("pld_avg_len: ");
        let d7 = u64_to_dec(self.pld_avg_len as u64);
        s.append(d7.as_str());
        s.append("\n");
        s.append("wr_delayed: ");
        let d8 = u64_to_dec(self.wr_delayed as u64);
        s.append(d8.as_str());
        s.append("\n");
        s.append("rd_delayed: ");
        let d9 = u64_to_dec(self.rd_delayed as u64);
        s.append(d9.as_str());
        proof {
            assert(s@ =~= spec_mar_perf_report(*self));
        }
        s
    }
}

} // verus!
