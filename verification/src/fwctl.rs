//! The firmware-control subsystem's pure logic: its error taxonomy, the
//! parsing of kernel responses — bandwidth counters and port tables — and
//! the device-name convention of its device nodes. The device nodes
//! themselves are opened and queried by the embedding binary.

use vstd::prelude::*;

use crate::strfmt::spec_dec_digits;

verus! {

/// Name of the firmware-control subsystem this module talks to.
pub const NAME: &'static str = "ubfwctl";

/// Minimum measurement time in milliseconds.
pub const MIN_TIME_MS: u32 = 1;

/// Maximum measurement time in milliseconds.
pub const MAX_TIME_MS: u32 = 3600;

/// Conversion factor from milliseconds to microseconds.
pub const MS_TO_US: u32 = 1000;

/// Ports are measured in pairs.
pub const BA_MAR_PERF_NUM_TWO: u32 = 2;

/// Largest accepted port count of one die.
pub const MAX_PORTS: u32 = 20;

/// Indices of the fields in the kernel's raw counter array.
///
/// Port ID index.
pub const PORT_ID_IDX: usize = 0;
/// Clock cycle frequency index.
pub const CLOCK_CYCLE_IDX: usize = 1;
/// Write flux (bytes) index.
pub const FLUX_WR_IDX: usize = 2;
/// Read flux (bytes) index.
pub const FLUX_RD_IDX: usize = 3;
/// Total flux (bytes) index.
pub const FLUX_SUM_IDX: usize = 4;
/// Write command count index.
pub const WR_CMD_IDX: usize = 5;
/// Read command count index.
pub const RD_CMD_IDX: usize = 6;
/// Total command count index.
pub const SUM_CMD_IDX: usize = 7;
/// Write latency cycles index.
pub const WLATCNT_FIRST_IDX: usize = 8;
/// Read latency cycles index.
pub const RLATCNT_FIRST_IDX: usize = 9;
/// Maximum expected size of the raw array.
pub const BA_MAR_PERF_MAX_SIZE: usize = 64;

/// Errors of the firmware-control operations.
#[derive(Debug)]
pub enum UbfwctlError {
    /// Measurement time outside the accepted range
    InvalidTime(u32),
    /// Invalid port number
    InvalidPort(u32),
    /// A device control call failed
    IoctlFailed(String),
    /// No device node matches the chip and die
    DeviceNotFound {
        /// Chip ID looked for
        chip_id: u32,
        /// Die ID looked for
        die_id: u32,
    },
    /// The kernel's response was malformed
    InvalidResponse(String),
    /// The shared-memory lock could not be taken
    ShmLockFailed(String),
    /// The command is not supported by the device
    CommandNotSupported(String),
    /// An I/O error, carrying the OS error text
    IoError(String),
    /// A null pointer was encountered
    NullPointer(String),
}

impl UbfwctlError {
    /// The human-readable description of each error.
    pub open spec fn spec_message(&self) -> Seq<char> {
        match self {
            UbfwctlError::InvalidTime(t) => "Invalid time value: "@ + spec_dec_digits(*t as int)
                + ". Must be between 1 and 3600 ms"@,
            UbfwctlError::InvalidPort(p) => "Invalid port number: "@
                + spec_dec_digits(*p as int),
            UbfwctlError::IoctlFailed(msg) => "Ioctl failed: "@ + msg@,
            UbfwctlError::DeviceNotFound { chip_id, die_id } =>
                "Fwctl device not found for chip "@ + spec_dec_digits(*chip_id as int)
                + ", die "@ + spec_dec_digits(*die_id as int),
            UbfwctlError::InvalidResponse(msg) => "Invalid response from kernel: "@ + msg@,
            UbfwctlError::ShmLockFailed(msg) => "Shared memory lock failed: "@ + msg@,
            UbfwctlError::CommandNotSupported(msg) => "Command not supported: "@ + msg@,
            UbfwctlError::IoError(msg) => "I/O error: "@ + msg@,
            UbfwctlError::NullPointer(msg) => "Null pointer: "@ + msg@,
        }
    }

    /// A human-readable description of the error.
    pub fn message(&self) -> (r: String)
        ensures
            r@ == self.spec_message(),
    {
        let mut s = String::new();
        match self {
            UbfwctlError::InvalidTime(t) => {
                s.append("Invalid time value: ");
                let digits = crate::strfmt::u64_to_dec(*t as u64);
                s.append(digits.as_str());
                s.append(". Must be between 1 and 3600 ms");
            },
            UbfwctlError::InvalidPort(p) => {
                s.append("Invalid port number: ");
                let digits = crate::strfmt::u64_to_dec(*p as u64);
                s.append(digits.as_str());
            },
            UbfwctlError::IoctlFailed(msg) => {
                s.append("Ioctl failed: ");
                s.append(msg.as_str());
            },
            UbfwctlError::DeviceNotFound { chip_id, die_id } => {
                s.append("Fwctl device not found for chip ");
                let digits = crate::strfmt::u64_to_dec(*chip_id as u64);
                s.append(digits.as_str());
                s.append(", die ");
                let digits2 = crate::strfmt::u64_to_dec(*die_id as u64);
                s.append(digits2.as_str());
            },
            UbfwctlError::InvalidResponse(msg) => {
                s.append("Invalid response from kernel: ");
                s.append(msg.as_str());
            },
            UbfwctlError::ShmLockFailed(msg) => {
                s.append("Shared memory lock failed: ");
                s.append(msg.as_str());
            },
            UbfwctlError::CommandNotSupported(msg) => {
                s.append("Command not supported: ");
                s.append(msg.as_str());
            },
            UbfwctlError::IoError(msg) => {
                s.append("I/O error: ");
                s.append(msg.as_str());
            },
            UbfwctlError::NullPointer(msg) => {
                s.append("Null pointer: ");
                s.append(msg.as_str());
            },
        }
        proof {
            assert(s@ =~= self.spec_message());
        }
        s
    }

    /// A measurement time is valid iff it lies between the minimum and the
    /// maximum, inclusive; an invalid one is reported with its value.
    pub fn validate_time(time_ms: u32) -> (r: Result<(), UbfwctlError>)
        ensures
            r is Ok <==> (MIN_TIME_MS <= time_ms <= MAX_TIME_MS),
            r is Err ==> r->Err_0 == UbfwctlError::InvalidTime(time_ms),
    {
        if MIN_TIME_MS <= time_ms && time_ms <= MAX_TIME_MS {
            Ok(())
        } else {
            Err(UbfwctlError::InvalidTime(time_ms))
        }
    }
}

/// Raw bandwidth-counter data of one port, as the kernel reports it.
#[derive(Debug, Clone, Copy, PartialEq, Eq, Structural)]
pub struct MarPerfQuery {
    /// Port ID
    pub port_id: u32,
    /// Write flux in bytes
    pub flux_wr: u32,
    /// Read flux in bytes
    pub flux_rd: u32,
    /// Total flux in bytes
    pub flux_sum: u32,
    /// Write command count
    pub wr_cmd_cnt: u32,
    /// Read command count
    pub rd_cmd_cnt: u32,
    /// Total command count
    pub sum_cmd_cnt: u32,
    /// Write latency in clock cycles
    pub wlatcnt_first: u32,
    /// Read latency in clock cycles
    pub rlatcnt_first: u32,
}

impl MarPerfQuery {
    /// Extract the counters from the kernel's raw array, which must hold
    /// at least ten entries.
    pub fn from_raw_data(data: &[u32]) -> (r: Self)
        requires
            data@.len() > RLATCNT_FIRST_IDX,
        ensures
            r.port_id == data@[PORT_ID_IDX as int],
            r.flux_wr == data@[FLUX_WR_IDX as int],
            r.flux_rd == data@[FLUX_RD_IDX as int],
            r.flux_sum == data@[FLUX_SUM_IDX as int],
            r.wr_cmd_cnt == data@[WR_CMD_IDX as int],
            r.rd_cmd_cnt == data@[RD_CMD_IDX as int],
            r.sum_cmd_cnt == data@[SUM_CMD_IDX as int],
            r.wlatcnt_first == data@[WLATCNT_FIRST_IDX as int],
            r.rlatcnt_first == data@[RLATCNT_FIRST_IDX as int],
    {
        Self {
            port_id: data[PORT_ID_IDX],
            flux_wr: data[FLUX_WR_IDX],
            flux_rd: data[FLUX_RD_IDX],
            flux_sum: data[FLUX_SUM_IDX],
            wr_cmd_cnt: data[WR_CMD_IDX],
            rd_cmd_cnt: data[RD_CMD_IDX],
            sum_cmd_cnt: data[SUM_CMD_IDX],
            wlatcnt_first: data[WLATCNT_FIRST_IDX],
            rlatcnt_first: data[RLATCNT_FIRST_IDX],
        }
    }
}

/// Configuration of one bandwidth measurement.
#[derive(Debug, Clone, Copy, PartialEq, Eq, Structural)]
pub struct MarPerfConfig {
    /// Port to measure
    pub port_id: u32,
    /// Measurement time in milliseconds
    pub time_ms: u32,
}

impl MarPerfConfig {
    /// Create a measurement configuration.
    pub fn new(port_id: u32, time_ms: u32) -> (r: Self)
        ensures
            r.port_id == port_id,
            r.time_ms == time_ms,
    {
        Self { port_id, time_ms }
    }
}

/// Calculated bandwidth and latency results of one measured port pair.
#[derive(Debug, Clone, Copy, PartialEq, Eq, Structural)]
pub struct MarPerfResult {
    /// First port of the measured pair
    pub first_port_id: u32,
    /// Second port of the measured pair
    pub second_port_id: u32,
    /// Write traffic in bytes per second
    pub wr_traffic: u32,
    /// Read traffic in bytes per second
    pub rd_traffic: u32,
    /// Total traffic in bytes per second
    pub sum_traffic: u32,
    /// Average write payload length in bytes
    pub wr_pld_avg_len: u32,
    /// Average read payload length in bytes
    pub rd_pld_avg_len: u32,
    /// Average payload length in bytes
    pub pld_avg_len: u32,
    /// Write latency in nanoseconds
    pub wr_delayed: u32,
    /// Read latency in nanoseconds
    pub rd_delayed: u32,
}

/// The pair of ports a measured port belongs to: an even port pairs with
/// its successor, an odd one with its predecessor.
pub fn port_pair_of(port_id: u32) -> (r: (u32, u32))
    requires
        port_id % 2 == 1 || port_id + 1 <= u32::MAX,
    ensures
        port_id % 2 == 0 ==> r == (port_id, (port_id + 1) as u32),
        port_id % 2 == 1 ==> r == ((port_id - 1) as u32, port_id),
{
    if port_id % 2 == 0 {
        (port_id, port_id + 1)
    } else {
        (port_id - 1, port_id)
    }
}

/// The average payload length of a counter pair: flux divided by command
/// count, zero when no command was seen.
pub fn payload_average(flux: u32, cmd_cnt: u32) -> (r: u32)
    ensures
        cmd_cnt > 0 ==> r == flux as int / cmd_cnt as int,
        cmd_cnt == 0 ==> r == 0,
{
    if cmd_cnt > 0 {
        flux / cmd_cnt
    } else {
        0
    }
}

/// Port information of one port of a die.
#[derive(Debug, Clone, Copy, PartialEq, Eq)]
pub struct PortInfo {
    /// Port ID
    pub port_id: u32,
    /// Link status (0 down, 1 up)
    pub link_status: u32,
    /// Link state information
    pub link_state_info: u32,
    /// Port type (0 ethernet, otherwise unified bus)
    pub port_type: u32,
    /// Reserved words
    pub reserved: [u32; 2],
}

impl PortInfo {
    /// The port type as text: "eth" for 0, "ub" otherwise.
    pub fn port_type_str(&self) -> (r: &'static str)
        ensures
            self.port_type == 0 ==> r@ == "eth"@,
            self.port_type != 0 ==> r@ == "ub"@,
    {
        if self.port_type == 0 {
            "eth"
        } else {
            "ub"
        }
    }

    /// The link status as text: "down" for 0, "up" otherwise.
    pub fn link_status_str(&self) -> (r: &'static str)
        ensures
            self.link_status == 0 ==> r@ == "down"@,
            self.link_status != 0 ==> r@ == "up"@,
    {
        if self.link_status == 0 {
            "down"
        } else {
            "up"
        }
    }
}

/// The 32-bit value read little-endian from four bytes of a buffer.
pub open spec fn spec_le32(s: Seq<u8>, off: int) -> u32 {
    (s[off] as u32) | ((s[off + 1] as u32) << 8) | ((s[off + 2] as u32) << 16)
        | ((s[off + 3] as u32) << 24)
}

/// Read four little-endian bytes of a buffer as one 32-bit value.
fn read_le32(data: &[u8], off: usize) -> (r: u32)
    requires
        off + 4 <= data@.len(),
    ensures
        r == spec_le32(data@, off as int),
{
    (data[off] as u32) | ((data[off + 1] as u32) << 8) | ((data[off + 2] as u32) << 16)
        | ((data[off + 3] as u32) << 24)
}

/// The port record parsed at a byte offset: four counters and two
/// reserved words, 24 bytes in all.
pub open spec fn spec_port_at(s: Seq<u8>, off: int) -> PortInfo {
    PortInfo {
        port_id: spec_le32(s, off),
        link_status: spec_le32(s, off + 4),
        link_state_info: spec_le32(s, off + 8),
        port_type: spec_le32(s, off + 12),
        reserved: [spec_le32(s, off + 16), spec_le32(s, off + 20)],
    }
}

/// Identity and port table of one input/output die.
#[derive(Debug, Clone)]
pub struct IoDieInfo {
    /// Number of ports
    pub port_count: u32,
    /// Chip ID
    pub chip_id: u32,
    /// Die ID
    pub die_id: u32,
    /// Reserved words
    pub reserved: [u32; 3],
    /// Port information, one record per port
    pub ports: Vec<PortInfo>,
}

impl IoDieInfo {
    /// Parse a die-information response: a 24-byte header — port count,
    /// chip ID, die ID and three reserved words, little-endian — followed
    /// by one 24-byte record per port. The buffer must cover the header
    /// and all records, and the port count must be between 1 and the
    /// maximum; each failure is reported with an exact message.
    pub fn from_raw_data(data: &[u8]) -> (r: Result<Self, String>)
        ensures
            data@.len() < 24 ==> r is Err && r->Err_0@ == "Insufficient data: got "@
                + spec_dec_digits(data@.len() as int) + " bytes, need at least 24"@,
            data@.len() >= 24 ==> ({
                let pc = spec_le32(data@, 0);
                if pc == 0 || pc > MAX_PORTS {
                    r is Err && r->Err_0@ == "Invalid port count: "@
                        + spec_dec_digits(pc as int)
                } else if data@.len() < 24 + 24 * pc {
                    r is Err && r->Err_0@ == "Insufficient data for "@
                        + spec_dec_digits(pc as int) + " ports: got "@
                        + spec_dec_digits(data@.len() as int) + " bytes, need "@
                        + spec_dec_digits(24 + 24 * pc as int)
                } else {
                    &&& r is Ok
                    &&& r->Ok_0.port_count == pc
                    &&& r->Ok_0.chip_id == spec_le32(data@, 4)
                    &&& r->Ok_0.die_id == spec_le32(data@, 8)
                    &&& r->Ok_0.reserved == [0u32, 0u32, 0u32]
                    &&& r->Ok_0.ports@.len() == pc
                    &&& forall|k: int| 0 <= k < pc ==> #[trigger] r->Ok_0.ports@[k]
                        == spec_port_at(data@, 24 + 24 * k)
                }
            }),
    {
        if data.len() < 24 {
            let mut msg = String::new();
            msg.append("Insufficient data: got ");
            let digits = crate::strfmt::u64_to_dec(data.len() as u64);
            msg.append(digits.as_str());
            msg.append(" bytes, need at least 24");
            proof {
                assert(msg@ =~= "Insufficient data: got "@
                    + spec_dec_digits(data@.len() as int) + " bytes, need at least 24"@);
            }
            return Err(msg);
        }

        let port_count = read_le32(data, 0);
        let chip_id = read_le32(data, 4);
        let die_id = read_le32(data, 8);

        if port_count == 0 || port_count > MAX_PORTS {
            let mut msg = String::new();
            msg.append("Invalid port count: ");
            let digits = crate::strfmt::u64_to_dec(port_count as u64);
            msg.append(digits.as_str());
            proof {
                assert(msg@ =~= "Invalid port count: "@ + spec_dec_digits(port_count as int));
            }
            return Err(msg);
        }

        let expected_size: usize = 24 + 24 * (port_count as usize);
        if data.len() < expected_size {
            let mut msg = String::new();
            msg.append("Insufficient data for ");
            let digits = crate::strfmt::u64_to_dec(port_count as u64);
            msg.append(digits.as_str());
            msg.append(" ports: got ");
            let digits2 = crate::strfmt::u64_to_dec(data.len() as u64);
            msg.append(digits2.as_str());
            msg.append(" bytes, need ");
            let digits3 = crate::strfmt::u64_to_dec(expected_size as u64);
            msg.append(digits3.as_str());
            proof {
                assert(msg@ =~= "Insufficient data for "@
                    + spec_dec_digits(port_count as int) + " ports: got "@
                    + spec_dec_digits(data@.len() as int) + " bytes, need "@
                    + spec_dec_digits(24 + 24 * port_count as int));
            }
            return Err(msg);
        }

        let mut ports: Vec<PortInfo> = Vec::new();
        let mut i: usize = 0;
        while i < port_count as usize
            invariant
                i <= port_count,
                port_count <= MAX_PORTS,
                24 + 24 * port_count <= data@.len(),
                ports@.len() == i,
                forall|k: int| 0 <= k < i ==> #[trigger] ports@[k]
                    == spec_port_at(data@, 24 + 24 * k),
            decreases port_count - i,
        {
            let off: usize = 24 + 24 * i;
            let port = PortInfo {
                port_id: read_le32(data, off),
                link_status: read_le32(data, off + 4),
                link_state_info: read_le32(data, off + 8),
                port_type: read_le32(data, off + 12),
                reserved: [read_le32(data, off + 16), read_le32(data, off + 20)],
            };
            ports.push(port);
            i = i + 1;
        }

        Ok(IoDieInfo {
            port_count,
            chip_id,
            die_id,
            reserved: [0, 0, 0],
            ports,
        })
    }
}

/// Identity of one firmware-control device node.
#[derive(Debug, Clone)]
pub struct FwctlDeviceInfo {
    /// Chip ID
    pub chip_id: u32,
    /// Die ID
    pub die_id: u32,
    /// Path of the device node
    pub path: String,
}

impl FwctlDeviceInfo {
    /// Create a device identity.
    pub fn new(chip_id: u32, die_id: u32, path: String) -> (r: Self)
        ensures
            r.chip_id == chip_id,
            r.die_id == die_id,
            r.path == path,
    {
        Self { chip_id, die_id, path }
    }
}

/// Remote-procedure commands of the firmware-control interface.
#[derive(Debug, Clone, Copy, PartialEq, Eq, Structural)]
pub enum UbFwctlCmd {
    /// Configure the bandwidth measurement (command 0x0047)
    ConfigBaMarPerfStats,
    /// Query the bandwidth counters (command 0x0048)
    QueryBaMarPerfStats,
    /// Query the port table of a die (command 0x0082)
    QueryIoDiePortInfo,
}

impl UbFwctlCmd {
    /// The command's wire number.
    pub fn as_u32(self) -> (r: u32)
        ensures
            r == match self {
                UbFwctlCmd::ConfigBaMarPerfStats => 0x0047u32,
                UbFwctlCmd::QueryBaMarPerfStats => 0x0048u32,
                UbFwctlCmd::QueryIoDiePortInfo => 0x0082u32,
            },
    {
        match self {
            UbFwctlCmd::ConfigBaMarPerfStats => 0x0047,
            UbFwctlCmd::QueryBaMarPerfStats => 0x0048,
            UbFwctlCmd::QueryIoDiePortInfo => 0x0082,
        }
    }
}

} // verus!
