//! Discovery logic of firmware-control device nodes: the naming convention
//! of the nodes and the driver check of their sysfs records. Walking the
//! device directory and reading sysfs is done by the embedding binary,
//! which hands the names and file contents here.

use vstd::prelude::*;

use crate::fwctl::{FwctlDeviceInfo, IoDieInfo, PortInfo, UbfwctlError};
use crate::swap::spec_is_ws;

verus! {

/// Directory of the firmware-control device nodes.
pub const FWCTL_DEV_DIR: &'static str = "/dev/fwctl";

/// Name prefix of the firmware-control device nodes.
pub const FWCTL_DEV_PREFIX: &'static str = "fwctl";

/// Control call number of the firmware-control remote procedure.
pub const FWCTL_RPC: u64 = 0xC0_9A_00_01;

/// Remote-procedure scope for configuration access.
pub const FWCTL_RPC_CONFIGURATION: u32 = 0;

/// One discovered device node with its identity and port table.
#[derive(Debug, Clone)]
pub struct DiscoveredDevice {
    /// Device identity: chip, die and path
    pub info: FwctlDeviceInfo,
    /// Identity and port table of the die
    pub io_die_info: IoDieInfo,
    /// Entity name from the sysfs record
    pub entity_name: String,
}

impl DiscoveredDevice {
    /// Create a discovered device.
    pub fn new(info: FwctlDeviceInfo, io_die_info: IoDieInfo, entity_name: String) -> (r: Self)
        ensures
            r.info == info,
            r.io_die_info == io_die_info,
            r.entity_name == entity_name,
    {
        Self { info, io_die_info, entity_name }
    }

    /// The path of the device node.
    pub fn path(&self) -> (r: &str)
        ensures
            r@ == self.info.path@,
    {
        self.info.path.as_str()
    }

    /// The chip ID.
    pub fn chip_id(&self) -> (r: u32)
        ensures
            r == self.info.chip_id,
    {
        self.info.chip_id
    }

    /// The die ID.
    pub fn die_id(&self) -> (r: u32)
        ensures
            r == self.info.die_id,
    {
        self.info.die_id
    }

    /// The entity name from sysfs.
    pub fn entity_name(&self) -> (r: &str)
        ensures
            r@ == self.entity_name@,
    {
        self.entity_name.as_str()
    }

    /// The number of ports of the die.
    pub fn port_count(&self) -> (r: u32)
        ensures
            r == self.io_die_info.port_count,
    {
        self.io_die_info.port_count
    }

    /// The port table of the die.
    pub fn ports(&self) -> (r: &[PortInfo])
        ensures
            r@ == self.io_die_info.ports@,
    {
        self.io_die_info.ports.as_slice()
    }
}

/// The value of one hexadecimal digit character, or a negative number for
/// anything else.
pub open spec fn spec_hex_char_val(c: char) -> int {
    if '0' <= c && c <= '9' {
        c as int - '0' as int
    } else if 'a' <= c && c <= 'f' {
        c as int - 'a' as int + 10
    } else if 'A' <= c && c <= 'F' {
        c as int - 'A' as int + 10
    } else {
        -1
    }
}

/// The number denoted by hexadecimal digit characters (garbage when one of
/// them is no digit).
pub open spec fn spec_hex_value(s: Seq<char>) -> int
    decreases s.len(),
{
    if s.len() == 0 {
        0
    } else {
        spec_hex_value(s.drop_last()) * 16 + spec_hex_char_val(s.last())
    }
}

/// Whether characters form a valid 32-bit hexadecimal numeral: non-empty,
/// digits only, and a value that fits.
pub open spec fn spec_hex_valid(s: Seq<char>) -> bool {
    &&& s.len() > 0
    &&& forall|k: int| 0 <= k < s.len() ==> #[trigger] spec_hex_char_val(s[k]) >= 0
    &&& spec_hex_value(s) <= 0xFFFFFFFF
}

/// With every digit valid, the value is non-negative and grows from a
/// prefix to the whole.
proof fn lemma_hex_value_prefix(s: Seq<char>, i: int)
    requires
        0 <= i <= s.len(),
        forall|k: int| 0 <= k < s.len() ==> #[trigger] spec_hex_char_val(s[k]) >= 0,
    ensures
        0 <= spec_hex_value(s.subrange(0, i)) <= spec_hex_value(s),
    decreases s.len() - i,
{
    if i == s.len() {
        assert(s.subrange(0, i) =~= s);
        lemma_hex_value_nonneg(s);
    } else {
        lemma_hex_value_prefix(s, i + 1);
        assert(s.subrange(0, i + 1).drop_last() =~= s.subrange(0, i));
        lemma_hex_value_nonneg(s.subrange(0, i));
    }
}

/// With every digit valid, the value is non-negative.
proof fn lemma_hex_value_nonneg(s: Seq<char>)
    requires
        forall|k: int| 0 <= k < s.len() ==> #[trigger] spec_hex_char_val(s[k]) >= 0,
    ensures
        spec_hex_value(s) >= 0,
    decreases s.len(),
{
    if s.len() > 0 {
        assert(forall|k: int| 0 <= k < s.drop_last().len()
            ==> #[trigger] spec_hex_char_val(s.drop_last()[k]) >= 0);
        lemma_hex_value_nonneg(s.drop_last());
    }
}

/// The value of one hexadecimal digit character, or a negative number.
fn hex_char_val(c: char) -> (r: i32)
    ensures
        r == spec_hex_char_val(c),
{
    if '0' <= c && c <= '9' {
        c as i32 - 48
    } else if 'a' <= c && c <= 'f' {
        c as i32 - 97 + 10
    } else if 'A' <= c && c <= 'F' {
        c as i32 - 65 + 10
    } else {
        -1
    }
}

/// Parse the chip and die of a device-node name.
///
/// A node is named by the prefix and a hexadecimal number combining the
/// chip in the upper and the die in the lower 16 bits. A name without the
/// prefix, or without a valid 32-bit hexadecimal numeral behind it, is
/// reported as an invalid response naming the offender.
pub fn parse_device_id(device_name: &str) -> (r: Result<(u32, u32), UbfwctlError>)
    ensures
        ({
            let name = device_name@;
            let has_prefix = name.len() >= 5 && name[0] == 'f' && name[1] == 'w'
                && name[2] == 'c' && name[3] == 't' && name[4] == 'l';
            let digits = name.skip(5);
            if !has_prefix {
                r is Err && r->Err_0 is InvalidResponse
                    && r->Err_0->InvalidResponse_0@ == "Invalid device name: "@ + name
            } else if !spec_hex_valid(digits) {
                r is Err && r->Err_0 is InvalidResponse
                    && r->Err_0->InvalidResponse_0@ == "Invalid device number: "@ + digits
            } else {
                &&& r is Ok
                &&& r->Ok_0.0 == (spec_hex_value(digits) as u32) >> 16
                &&& r->Ok_0.1 == (spec_hex_value(digits) as u32) & 0xFFFF
            }
        }),
{
    let nlen = device_name.unicode_len();
    let has_prefix = nlen >= 5 && device_name.get_char(0) == 'f'
        && device_name.get_char(1) == 'w' && device_name.get_char(2) == 'c'
        && device_name.get_char(3) == 't' && device_name.get_char(4) == 'l';
    if !has_prefix {
        let mut msg = String::new();
        msg.append("Invalid device name: ");
        msg.append(device_name);
        proof {
            assert(msg@ =~= "Invalid device name: "@ + device_name@);
        }
        return Err(UbfwctlError::InvalidResponse(msg));
    }

    let num_str = device_name.substring_char(5, nlen);
    proof {
        assert(num_str@ =~= device_name@.skip(5));
    }
    let ghost digits = device_name@.skip(5);
    let dlen = num_str.unicode_len();

    if dlen == 0 {
        let mut msg = String::new();
        msg.append("Invalid device number: ");
        msg.append(num_str);
        proof {
            assert(msg@ =~= "Invalid device number: "@ + digits);
        }
        return Err(UbfwctlError::InvalidResponse(msg));
    }

    let mut acc: u64 = 0;
    let mut j: usize = 0;
    proof {
        assert(digits.subrange(0, 0) =~= Seq::<char>::empty());
    }
    while j < dlen
        invariant
            j <= dlen,
            dlen == digits.len(),
            dlen > 0,
            num_str@ == digits,
            digits == device_name@.skip(5),
            device_name@.len() >= 5,
            device_name@[0] == 'f' && device_name@[1] == 'w' && device_name@[2] == 'c'
                && device_name@[3] == 't' && device_name@[4] == 'l',
            forall|k: int| 0 <= k < j ==> #[trigger] spec_hex_char_val(digits[k]) >= 0,
            acc == spec_hex_value(digits.subrange(0, j as int)),
            acc <= 0xFFFFFFFF,
        decreases dlen - j,
    {
        let c = num_str.get_char(j);
        let v = hex_char_val(c);
        if v < 0 {
            let mut msg = String::new();
            msg.append("Invalid device number: ");
            msg.append(num_str);
            proof {
                assert(msg@ =~= "Invalid device number: "@ + digits);
                assert(digits[j as int] == c);
                assert(spec_hex_char_val(digits[j as int]) < 0);
                assert(!spec_hex_valid(digits));
            }
            return Err(UbfwctlError::InvalidResponse(msg));
        }
        let next: u64 = acc * 16 + (v as u64);
        proof {
            assert(digits.subrange(0, j + 1).drop_last() =~= digits.subrange(0, j as int));
            assert(digits.subrange(0, j + 1).last() == digits[j as int]);
        }
        if next > 0xFFFFFFFF {
            proof {
                assert(digits[j as int] == c);
                assert(spec_hex_value(digits.subrange(0, j + 1)) == next);
                if forall|k: int| 0 <= k < digits.len()
                    ==> #[trigger] spec_hex_char_val(digits[k]) >= 0 {
                    lemma_hex_value_prefix(digits, j + 1);
                    assert(spec_hex_value(digits) > 0xFFFFFFFF);
                }
                assert(!spec_hex_valid(digits));
            }
            let mut msg = String::new();
            msg.append("Invalid device number: ");
            msg.append(num_str);
            proof {
                assert(msg@ =~= "Invalid device number: "@ + digits);
            }
            return Err(UbfwctlError::InvalidResponse(msg));
        }
        acc = next;
        j = j + 1;
    }
    proof {
        assert(digits.subrange(0, dlen as int) =~= digits);
    }

    let combined: u32 = acc as u32;
    Ok((combined >> 16, combined & 0xFFFF))
}

/// The position of the first equals sign in `[from, to)`, or `to`.
pub open spec fn spec_first_eq(c: Seq<u8>, from: int, to: int) -> int
    decreases to - from,
{
    if from >= to {
        to
    } else if c[from] == 61 {
        from
    } else {
        spec_first_eq(c, from + 1, to)
    }
}

/// The start of `[lo, hi)` with leading ASCII whitespace stripped.
pub open spec fn spec_trim_front(c: Seq<u8>, lo: int, hi: int) -> int
    decreases hi - lo,
{
    if lo < hi && spec_is_ws(c[lo]) {
        spec_trim_front(c, lo + 1, hi)
    } else {
        lo
    }
}

/// The end of `[lo, hi)` with trailing ASCII whitespace stripped.
pub open spec fn spec_trim_back(c: Seq<u8>, lo: int, hi: int) -> int
    decreases hi - lo,
{
    if lo < hi && spec_is_ws(c[hi - 1]) {
        spec_trim_back(c, lo, hi - 1)
    } else {
        hi
    }
}

/// Whether the bytes of `[ks, ke)` spell `DRIVER`.
pub open spec fn spec_is_driver_key(c: Seq<u8>, ks: int, ke: int) -> bool {
    ke - ks == 6 && c[ks] == 68 && c[ks + 1] == 82 && c[ks + 2] == 73 && c[ks + 3] == 86
        && c[ks + 4] == 69 && c[ks + 5] == 82
}

/// Whether the bytes of `[vs, ve)` spell `ubase`.
pub open spec fn spec_is_ubase_value(c: Seq<u8>, vs: int, ve: int) -> bool {
    ve - vs == 5 && c[vs] == 117 && c[vs + 1] == 98 && c[vs + 2] == 97 && c[vs + 3] == 115
        && c[vs + 4] == 101
}

/// Whether the bytes of `[ks, ke)` spell `UB_ENTITY_NAME`.
pub open spec fn spec_is_entity_key(c: Seq<u8>, ks: int, ke: int) -> bool {
    ke - ks == 14 && c[ks] == 85 && c[ks + 1] == 66 && c[ks + 2] == 95 && c[ks + 3] == 69
        && c[ks + 4] == 78 && c[ks + 5] == 84 && c[ks + 6] == 73 && c[ks + 7] == 84
        && c[ks + 8] == 89 && c[ks + 9] == 95 && c[ks + 10] == 78 && c[ks + 11] == 65
        && c[ks + 12] == 77 && c[ks + 13] == 69
}

/// What one `KEY=VALUE` line does to the scan state. A line without an
/// equals sign changes nothing. A `DRIVER` line whose trimmed value is
/// `ubase` marks the device as driven by the unified-bus driver; a
/// `UB_ENTITY_NAME` line replaces the entity range with the bounds of its
/// trimmed value, or clears it when the value is empty.
pub open spec fn spec_line_state(
    c: Seq<u8>,
    ls: int,
    le: int,
    is_ubase: bool,
    entity: Option<(int, int)>,
) -> (bool, Option<(int, int)>) {
    let eq = spec_first_eq(c, ls, le);
    if eq >= le {
        (is_ubase, entity)
    } else {
        let ks = spec_trim_front(c, ls, eq);
        let ke = spec_trim_back(c, ks, eq);
        let vs = spec_trim_front(c, eq + 1, le);
        let ve = spec_trim_back(c, vs, le);
        if spec_is_driver_key(c, ks, ke) {
            if spec_is_ubase_value(c, vs, ve) {
                (true, entity)
            } else {
                (is_ubase, entity)
            }
        } else if spec_is_entity_key(c, ks, ke) {
            (is_ubase, if vs < ve { Some((vs, ve)) } else { None })
        } else {
            (is_ubase, entity)
        }
    }
}

/// The scan state after walking the record from position `i`, with the
/// current line starting at `line_start`: each newline (and the end of
/// the record) closes a line, which updates the state.
pub open spec fn spec_uevent_scan(
    c: Seq<u8>,
    i: int,
    line_start: int,
    is_ubase: bool,
    entity: Option<(int, int)>,
) -> (bool, Option<(int, int)>)
    decreases c.len() + 1 - i,
{
    if i > c.len() {
        (is_ubase, entity)
    } else if i == c.len() || c[i] == 10 {
        let st = spec_line_state(c, line_start, i, is_ubase, entity);
        spec_uevent_scan(c, i + 1, i + 1, st.0, st.1)
    } else {
        spec_uevent_scan(c, i + 1, line_start, is_ubase, entity)
    }
}

/// The entity range of a sysfs record: the trimmed value bounds of the
/// last `UB_ENTITY_NAME` line, provided the record names the unified-bus
/// driver and that value is non-empty.
pub open spec fn spec_uevent_entity(c: Seq<u8>) -> Option<(int, int)> {
    let st = spec_uevent_scan(c, 0, 0, false, None);
    if st.0 {
        st.1
    } else {
        None
    }
}

/// The spec-level view of an entity range.
pub open spec fn spec_entity_view(entity: Option<(usize, usize)>) -> Option<(int, int)> {
    match entity {
        Some((s, e)) => Some((s as int, e as int)),
        None => None,
    }
}

/// Find the entity name in a sysfs record of a device.
///
/// The record is lines of `KEY=VALUE` pairs. A device qualifies when some
/// line names the unified-bus driver (`DRIVER=ubase`, values trimmed of
/// ASCII whitespace) and some line carries a non-empty `UB_ENTITY_NAME`
/// value; the returned pair bounds the trimmed value of the last such
/// line within the record.
pub fn parse_uevent_entity(contents: &[u8]) -> (r: Option<(usize, usize)>)
    requires
        contents@.len() < usize::MAX,
    ensures
        spec_entity_view(r) == spec_uevent_entity(contents@),
        r is Some ==> ({
            let (s, e) = r->0;
            &&& s < e <= contents@.len()
            &&& !spec_is_ws(contents@[s as int])
            &&& !spec_is_ws(contents@[e - 1])
        }),
{
    let mut is_ubase = false;
    let mut entity: Option<(usize, usize)> = None;

    let n = contents.len();
    let mut line_start: usize = 0;
    let mut i: usize = 0;

    while i <= n
        invariant
            line_start <= i <= n + 1,
            n == contents@.len(),
            n < usize::MAX,
            spec_uevent_scan(contents@, 0, 0, false, None) == spec_uevent_scan(
                contents@,
                i as int,
                line_start as int,
                is_ubase,
                spec_entity_view(entity),
            ),
            entity is Some ==> ({
                let (s, e) = entity->0;
                &&& s < e <= contents@.len()
                &&& !spec_is_ws(contents@[s as int])
                &&& !spec_is_ws(contents@[e - 1])
            }),
        decreases n + 1 - i,
    {
        if i == n || contents[i] == 10 {
            let line_end = i;
            let mut eq: usize = line_start;
            while eq < line_end && contents[eq] != 61
                invariant
                    line_start <= eq <= line_end <= n,
                    n == contents@.len(),
                    spec_first_eq(contents@, line_start as int, line_end as int)
                        == spec_first_eq(contents@, eq as int, line_end as int),
                decreases line_end - eq,
            {
                eq = eq + 1;
            }
            proof {
                assert(spec_first_eq(contents@, eq as int, line_end as int) == eq);
            }
            if eq < line_end {
                let ghost pre_state = (is_ubase, spec_entity_view(entity));
                let (ks, ke) = trim_range(contents, line_start, eq);
                let (vs, ve) = trim_range(contents, eq + 1, line_end);
                let is_driver_key = ke - ks == 6 && contents[ks] == 68 && contents[ks + 1] == 82
                    && contents[ks + 2] == 73 && contents[ks + 3] == 86
                    && contents[ks + 4] == 69 && contents[ks + 5] == 82;
                if is_driver_key {
                    let is_ubase_val = ve - vs == 5 && contents[vs] == 117
                        && contents[vs + 1] == 98 && contents[vs + 2] == 97
                        && contents[vs + 3] == 115 && contents[vs + 4] == 101;
                    if is_ubase_val {
                        is_ubase = true;
                    }
                } else {
                    let is_entity_key = ke - ks == 14 && contents[ks] == 85
                        && contents[ks + 1] == 66 && contents[ks + 2] == 95
                        && contents[ks + 3] == 69 && contents[ks + 4] == 78
                        && contents[ks + 5] == 84 && contents[ks + 6] == 73
                        && contents[ks + 7] == 84 && contents[ks + 8] == 89
                        && contents[ks + 9] == 95 && contents[ks + 10] == 78
                        && contents[ks + 11] == 65 && contents[ks + 12] == 77
                        && contents[ks + 13] == 69;
                    if is_entity_key {
                        if vs < ve {
                            entity = Some((vs, ve));
                        } else {
                            entity = None;
                        }
                    }
                }
                proof {
                    assert((is_ubase, spec_entity_view(entity)) == spec_line_state(
                        contents@,
                        line_start as int,
                        line_end as int,
                        pre_state.0,
                        pre_state.1,
                    ));
                }
            }
            line_start = i + 1;
        }
        i = i + 1;
    }

    proof {
        assert(spec_uevent_scan(
            contents@,
            i as int,
            line_start as int,
            is_ubase,
            spec_entity_view(entity),
        ) == (is_ubase, spec_entity_view(entity)));
    }
    if is_ubase {
        entity
    } else {
        None
    }
}

/// The bounds of a byte range with ASCII whitespace removed from both
/// ends.
fn trim_range(data: &[u8], lo: usize, hi: usize) -> (r: (usize, usize))
    requires
        lo <= hi <= data@.len(),
    ensures
        lo <= r.0 <= r.1 <= hi,
        r.0 == spec_trim_front(data@, lo as int, hi as int),
        r.1 == spec_trim_back(data@, r.0 as int, hi as int),
        r.0 < r.1 ==> !spec_is_ws(data@[r.0 as int]) && !spec_is_ws(data@[r.1 - 1]),
{
    let mut s = lo;
    let mut e = hi;
    while s < e && (data[s] == 32 || data[s] == 9 || data[s] == 10 || data[s] == 13)
        invariant
            lo <= s <= e <= hi <= data@.len(),
            e == hi,
            spec_trim_front(data@, lo as int, hi as int) == spec_trim_front(
                data@,
                s as int,
                hi as int,
            ),
        decreases e - s,
    {
        s = s + 1;
    }
    proof {
        assert(spec_trim_front(data@, s as int, hi as int) == s);
    }
    let front = s;
    while s < e && (data[e - 1] == 32 || data[e - 1] == 9 || data[e - 1] == 10
        || data[e - 1] == 13)
        invariant
            lo <= s <= e <= hi <= data@.len(),
            s == front,
            spec_trim_front(data@, lo as int, hi as int) == s,
            spec_trim_back(data@, s as int, hi as int) == spec_trim_back(
                data@,
                s as int,
                e as int,
            ),
            s < e ==> !spec_is_ws(data@[s as int]),
        decreases e - s,
    {
        e = e - 1;
    }
    proof {
        assert(spec_trim_back(data@, s as int, e as int) == e);
    }
    (s, e)
}

} // verus!
