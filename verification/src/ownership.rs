//! Builder of ownership settings for remote-memory regions. The native
//! call that applies them is issued by the embedding binary with the
//! arguments assembled and checked here.

use vstd::prelude::*;

use crate::obmm::{ObmmError, ObmmResult};
use crate::prot;

verus! {

/// Builder of one ownership setting: a device descriptor, an address
/// range, and the protection bits to apply.
#[derive(Debug, Clone, Copy, PartialEq, Eq, Structural)]
pub struct OwnershipSetter {
    /// File descriptor of the memory device
    pub fd: i32,
    /// Start address of the range, if set
    pub start: Option<u64>,
    /// End address of the range, if set
    pub end: Option<u64>,
    /// Protection bits
    pub prot: i32,
}

impl OwnershipSetter {
    /// Start a setting for the given device descriptor, with no range and
    /// no access.
    pub fn new(fd: i32) -> (r: Self)
        ensures
            r.fd == fd,
            r.start is None,
            r.end is None,
            r.prot == prot::NONE,
    {
        Self { fd, start: None, end: None, prot: prot::NONE }
    }

    /// This setting with the given address range.
    pub fn range(self, start: u64, end: u64) -> (r: Self)
        ensures
            r.fd == self.fd,
            r.start == Some(start),
            r.end == Some(end),
            r.prot == self.prot,
    {
        Self { start: Some(start), end: Some(end), ..self }
    }

    /// This setting with no access.
    pub fn no_access(self) -> (r: Self)
        ensures
            r == (OwnershipSetter { prot: prot::NONE, ..self }),
    {
        Self { prot: prot::NONE, ..self }
    }

    /// This setting with read-only access.
    pub fn read_only(self) -> (r: Self)
        ensures
            r == (OwnershipSetter { prot: prot::READ, ..self }),
    {
        Self { prot: prot::READ, ..self }
    }

    /// This setting with read-write access.
    pub fn read_write(self) -> (r: Self)
        ensures
            r == (OwnershipSetter { prot: prot::READWRITE, ..self }),
    {
        Self { prot: prot::READWRITE, ..self }
    }

    /// This setting with write access (which implies read).
    pub fn write_only(self) -> (r: Self)
        ensures
            r == (OwnershipSetter { prot: prot::WRITE, ..self }),
    {
        Self { prot: prot::WRITE, ..self }
    }

    /// The arguments of the native set-ownership call: descriptor, start,
    /// end and protection bits. A setting without a start or end address
    /// is rejected naming the missing piece, start first.
    pub fn apply_args(self) -> (r: ObmmResult<(i32, u64, u64, i32)>)
        ensures
            self.start is None ==> r == ObmmResult::<(i32, u64, u64, i32)>::Err(
                ObmmError::InvalidInput("start address not set"),
            ),
            self.start is Some && self.end is None ==> r == ObmmResult::<
                (i32, u64, u64, i32),
            >::Err(ObmmError::InvalidInput("end address not set")),
            self.start is Some && self.end is Some ==> r == ObmmResult::<
                (i32, u64, u64, i32),
            >::Ok((self.fd, self.start->0, self.end->0, self.prot)),
    {
        let start = match self.start {
            Some(s) => s,
            None => {
                return Err(ObmmError::InvalidInput("start address not set"));
            },
        };
        let end = match self.end {
            Some(e) => e,
            None => {
                return Err(ObmmError::InvalidInput("end address not set"));
            },
        };
        Ok((self.fd, start, end, self.prot))
    }
}

} // verus!
