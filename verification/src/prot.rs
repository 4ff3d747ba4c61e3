//! Memory protection constants used to express ownership of remote-memory
//! regions.

use vstd::prelude::*;

verus! {

/// No access permission.
pub const NONE: i32 = 0x0;

/// Read permission.
pub const READ: i32 = 0x1;

/// Write permission (implies read).
pub const WRITE: i32 = 0x2;

/// Read-write permission.
pub const READWRITE: i32 = 0x3;

} // verus!
