//! Error taxonomy of the idle-page scan/swap engine.

use vstd::prelude::*;

verus! {

/// Result alias for engine operations.
pub type EtmemResult<T> = core::result::Result<T, EtmemError>;

/// Errors reported by the idle-page scan/swap engine.
#[derive(Debug, Clone, PartialEq)]
pub enum EtmemError {
    /// Invalid process ID
    InvalidPid,
    /// Invalid virtual address
    InvalidAddress,
    /// Invalid watermark configuration
    InvalidWatermark,
    /// Invalid scan flags
    InvalidFlags,
    /// Procfs operation failed
    ProcfsError(String),
    /// Control call failed with the given code
    IoctlError(i32),
    /// Buffer too small
    BufferTooSmall,
    /// Kernel buffer full (more data available)
    KernelBufferFull,
    /// User buffer full
    UserBufferFull,
    /// Permission denied (the engine needs administrator rights)
    PermissionDenied,
    /// Kernel feature not loaded
    ModuleNotLoaded,
    /// Process not found
    ProcessNotFound,
    /// Invalid page type in a kernel response
    InvalidPageType(u8),
    /// Scan operation failed
    ScanFailed(String),
    /// Swap operation failed
    SwapFailed(String),
    /// Watermark percentage above the maximum
    WatermarkOutOfRange,
    /// Low watermark not below the high watermark
    InvalidWatermarkOrder,
    /// I/O error
    IoError(String),
    /// Operation not supported
    NotSupported,
    /// Address range invalid
    InvalidRange,
}

impl EtmemError {
    /// The human-readable description of each error.
    pub open spec fn spec_message(&self) -> Seq<char> {
        match self {
            EtmemError::InvalidPid => "Invalid process ID"@,
            EtmemError::InvalidAddress => "Invalid virtual address"@,
            EtmemError::InvalidWatermark => "Invalid watermark configuration"@,
            EtmemError::InvalidFlags => "Invalid scan flags"@,
            EtmemError::ProcfsError(msg) => "Procfs error: "@ + msg@,
            EtmemError::IoctlError(code) => "IOCTL failed with code: "@
                + crate::strfmt::spec_i64_dec_digits(*code as int),
            EtmemError::BufferTooSmall => "Buffer too small (minimum 19 bytes)"@,
            EtmemError::KernelBufferFull => "Kernel buffer full, more data available"@,
            EtmemError::UserBufferFull => "User buffer full"@,
            EtmemError::PermissionDenied => "Permission denied (administrator rights needed)"@,
            EtmemError::ModuleNotLoaded => "Kernel feature for tiered memory not loaded"@,
            EtmemError::ProcessNotFound => "Process not found"@,
            EtmemError::InvalidPageType(t) => "Invalid page type: "@
                + crate::strfmt::spec_dec_digits(*t as int),
            EtmemError::ScanFailed(msg) => "Scan failed: "@ + msg@,
            EtmemError::SwapFailed(msg) => "Swap failed: "@ + msg@,
            EtmemError::WatermarkOutOfRange => "Watermark must be 0-100"@,
            EtmemError::InvalidWatermarkOrder =>
                "Low watermark must be less than high watermark"@,
            EtmemError::IoError(msg) => "I/O error: "@ + msg@,
            EtmemError::NotSupported => "Operation not supported"@,
            EtmemError::InvalidRange => "Invalid address range"@,
        }
    }

    /// A human-readable description of the error.
    pub fn message(&self) -> (r: String)
        ensures
            r@ == self.spec_message(),
    {
        let mut s = String::new();
        match self {
            EtmemError::InvalidPid => s.append("Invalid process ID"),
            EtmemError::InvalidAddress => s.append("Invalid virtual address"),
            EtmemError::InvalidWatermark => s.append("Invalid watermark configuration"),
            EtmemError::InvalidFlags => s.append("Invalid scan flags"),
            EtmemError::ProcfsError(msg) => {
                s.append("Procfs error: ");
                s.append(msg.as_str());
            },
            EtmemError::IoctlError(code) => {
                s.append("IOCTL failed with code: ");
                let digits = crate::strfmt::i64_to_dec(*code as i64);
                s.append(digits.as_str());
            },
            EtmemError::BufferTooSmall => s.append("Buffer too small (minimum 19 bytes)"),
            EtmemError::KernelBufferFull => s.append(
                "Kernel buffer full, more data available",
            ),
            EtmemError::UserBufferFull => s.append("User buffer full"),
            EtmemError::PermissionDenied => s.append(
                "Permission denied (administrator rights needed)",
            ),
            EtmemError::ModuleNotLoaded => s.append(
                "Kernel feature for tiered memory not loaded",
            ),
            EtmemError::ProcessNotFound => s.append("Process not found"),
            EtmemError::InvalidPageType(t) => {
                s.append("Invalid page type: ");
                let digits = crate::strfmt::u64_to_dec(*t as u64);
                s.append(digits.as_str());
            },
            EtmemError::ScanFailed(msg) => {
                s.append("Scan failed: ");
                s.append(msg.as_str());
            },
            EtmemError::SwapFailed(msg) => {
                s.append("Swap failed: ");
                s.append(msg.as_str());
            },
            EtmemError::WatermarkOutOfRange => s.append("Watermark must be 0-100"),
            EtmemError::InvalidWatermarkOrder => s.append(
                "Low watermark must be less than high watermark",
            ),
            EtmemError::IoError(msg) => {
                s.append("I/O error: ");
                s.append(msg.as_str());
            },
            EtmemError::NotSupported => s.append("Operation not supported"),
            EtmemError::InvalidRange => s.append("Invalid address range"),
        }
        proof {
            assert(s@ =~= self.spec_message());
        }
        s
    }
}

/// Operating-system error numbers that the engine maps to its own taxonomy.
pub const OS_EPERM: i32 = 1;
/// "No such process"
pub const OS_ESRCH: i32 = 3;
/// "Permission denied"
pub const OS_EACCES: i32 = 13;
/// "No such device": the kernel feature is absent
pub const OS_ENODEV: i32 = 19;
/// "Invalid argument"
pub const OS_EINVAL: i32 = 22;

/// Spec-level description of how an OS error code maps into the taxonomy.
pub open spec fn spec_map_os_error(code: Option<i32>, text: String) -> EtmemError {
    match code {
        Some(c) => if c == OS_EPERM || c == OS_EACCES {
            EtmemError::PermissionDenied
        } else if c == OS_ESRCH {
            EtmemError::ProcessNotFound
        } else if c == OS_ENODEV {
            EtmemError::ModuleNotLoaded
        } else if c == OS_EINVAL {
            EtmemError::InvalidFlags
        } else {
            EtmemError::IoError(text)
        },
        None => EtmemError::IoError(text),
    }
}

/// Map a raw OS error (its `errno`, if any, and its message) to the engine's
/// taxonomy: permission errors, a missing process, and a missing kernel
/// feature each get their own variant; everything else keeps its text.
pub fn map_os_error(code: Option<i32>, text: String) -> (r: EtmemError)
    ensures
        r == spec_map_os_error(code, text),
{
    match code {
        Some(c) => {
            if c == OS_EPERM || c == OS_EACCES {
                EtmemError::PermissionDenied
            } else if c == OS_ESRCH {
                EtmemError::ProcessNotFound
            } else if c == OS_ENODEV {
                EtmemError::ModuleNotLoaded
            } else if c == OS_EINVAL {
                EtmemError::InvalidFlags
            } else {
                EtmemError::IoError(text)
            }
        },
        None => EtmemError::IoError(text),
    }
}

/// Conversion of C-style return codes into `EtmemResult`.
pub trait ToEtmemResult<T>: Sized {
    /// Whether this code counts as success for the target result type.
    spec fn spec_ok(self) -> bool;

    /// The success value this code carries.
    spec fn spec_val(self) -> T;

    /// Convert `self` to a result, mapping a failure code through `error_mapper`.
    fn to_etmem_result<F: Fn(i32) -> EtmemError>(self, error_mapper: F) -> (r: EtmemResult<T>)
        requires
            forall|code: i32| #[trigger] call_requires(error_mapper, (code,)),
        ensures
            r is Ok <==> self.spec_ok(),
            r is Ok ==> r->Ok_0 == self.spec_val();
}

impl ToEtmemResult<()> for i32 {
    /// Zero is success; any other code is an error.
    open spec fn spec_ok(self) -> bool {
        self == 0
    }

    open spec fn spec_val(self) -> () {
        ()
    }

    fn to_etmem_result<F: Fn(i32) -> EtmemError>(self, error_mapper: F) -> (r: EtmemResult<()>) {
        if self == 0 {
            Ok(())
        } else {
            Err(error_mapper(self))
        }
    }
}

impl ToEtmemResult<i32> for i32 {
    /// A non-negative code is success and is returned as it is; a negative
    /// one is an error.
    open spec fn spec_ok(self) -> bool {
        self >= 0
    }

    open spec fn spec_val(self) -> i32 {
        self
    }

    fn to_etmem_result<F: Fn(i32) -> EtmemError>(self, error_mapper: F) -> (r: EtmemResult<i32>) {
        if self >= 0 {
            Ok(self)
        } else {
            Err(error_mapper(self))
        }
    }
}

} // verus!
