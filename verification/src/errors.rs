//! Typed failures shared by both adapters.
//!
//! The driver runtime reports failures as negative status codes whose
//! magnitude is an errno value. Both adapters convert such codes at their
//! boundary into a [`DeviceError`], and classify the code into a small
//! [`ErrorKind`] taxonomy so that calling code needs no driver-specific
//! status knowledge.

use vstd::prelude::*;

verus! {

/// Errno magnitude the driver runtime reports for a call the underlying
/// driver does not implement.
pub const ENOSYS_CODE: u32 = 88;

/// Errno magnitude the driver runtime reports for a feature or resource
/// that is absent.
pub const ENOTSUP_CODE: u32 = 134;

/// Driver-agnostic classification of an adapter failure.
#[derive(Clone, Copy, Debug, PartialEq, Eq, Structural)]
pub enum ErrorKind {
    /// The operation is not implemented by the underlying driver.
    Unsupported,
    /// The feature or resource is absent.
    NotFound,
    /// Any other driver status.
    Other,
}

/// Typed failure carrying the errno magnitude taken from a negative
/// driver status code.
#[derive(Clone, Copy, Debug, PartialEq, Eq, Structural)]
pub struct DeviceError {
    /// Positive errno value (the negated driver status code).
    pub code: u32,
}

impl DeviceError {
    /// Classification of this error's code.
    pub open spec fn spec_kind(self) -> ErrorKind {
        if self.code == ENOSYS_CODE {
            ErrorKind::Unsupported
        } else if self.code == ENOTSUP_CODE {
            ErrorKind::NotFound
        } else {
            ErrorKind::Other
        }
    }

    /// Classifies the carried code into the taxonomy.
    pub fn kind(&self) -> (k: ErrorKind)
        ensures
            k == self.spec_kind(),
    {
        if self.code == ENOSYS_CODE {
            ErrorKind::Unsupported
        } else if self.code == ENOTSUP_CODE {
            ErrorKind::NotFound
        } else {
            ErrorKind::Other
        }
    }
}

/// Maps a raw driver status code to a typed result: zero or positive is
/// success, a negative code is a failure carrying the negated code.
pub fn check_error(status: i32) -> (r: Result<(), DeviceError>)
    ensures
        r is Ok <==> status >= 0,
        status < 0 ==> (r matches Err(e) && e.code as int == -(status as int)),
{
    if status >= 0 {
        Ok(())
    } else {
        let wide: i64 = -(status as i64);
        let code: u32 = wide as u32;
        Err(DeviceError { code })
    }
}

} // verus!
