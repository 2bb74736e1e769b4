//! The failure a motor operation can report.

use embedded_hal::digital::ErrorKind;
use vstd::prelude::*;
use vstd::std_specs::convert::FromSpecImpl;

verus! {

/// `embedded_hal::digital::ErrorKind`, the reason an output line gives for a
/// failed write. The library never inspects it; it only carries it to the caller.
#[verifier::external_type_specification]
#[verifier::external_body]
pub struct ExErrorKind(ErrorKind);

/// Why a motor operation did not complete.
#[derive(Debug, Clone, Copy, PartialEq, Eq)]
pub enum Error {
    /// Driving an output line failed for the given reason.
    IoError(ErrorKind),
}

impl From<ErrorKind> for Error {
    fn from(value: ErrorKind) -> (e: Error) {
        Error::IoError(value)
    }
}

impl FromSpecImpl<ErrorKind> for Error {
    open spec fn obeys_from_spec() -> bool {
        true
    }

    open spec fn from_spec(value: ErrorKind) -> Error {
        Error::IoError(value)
    }
}

} // verus!
