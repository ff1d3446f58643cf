//! The error of a failed native call.
use nix::errno::Errno;
use vstd::prelude::*;
use vstd::std_specs::convert::FromSpecImpl;

verus! {

/// `nix::errno::Errno`, the error number that a POSIX call leaves behind.
/// The library carries such a value from the native call to the caller and
/// never looks inside, so nothing is claimed about it.
#[verifier::external_type_specification]
#[verifier::external_body]
pub struct ExErrno(Errno);

/// Why a mount or an unmount did not happen.
///
/// There is one kind of failure: the native call reported an error. The
/// value it reported is kept as it is; what a given code means is defined by
/// the platform.
#[derive(Clone, Copy, Debug, PartialEq, Eq)]
pub enum Error {
    /// The error number of the failed call.
    Platform(Errno),
}

/// The result of an operation of this crate.
pub type Result<T> = core::result::Result<T, Error>;

impl From<Errno> for Error {
    fn from(errno: Errno) -> (error: Error) {
        Error::Platform(errno)
    }
}

impl FromSpecImpl<Errno> for Error {
    open spec fn obeys_from_spec() -> bool {
        true
    }

    open spec fn from_spec(errno: Errno) -> Error {
        Error::Platform(errno)
    }
}

impl Error {
    /// The error number that the platform reported.
    pub fn errno(&self) -> (errno: Errno)
        ensures
            *self == Error::Platform(errno),
    {
        match self {
            Error::Platform(errno) => *errno,
        }
    }
}

/// What the caller of a mount or an unmount gets for a given outcome of the
/// native call.
pub open spec fn result_of(outcome: core::result::Result<(), Errno>) -> Result<()> {
    match outcome {
        Ok(_) => Ok(()),
        Err(errno) => Err(Error::Platform(errno)),
    }
}

/// Turns the outcome of the native call into the result of the operation.
///
/// Success stays success. A failure is handed on at once, with the error
/// number unchanged: nothing is retried and no code is given a new meaning.
pub fn into_result(outcome: core::result::Result<(), Errno>) -> (result: Result<()>)
    ensures
        result == result_of(outcome),
{
    match outcome {
        Ok(_) => Ok(()),
        Err(errno) => Err(Error::from(errno)),
    }
}

} // verus!
