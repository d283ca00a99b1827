//! Errors reported synchronously to callers.

use vstd::prelude::*;

verus! {

/// A failure of an operation of the submission core.
#[derive(Clone, Copy, Debug, PartialEq, Eq, Structural)]
pub enum Error {
    /// An allocation is smaller than the layout it must hold.
    OutOfMemory,
    /// A device address that does not exist, a commit of zero commands, a
    /// submit with uncommitted commands, or a construction callback that
    /// initialised other memory than it was given.
    InvalidArgument,
    /// A wait for ring space was interrupted; the caller may start over.
    RestartRequested,
    /// A batch timed out.
    TimedOut,
    /// A batch faulted.
    Io,
    /// A batch failed for an unknown reason.
    NoData,
    /// A batch was killed because another context faulted.
    Canceled,
}

impl Error {
    /// The negative error number that stands for this error.
    pub open spec fn errno_spec(self) -> int {
        match self {
            Error::OutOfMemory => -12,
            Error::InvalidArgument => -22,
            Error::RestartRequested => -512,
            Error::TimedOut => -110,
            Error::Io => -5,
            Error::NoData => -61,
            Error::Canceled => -125,
        }
    }

    /// The negative error number that stands for this error.
    pub fn to_errno(self) -> (r: i32)
        ensures
            r == self.errno_spec(),
    {
        match self {
            Error::OutOfMemory => -12,
            Error::InvalidArgument => -22,
            Error::RestartRequested => -512,
            Error::TimedOut => -110,
            Error::Io => -5,
            Error::NoData => -61,
            Error::Canceled => -125,
        }
    }
}

} // verus!
