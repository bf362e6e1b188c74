use vstd::prelude::*;

verus! {

/// Failure taxonomy of the authentication service.
///
/// Every bounded wait that elapses becomes `Timeout`; invalid names and
/// rejected native session opens become `Access`; channel-protocol and
/// allocation failures become `Failed`; thread-spawn failures become `Io`;
/// a worker that cannot load or resolve the native library reports
/// `Library`.
#[derive(Debug, Clone, PartialEq, Eq)]
pub enum Error {
    /// A bounded wait (queue admission, result delivery, message publish,
    /// answer wait) exceeded its deadline.
    Timeout,
    /// An operating-system level failure, such as failing to spawn a worker
    /// thread.
    Io(String),
    /// An invalid principal or service identifier, or a native session that
    /// could not be opened.
    Access(String),
    /// An internal protocol violation or allocation failure.
    Failed(String),
    /// The native authentication library could not be loaded or a symbol
    /// could not be resolved.
    Library(String),
}

impl Error {
    /// Builds the access error reported for rejected names and failed
    /// session opens.
    pub fn access(msg: String) -> (r: Error)
        ensures
            r == Error::Access(msg),
    {
        Error::Access(msg)
    }

    /// True exactly on the `Timeout` variant.
    pub fn is_timeout(&self) -> (r: bool)
        ensures
            r == (*self matches Error::Timeout),
    {
        match self {
            Error::Timeout => true,
            _ => false,
        }
    }
}

} // verus!
