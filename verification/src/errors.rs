use vstd::prelude::*;

verus! {

/// The error kinds that the client's operations surface.
///
/// Local, recoverable conditions (a missing conversation record, an
/// absent bundle source directory) are handled by falling back to a
/// default action and never reach this type; everything here is
/// reported to the caller of the failed operation.
#[derive(Debug)]
pub enum Error {
    /// Missing or malformed local configuration or credential; fatal at startup.
    Config(String),
    /// A local file read, write or delete failed.
    Io(String),
    /// A call to the remote service failed.
    RemoteApi(String),
    /// A run reached a terminal status other than completion; carries the raw status.
    RunFailed(String),
    /// A message content part is not textual.
    UnsupportedContent,
    /// An expected local record or remote resource is absent.
    NotFound(String),
    /// A deletion target falls outside the private data directory.
    SafetyViolation(String),
    /// The polling budget was exhausted before the run reached a terminal status.
    Timeout,
}

impl Error {
    /// A short label naming the error kind, for display by the shell.
    pub fn kind_label(&self) -> (r: &'static str)
        ensures
            self is Config ==> r@ == "config error"@,
            self is Io ==> r@ == "io error"@,
            self is RemoteApi ==> r@ == "remote api error"@,
            self is RunFailed ==> r@ == "run failed"@,
            self is UnsupportedContent ==> r@ == "unsupported content"@,
            self is NotFound ==> r@ == "not found"@,
            self is SafetyViolation ==> r@ == "safety violation"@,
            self is Timeout ==> r@ == "timeout"@,
    {
        match self {
            Error::Config(_) => "config error",
            Error::Io(_) => "io error",
            Error::RemoteApi(_) => "remote api error",
            Error::RunFailed(_) => "run failed",
            Error::UnsupportedContent => "unsupported content",
            Error::NotFound(_) => "not found",
            Error::SafetyViolation(_) => "safety violation",
            Error::Timeout => "timeout",
        }
    }
}

} // verus!
