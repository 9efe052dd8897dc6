use vstd::prelude::*;

verus! {

/// The kind of a failure, as carried by the protocol.
#[derive(Clone, Copy, Debug, PartialEq, Eq, Structural)]
pub enum Code {
    /// A malformed request, such as an empty file name.
    InvalidArgument,
    /// The requested path does not exist or cannot be resolved.
    NotFound,
    /// The resolved path lies outside the sandbox root.
    PermissionDenied,
    /// The resource is busy (the path is locked) or there is no connection.
    Unavailable,
    /// An unexpected filesystem or I/O failure.
    Internal,
    /// The transport ended the stream before the upload was complete.
    Aborted,
    /// The connection to the daemon could not be established.
    Connection,
}

/// A typed failure with a human-readable message.
#[derive(Debug)]
pub struct Status {
    pub code: Code,
    pub message: String,
}

impl Status {
    pub fn new(code: Code, message: String) -> (r: Status)
        ensures
            r.code == code,
            r.message@ == message@,
    {
        Status { code, message }
    }

    pub fn code(&self) -> (r: Code)
        ensures
            r == self.code,
    {
        self.code
    }
}

} // verus!
