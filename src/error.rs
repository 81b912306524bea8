use vstd::prelude::*;

verus! {

/// The kinds of failure the pipeline reports; every one of them is fatal.
#[derive(Clone, Copy, Debug, PartialEq, Eq, Structural)]
pub enum ErrorKind {
    /// Arguments of the wrong shape or number.
    InvalidInput,
    /// The destination bucket or the archive object is not listed.
    NotFound,
    /// A storage request was refused at the transport layer.
    ConnectionRefused,
    /// A storage response body could not be received in full.
    ConnectionAborted,
    /// The archive is malformed, or an entry did not yield its declared size.
    Decode,
    /// An entry name cannot be turned into a destination key.
    Path,
}

/// An error: its kind and a message for the user.
#[derive(Clone, Debug)]
pub struct Error {
    pub kind: ErrorKind,
    pub message: String,
}

impl Error {
    pub fn new(kind: ErrorKind, message: String) -> (r: Error)
        ensures
            r.kind == kind,
            r.message@ == message@,
    {
        Error { kind, message }
    }

    /// The message, as it is shown to the user.
    pub fn to_string(&self) -> (r: String)
        ensures
            r@ == self.message@,
    {
        self.message.clone()
    }
}

/// An error of kind `InvalidInput` carrying `err_text`.
pub fn new_invalid_input_error(err_text: String) -> (r: Error)
    ensures
        r.kind == ErrorKind::InvalidInput,
        r.message@ == err_text@,
{
    Error::new(ErrorKind::InvalidInput, err_text)
}

} // verus!
