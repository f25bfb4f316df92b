//! Errors that cross the boundary between host callbacks and the engine, and
//! the engine's integer return codes.

use vstd::prelude::*;

verus! {

/// Engine return code for success.
pub const CODE_OK: i32 = 0;

/// The engine's generic failure code; also what a captured host panic
/// becomes.
pub const CODE_ERROR: i32 = -1;

/// Engine return code that selects bypass: the content is left as it is.
pub const CODE_PASSTHROUGH: i32 = -30;

/// An error with the raw engine code it travels under and a message.
#[derive(Debug)]
pub struct Error {
    code: i32,
    message: String,
}

/// What an [`Error`] holds, as plain mathematical values.
pub struct ErrorView {
    pub code: int,
    pub message: Seq<char>,
}

impl View for Error {
    type V = ErrorView;

    closed spec fn view(&self) -> ErrorView {
        ErrorView { code: self.code as int, message: self.message@ }
    }
}

impl Error {
    /// An error carrying the raw engine code `code`.
    pub fn new(code: i32, message: &str) -> (e: Error)
        ensures
            e@.code == code,
            e@.message == message@,
    {
        Error { code, message: message.to_owned() }
    }

    /// An error raised on the host side with no engine code of its own; it
    /// travels under the generic failure code.
    pub fn from_str(message: &str) -> (e: Error)
        ensures
            e@.code == CODE_ERROR,
            e@.message == message@,
    {
        Error { code: CODE_ERROR, message: message.to_owned() }
    }

    /// The raw engine code this error carries.
    pub fn raw_code(&self) -> (code: i32)
        ensures
            code == self@.code,
    {
        self.code
    }

    /// The message of this error.
    pub fn message(&self) -> (m: &str)
        ensures
            m@ == self@.message,
    {
        self.message.as_str()
    }
}

/// Reads the outcome of an engine call from its return code: a negative code
/// is a failure that carries the code and `message`, anything else a
/// success.
pub fn engine_result(code: i32, message: &str) -> (r: Result<(), Error>)
    ensures
        code >= 0 ==> r is Ok,
        code < 0 ==> r is Err && r->Err_0@.code == code && r->Err_0@.message == message@,
{
    if code < 0 {
        Err(Error::new(code, message))
    } else {
        Ok(())
    }
}

} // verus!
