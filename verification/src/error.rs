//! Error codes of libopus, the library's error type, and the checks that turn
//! a libopus return code into a `Result`.

use vstd::prelude::*;
use crate::defines::{
    OPUS_ALLOC_FAIL, OPUS_BAD_ARG, OPUS_BUFFER_TOO_SMALL, OPUS_INTERNAL_ERROR, OPUS_INVALID_PACKET,
    OPUS_INVALID_STATE, OPUS_UNIMPLEMENTED,
};

verus! {

/// Possible error codes.
#[derive(Debug, Copy, Clone, PartialEq, Eq, Structural, Hash)]
pub enum ErrorCode {
    /// One or more invalid/out of range arguments.
    BadArg,
    /// Not enough bytes allocated in the buffer.
    BufferTooSmall,
    /// An internal error was detected.
    InternalError,
    /// The compressed data passed is corrupted.
    InvalidPacket,
    /// Invalid/unsupported request number.
    Unimplemented,
    /// An encoder or decoder structure is invalid or already freed.
    InvalidState,
    /// Memory allocation has failed.
    AllocFail,
    /// An unknown failure.
    Unknown,
}

/// The text that libopus's `opus_strerror` gives for an error number: the
/// table of its source, with "unknown error" outside `-7..=0`.
pub open spec fn strerror(error: int) -> Seq<char> {
    if error > 0 || error < -7 {
        "unknown error"@
    } else if error == 0 {
        "success"@
    } else if error == -1 {
        "invalid argument"@
    } else if error == -2 {
        "buffer too small"@
    } else if error == -3 {
        "internal error"@
    } else if error == -4 {
        "corrupted stream"@
    } else if error == -5 {
        "request not implemented"@
    } else if error == -6 {
        "invalid state"@
    } else {
        "memory allocation failed"@
    }
}

impl ErrorCode {
    /// The error code that a libopus return value stands for.
    pub open spec fn of(value: int) -> ErrorCode {
        if value == OPUS_BAD_ARG {
            ErrorCode::BadArg
        } else if value == OPUS_BUFFER_TOO_SMALL {
            ErrorCode::BufferTooSmall
        } else if value == OPUS_INTERNAL_ERROR {
            ErrorCode::InternalError
        } else if value == OPUS_INVALID_PACKET {
            ErrorCode::InvalidPacket
        } else if value == OPUS_UNIMPLEMENTED {
            ErrorCode::Unimplemented
        } else if value == OPUS_INVALID_STATE {
            ErrorCode::InvalidState
        } else if value == OPUS_ALLOC_FAIL {
            ErrorCode::AllocFail
        } else {
            ErrorCode::Unknown
        }
    }

    /// The number that stands for this code: the libopus error number, and
    /// -8 for `Unknown`.
    pub open spec fn value(self) -> int {
        match self {
            ErrorCode::BadArg => OPUS_BAD_ARG as int,
            ErrorCode::BufferTooSmall => OPUS_BUFFER_TOO_SMALL as int,
            ErrorCode::InternalError => OPUS_INTERNAL_ERROR as int,
            ErrorCode::InvalidPacket => OPUS_INVALID_PACKET as int,
            ErrorCode::Unimplemented => OPUS_UNIMPLEMENTED as int,
            ErrorCode::InvalidState => OPUS_INVALID_STATE as int,
            ErrorCode::AllocFail => OPUS_ALLOC_FAIL as int,
            ErrorCode::Unknown => -8,
        }
    }

    /// The number that stands for this code.
    pub fn raw(self) -> (r: i32)
        ensures
            r as int == self.value(),
    {
        match self {
            ErrorCode::BadArg => OPUS_BAD_ARG,
            ErrorCode::BufferTooSmall => OPUS_BUFFER_TOO_SMALL,
            ErrorCode::InternalError => OPUS_INTERNAL_ERROR,
            ErrorCode::InvalidPacket => OPUS_INVALID_PACKET,
            ErrorCode::Unimplemented => OPUS_UNIMPLEMENTED,
            ErrorCode::InvalidState => OPUS_INVALID_STATE,
            ErrorCode::AllocFail => OPUS_ALLOC_FAIL,
            ErrorCode::Unknown => -8,
        }
    }

    /// Classify a libopus return value.
    pub fn from_int(value: i32) -> (r: ErrorCode)
        ensures
            r == ErrorCode::of(value as int),
    {
        match value {
            OPUS_BAD_ARG => ErrorCode::BadArg,
            OPUS_BUFFER_TOO_SMALL => ErrorCode::BufferTooSmall,
            OPUS_INTERNAL_ERROR => ErrorCode::InternalError,
            OPUS_INVALID_PACKET => ErrorCode::InvalidPacket,
            OPUS_UNIMPLEMENTED => ErrorCode::Unimplemented,
            OPUS_INVALID_STATE => ErrorCode::InvalidState,
            OPUS_ALLOC_FAIL => ErrorCode::AllocFail,
            _ => ErrorCode::Unknown,
        }
    }

    /// Get a human-readable error string for this error code.
    pub fn description(self) -> (r: &'static str)
        ensures
            r@ == strerror(self.value()),
    {
        match self {
            ErrorCode::BadArg => "invalid argument",
            ErrorCode::BufferTooSmall => "buffer too small",
            ErrorCode::InternalError => "internal error",
            ErrorCode::InvalidPacket => "corrupted stream",
            ErrorCode::Unimplemented => "request not implemented",
            ErrorCode::InvalidState => "invalid state",
            ErrorCode::AllocFail => "memory allocation failed",
            ErrorCode::Unknown => "unknown error",
        }
    }
}

/// An error generated by the Opus library.
#[derive(Debug)]
pub struct Error {
    function: &'static str,
    code: ErrorCode,
}

/// What an [`Error`] holds: the name of the libopus function that failed and
/// the error code.
pub struct ErrorView {
    pub function: Seq<char>,
    pub code: ErrorCode,
}

impl View for Error {
    type V = ErrorView;

    closed spec fn view(&self) -> ErrorView {
        ErrorView { function: self.function@, code: self.code }
    }
}

/// Opus error Result alias.
pub type Result<T> = std::result::Result<T, Error>;

/// The error that `function` reports when libopus returns `code`.
pub open spec fn failure(function: Seq<char>, code: int) -> ErrorView {
    ErrorView { function, code: ErrorCode::of(code) }
}

/// The error that reports an invalid argument to `function`.
pub open spec fn bad_arg(function: Seq<char>) -> ErrorView {
    ErrorView { function, code: ErrorCode::BadArg }
}

/// A result with its error taken by its view.
pub open spec fn view_result<T>(r: Result<T>) -> std::result::Result<T, ErrorView> {
    match r {
        Ok(v) => Ok(v),
        Err(e) => Err(e@),
    }
}

/// The outcome of a libopus call that returns a count or an error: a negative
/// return is the error of that number, any other is the count.
pub open spec fn counted(function: Seq<char>, code: i32) -> std::result::Result<usize, ErrorView> {
    if code < 0 {
        Err(failure(function, code as int))
    } else {
        Ok(code as usize)
    }
}

/// The outcome of a libopus call whose return only reports success: a
/// negative return is the error of that number.
pub open spec fn done(function: Seq<char>, code: i32) -> std::result::Result<(), ErrorView> {
    if code < 0 {
        Err(failure(function, code as int))
    } else {
        Ok(())
    }
}

/// The outcome of a libopus call that reports a value: a negative return is
/// the error of that number, any other gives `ok`, what the value stands for.
pub open spec fn reported<T>(
    function: Seq<char>,
    code: i32,
    ok: std::result::Result<T, ErrorView>,
) -> std::result::Result<T, ErrorView> {
    if code < 0 {
        Err(failure(function, code as int))
    } else {
        ok
    }
}

impl Error {
    /// The error for an invalid argument to `what`.
    pub fn bad_arg(what: &'static str) -> (r: Error)
        ensures
            r@ == bad_arg(what@),
    {
        Error { function: what, code: ErrorCode::BadArg }
    }

    /// The error for the return value `code` of `what`.
    pub fn from_code(what: &'static str, code: i32) -> (r: Error)
        ensures
            r@ == failure(what@, code as int),
    {
        Error { function: what, code: ErrorCode::from_int(code) }
    }

    /// Get the name of the Opus function from which the error originated.
    pub fn function(&self) -> (r: &'static str)
        ensures
            r@ == self@.function,
    {
        self.function
    }

    /// Get a textual description of the error provided by Opus.
    pub fn description(&self) -> (r: &'static str)
        ensures
            r@ == strerror(self@.code.value()),
    {
        self.code.description()
    }

    /// Get the Opus error code of the error.
    pub fn code(&self) -> (r: ErrorCode)
        ensures
            r == self@.code,
    {
        self.code
    }

    /// The error as text: the function's name, a colon and the description.
    pub fn to_string(&self) -> (r: String)
        ensures
            r@ == self@.function + ": "@ + strerror(self@.code.value()),
    {
        let mut text = self.function.to_owned();
        text.append(": ");
        text.append(self.code.description());
        text
    }
}

/// Every error code reads back as itself from its number.
pub proof fn error_code_round_trip(code: ErrorCode)
    ensures
        ErrorCode::of(code.value()) == code,
{
}

/// The description of the error that a negative libopus return value gives
/// is the text that `opus_strerror` gives for that value.
pub proof fn failure_description(function: Seq<char>, code: int)
    requires
        code < 0,
    ensures
        strerror(failure(function, code).code.value()) == strerror(code),
{
}

/// A negative libopus return value from -7 to -1 is kept exactly in the error
/// it gives.
pub proof fn failure_keeps_code(function: Seq<char>, code: int)
    requires
        -7 <= code < 0,
    ensures
        failure(function, code).code.value() == code,
{
}

/// A count that libopus returns is reported unchanged: every return value
/// that is not negative is the count itself, and every negative one is the
/// error of that number, named after the function.
pub proof fn count_reported_unchanged(function: Seq<char>, code: i32)
    ensures
        code >= 0 ==> (counted(function, code) matches Ok(n) && n == code),
        code < 0 ==> (counted(function, code) matches Err(e) && e.function == function && e.code
            == ErrorCode::of(code as int)),
{
}

/// A call whose return only reports success succeeds exactly when it returns
/// a number that is not negative; a negative one is the error of that number.
pub proof fn success_reported_unchanged(function: Seq<char>, code: i32)
    ensures
        done(function, code) is Ok <==> code >= 0,
        code < 0 ==> (done(function, code) matches Err(e) && e.function == function && e.code
            == ErrorCode::of(code as int)),
{
}

/// A call that reports a value gives what the value stands for exactly when
/// its return is not negative; a negative one is the error of that number.
pub proof fn value_reported_on_success<T>(function: Seq<char>, code: i32, ok: std::result::Result<T, ErrorView>)
    ensures
        code >= 0 ==> reported(function, code, ok) == ok,
        code < 0 ==> (reported(function, code, ok) matches Err(e) && e.function == function && e.code
            == ErrorCode::of(code as int)),
{
}

/// Check a count returned by libopus.
pub fn check_count(function: &'static str, code: i32) -> (r: Result<usize>)
    ensures
        view_result(r) == counted(function@, code),
        code >= 0 ==> (r matches Ok(n) && n == code),
        code < 0 ==> (r matches Err(e) && e@ == failure(function@, code as int)),
{
    if code < 0 {
        Err(Error::from_code(function, code))
    } else {
        Ok(code as usize)
    }
}

/// Check a return value of libopus that only reports success.
pub fn check_done(function: &'static str, code: i32) -> (r: Result<()>)
    ensures
        view_result(r) == done(function@, code),
        code >= 0 <==> r is Ok,
        code < 0 ==> (r matches Err(e) && e@ == failure(function@, code as int)),
{
    if code < 0 {
        Err(Error::from_code(function, code))
    } else {
        Ok(())
    }
}

/// A length as the C `int` that libopus takes.
pub fn check_len(val: usize) -> (r: i32)
    requires
        val <= i32::MAX,
    ensures
        r == val,
{
    val as i32
}

/// The length of a slice as the C `int` that libopus takes.
pub fn len<T>(slice: &[T]) -> (r: i32)
    requires
        slice@.len() <= i32::MAX,
    ensures
        r == slice@.len(),
{
    check_len(slice.len())
}

} // verus!
