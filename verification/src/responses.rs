//! Error responses of the API: a message with the moment it was created,
//! paired with an HTTP status code.

use vstd::prelude::*;

verus! {

/// HTTP status codes used by the API.
pub const OK: u16 = 200;
pub const BAD_REQUEST: u16 = 400;
pub const UNAUTHORIZED: u16 = 401;
pub const FORBIDDEN: u16 = 403;
pub const NOT_FOUND: u16 = 404;
pub const INTERNAL_SERVER_ERROR: u16 = 500;

/// A moment in time as seconds since the UNIX epoch plus nanoseconds.
#[derive(Clone, Copy, Debug, PartialEq, Eq)]
pub struct Timestamp {
    pub secs: i64,
    pub nanos: u32,
}

/// Whether `secs` seconds after the epoch is a moment chrono can represent
/// as a UTC date and time (from the first second of year -262143 to the
/// last of year 262142).
pub open spec fn in_chrono_range(secs: int) -> bool {
    -8_334_601_228_800 <= secs <= 8_210_266_876_799
}

/// A reading of the system clock. Its field is private and only
/// `utc_now` makes one, so the contracts that speak of "a clock reading"
/// speak of a value of this type: a time the clock gave during the call.
#[derive(Clone, Copy, Debug)]
pub struct ClockReading {
    time: Timestamp,
}

impl ClockReading {
    /// The time read.
    pub closed spec fn spec_time(self) -> Timestamp {
        self.time
    }

    /// The time read.
    pub fn time(&self) -> (t: Timestamp)
        ensures
            t == self.spec_time(),
    {
        self.time
    }
}

/// The current UTC time, read from the system clock through
/// `chrono::Utc::now`. Which moment it is, the clock decides; what holds of
/// every reading is that chrono could represent it (`now` panics
/// otherwise) and that the nanoseconds are below one second.
#[verifier::external_body]
pub(crate) fn utc_now() -> (c: ClockReading)
    ensures
        in_chrono_range(c.spec_time().secs as int),
        c.spec_time().nanos < 1_000_000_000,
{
    let now = chrono::Utc::now();
    ClockReading { time: Timestamp { secs: now.timestamp(), nanos: now.timestamp_subsec_nanos() } }
}

/// Whether `t` is the time of the clock reading `c`.
pub open spec fn is_clock_stamp(t: Timestamp, c: ClockReading) -> bool {
    t == c.spec_time()
}

/// A simple API error: a message and the moment the error was created.
#[derive(Clone, Debug)]
pub struct SimpleError {
    error: String,
    timestamp: Timestamp,
}

impl View for SimpleError {
    type V = Seq<char>;

    /// The error message.
    closed spec fn view(&self) -> Seq<char> {
        self.error@
    }
}

impl SimpleError {
    /// Creates an error with the given message, stamped with `timestamp`.
    pub fn with_timestamp(msg: String, timestamp: Timestamp) -> (e: SimpleError)
        ensures
            e@ == msg@,
            e.created_at() == timestamp,
    {
        SimpleError { error: msg, timestamp }
    }

    /// Creates an error with the given message, stamped with the current time.
    pub fn from_string(msg: String) -> (e: SimpleError)
        ensures
            e@ == msg@,
            exists|c: ClockReading| #[trigger] is_clock_stamp(e.created_at(), c),
            in_chrono_range(e.created_at().secs as int),
            e.created_at().nanos < 1_000_000_000,
    {
        let now = utc_now();
        let e = SimpleError::with_timestamp(msg, now.time());
        assert(is_clock_stamp(e.created_at(), now));
        e
    }

    /// Creates an error with the given message, stamped with the current time.
    pub fn from_message(msg: &str) -> (e: SimpleError)
        ensures
            e@ == msg@,
            in_chrono_range(e.created_at().secs as int),
            e.created_at().nanos < 1_000_000_000,
    {
        SimpleError::from_string(msg.to_string())
    }

    /// A generic "internal server error", for failures that should almost
    /// never happen during a request.
    pub fn internal() -> (e: SimpleError)
        ensures
            e@ == "internal server error"@,
            in_chrono_range(e.created_at().secs as int),
    {
        SimpleError::from_message("internal server error")
    }

    /// The error for an entity that does not exist or is not visible to the
    /// request user.
    pub fn entity_not_found() -> (e: SimpleError)
        ensures
            e@ == "entity not found"@,
            in_chrono_range(e.created_at().secs as int),
    {
        SimpleError::from_message("entity not found")
    }

    /// The error message.
    pub fn message(&self) -> (m: &str)
        ensures
            m@ == self@,
    {
        self.error.as_str()
    }

    /// When the error was created (the clock reading taken by its constructor).
    pub closed spec fn created_at(&self) -> Timestamp {
        self.timestamp
    }

    /// When the error was created.
    pub fn timestamp(&self) -> (t: Timestamp)
        ensures
            t == self.created_at(),
    {
        self.timestamp
    }
}

/// An error response: HTTP status code and error body.
pub type ApiError = (u16, SimpleError);

/// Whether `e` is the response with status `status` and message `msg`.
pub open spec fn is_error(e: ApiError, status: u16, msg: Seq<char>) -> bool {
    e.0 == status && e.1@ == msg
}

/// `500 internal server error`.
pub fn internal_error_res() -> (r: ApiError)
    ensures
        is_error(r, INTERNAL_SERVER_ERROR, "internal server error"@),
{
    (INTERNAL_SERVER_ERROR, SimpleError::internal())
}

/// A `500` response with a custom message.
pub fn internal_error_msg(msg: &str) -> (r: ApiError)
    ensures
        is_error(r, INTERNAL_SERVER_ERROR, msg@),
{
    (INTERNAL_SERVER_ERROR, SimpleError::from_message(msg))
}

/// Builds an error response with a literal message.
pub fn api_error(status: u16, msg: &str) -> (r: ApiError)
    ensures
        is_error(r, status, msg@),
{
    (status, SimpleError::from_message(msg))
}

/// Builds an error response with a computed message.
pub fn api_error_string(status: u16, msg: String) -> (r: ApiError)
    ensures
        is_error(r, status, msg@),
{
    (status, SimpleError::from_string(msg))
}

/// The value found, or the given error response when nothing was found.
pub fn require_found<T>(found: Option<T>, status: u16, msg: &str) -> (r: Result<T, ApiError>)
    ensures
        match found {
            Some(v) => r == Ok::<T, ApiError>(v),
            None => r matches Err(e) && is_error(e, status, msg@),
        },
{
    match found {
        Some(v) => Ok(v),
        None => Err(api_error(status, msg)),
    }
}

} // verus!
