//! What the front end says to the server and how it reads the answer: the
//! addresses it asks, the header it identifies itself with, and the code an
//! answer is filed under.

use crate::date::Date;
use crate::error::BambooError;
use crate::text::{decimal, decimal_text};
use vstd::prelude::*;
use vstd::std_specs::convert::FromSpecImpl;
use vstd::string::StringExecFns;

verus! {

/// The code a request ended with: the HTTP status of the answer, or a
/// negative number where no usable answer came.
#[derive(Clone, Copy, Debug, PartialEq, Eq, PartialOrd, Ord, Structural)]
pub struct ErrorCode(pub i32);

pub const SEND_ERROR: i32 = -1;

pub const JSON_SERIALIZE_ERROR: i32 = -2;

pub const JSON_DESERIALIZE_ERROR: i32 = -3;

pub const NO_CONTENT: i32 = 204;

pub const FORBIDDEN: i32 = 403;

pub const NOT_FOUND: i32 = 404;

pub const CONFLICT: i32 = 409;

pub const INTERNAL_SERVER_ERROR: i32 = 500;

impl From<i32> for ErrorCode {
    fn from(value: i32) -> (code: Self) {
        ErrorCode(value)
    }
}

impl FromSpecImpl<i32> for ErrorCode {
    open spec fn obeys_from_spec() -> bool {
        true
    }

    open spec fn from_spec(value: i32) -> Self {
        ErrorCode(value)
    }
}

impl ErrorCode {

    /// A code is written as its number.
    pub fn to_string(&self) -> (text: String)
        ensures
            text@ == decimal_text(self.0 as int),
    {
        decimal(self.0 as i64)
    }
}

/// How a request ended.
#[derive(Clone, Copy, Debug, PartialEq, Eq, Structural)]
pub enum Reply {
    /// The request could not be sent.
    Unsent,
    /// The server answered with a status from 200 to 299.
    Accepted,
    /// The server answered with another status, kept as the code.
    Refused(ErrorCode),
}

impl Reply {
    /// How a request ended whose answer had `status`, or that got no answer.
    pub open spec fn of(status: Option<u16>) -> Reply {
        match status {
            None => Reply::Unsent,
            Some(status) => if 199 < status && 300 > status {
                Reply::Accepted
            } else {
                Reply::Refused(ErrorCode(status as i32))
            },
        }
    }

    pub fn from_status(status: Option<u16>) -> (reply: Reply)
        ensures
            reply == Reply::of(status),
    {
        match status {
            None => Reply::Unsent,
            Some(status) => if 199 < status && 300 > status {
                Reply::Accepted
            } else {
                Reply::Refused(ErrorCode::from(status as i32))
            },
        }
    }

    /// The code an error is reported under, for a request that did not end
    /// well: no code for an accepted one.
    pub fn error_code(&self) -> (code: Option<ErrorCode>)
        ensures
            code == match *self {
                Reply::Unsent => Some(ErrorCode(SEND_ERROR)),
                Reply::Accepted => None,
                Reply::Refused(code) => Some(code),
            },
    {
        match self {
            Reply::Unsent => Some(ErrorCode(SEND_ERROR)),
            Reply::Accepted => None,
            Reply::Refused(code) => Some(*code),
        }
    }
}

/// Why a request gave nothing: the code it ended with, and the error the
/// server sent along, where it was the server that refused.
#[derive(Clone, Debug, PartialEq, Eq)]
pub struct ApiError {
    pub code: ErrorCode,
    pub error: Option<BambooError>,
}

impl ApiError {
    /// A failure on this side of the wire: there is no error of the server
    /// to go with it.
    pub fn local(code: i32) -> (failure: Self)
        ensures
            failure.code == ErrorCode(code),
            failure.error is None,
    {
        ApiError { code: ErrorCode(code), error: None }
    }

    /// A request that could not be sent.
    pub fn unsent() -> (failure: Self)
        ensures
            failure.code == ErrorCode(SEND_ERROR),
            failure.error is None,
    {
        Self::local(SEND_ERROR)
    }

    /// A request whose body could not be written as JSON.
    pub fn unwritten() -> (failure: Self)
        ensures
            failure.code == ErrorCode(JSON_SERIALIZE_ERROR),
            failure.error is None,
    {
        Self::local(JSON_SERIALIZE_ERROR)
    }

    /// A request the server refused with `status`, saying why.
    pub fn refused(status: u16, error: BambooError) -> (failure: Self)
        ensures
            failure.code == ErrorCode(status as i32),
            failure.error == Some(error),
    {
        ApiError { code: ErrorCode::from(status as i32), error: Some(error) }
    }
}

/// What an accepted request gives: the body, where it could be read as
/// what was expected.
pub fn accepted<T>(body: Option<T>) -> (answer: Result<T, ApiError>)
    ensures
        match body {
            Some(value) => answer == Ok::<T, ApiError>(value),
            None => answer matches Err(failure) && failure.code == ErrorCode(
                JSON_DESERIALIZE_ERROR,
            ) && failure.error is None,
        },
{
    match body {
        Some(value) => Ok(value),
        None => Err(ApiError::local(JSON_DESERIALIZE_ERROR)),
    }
}

/// What a request gives that expects a body back. `status` is the status
/// of the answer, if one came; `body` is the answer read as what was
/// expected, if it could be read so; `error` is the answer read as an
/// error. An answer that the server refused must be readable as an error.
pub fn handle_response<T>(status: Option<u16>, body: Option<T>, error: Option<BambooError>) -> (answer:
    Result<T, ApiError>)
    requires
        Reply::of(status) is Refused ==> error is Some,
    ensures
        match Reply::of(status) {
            Reply::Unsent => answer matches Err(failure) && failure.code == ErrorCode(SEND_ERROR)
                && failure.error is None,
            Reply::Accepted => match body {
                Some(value) => answer == Ok::<T, ApiError>(value),
                None => answer matches Err(failure) && failure.code == ErrorCode(
                    JSON_DESERIALIZE_ERROR,
                ) && failure.error is None,
            },
            Reply::Refused(code) => answer matches Err(failure) && failure.code == code
                && failure.error == error,
        },
{
    match Reply::from_status(status) {
        Reply::Unsent => Err(ApiError::unsent()),
        Reply::Accepted => accepted(body),
        Reply::Refused(code) => Err(ApiError { code, error }),
    }
}

/// What a request gives that expects no body back: nothing, where the
/// server accepted it.
pub fn handle_response_code(status: Option<u16>, error: Option<BambooError>) -> (answer: Result<
    (),
    ApiError,
>)
    requires
        Reply::of(status) is Refused ==> error is Some,
    ensures
        match Reply::of(status) {
            Reply::Unsent => answer matches Err(failure) && failure.code == ErrorCode(SEND_ERROR)
                && failure.error is None,
            Reply::Accepted => answer is Ok,
            Reply::Refused(code) => answer matches Err(failure) && failure.code == code
                && failure.error == error,
        },
{
    match Reply::from_status(status) {
        Reply::Unsent => Err(ApiError::unsent()),
        Reply::Accepted => Ok(()),
        Reply::Refused(code) => Err(ApiError { code, error }),
    }
}

/// The body of a request, where it could be written as JSON; a request
/// whose body could not be written is not sent and ends with the code for
/// that.
pub fn request_body<B>(written: Option<B>) -> (body: Result<B, ApiError>)
    ensures
        match written {
            Some(text) => body == Ok::<B, ApiError>(text),
            None => body matches Err(failure) && failure.code == ErrorCode(JSON_SERIALIZE_ERROR)
                && failure.error is None,
        },
{
    match written {
        Some(text) => Ok(text),
        None => Err(ApiError::unwritten()),
    }
}

/// Whether the session token is thrown away after the own profile was
/// asked for: it is of no use where the profile could not be had.
pub fn forgets_token<T>(profile: &Result<T, ApiError>) -> (forgets: bool)
    ensures
        forgets == profile is Err,
{
    match profile {
        Ok(_) => false,
        Err(_) => true,
    }
}

/// The value of the `Authorization` header for a session token.
pub fn authorization(token: &str) -> (header: String)
    ensures
        header@ == "Sheef "@ + token@,
{
    String::from_str("Sheef ").concat(token)
}

/// Where the calendar of a month is asked for.
pub fn calendar_uri(year: i32, month: u32) -> (uri: String)
    ensures
        uri@ == "/api/calendar?year="@ + decimal_text(year as int) + "&month="@ + decimal_text(
            month as int,
        ),
{
    let year_text = decimal(year as i64);
    let month_text = decimal(month as i64);
    String::from_str("/api/calendar?year=").concat(year_text.as_str()).concat("&month=").concat(
        month_text.as_str(),
    )
}

/// Where the own availability on a day is stored.
pub fn availability_uri(date: &Date) -> (uri: String)
    ensures
        uri@ == "/api/calendar/"@ + decimal_text(date.year() as int) + "/"@ + decimal_text(
            date.month() as int,
        ) + "/"@ + decimal_text(date.day() as int),
{
    let year_text = decimal(date.year() as i64);
    let month_text = decimal(date.month() as i64);
    let day_text = decimal(date.day() as i64);
    String::from_str("/api/calendar/").concat(year_text.as_str()).concat("/").concat(
        month_text.as_str(),
    ).concat("/").concat(day_text.as_str())
}

/// Where the own characters are listed and new ones are stored.
pub fn characters_uri() -> (uri: String)
    ensures
        uri@ == "/api/final-fantasy/character"@,
{
    String::from_str("/api/final-fantasy/character")
}

/// Where the character with this id is changed and removed.
pub fn character_uri(id: i32) -> (uri: String)
    ensures
        uri@ == "/api/final-fantasy/character/"@ + decimal_text(id as int),
{
    let id_text = decimal(id as i64);
    String::from_str("/api/final-fantasy/character/").concat(id_text.as_str())
}

} // verus!
