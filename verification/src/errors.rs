use vstd::prelude::*;
use crate::fields::{owned_text_field, ranged_of, text_of, u16_field, value_of};
use crate::json::{parse_json, parsed_document, Json, JsonValue};

verus! {

/// Why a decode failed.
#[derive(Debug, Clone)]
pub enum DecodeError {
    /// A string that should hold a number does not.
    InvalidNumber,
    /// A timestamp is not a date-time, or lies outside the supported range.
    InvalidTimestamp,
    /// An enumeration's string is not in its table.
    UnknownVariant { field: String, value: String },
    /// The payload is not JSON, a required member is missing, or a member
    /// has the wrong JSON type.
    MalformedPayload,
}

/// The mathematical value of a [`DecodeError`].
pub enum DecodeFailure {
    InvalidNumber,
    InvalidTimestamp,
    UnknownVariant { field: Seq<char>, value: Seq<char> },
    MalformedPayload,
}

impl View for DecodeError {
    type V = DecodeFailure;

    open spec fn view(&self) -> DecodeFailure {
        match self {
            DecodeError::InvalidNumber => DecodeFailure::InvalidNumber,
            DecodeError::InvalidTimestamp => DecodeFailure::InvalidTimestamp,
            DecodeError::UnknownVariant { field, value } => DecodeFailure::UnknownVariant {
                field: field@,
                value: value@,
            },
            DecodeError::MalformedPayload => DecodeFailure::MalformedPayload,
        }
    }
}

/// The mathematical value of a result whose success has a view.
pub open spec fn viewed_result<T: View>(r: Result<T, DecodeError>) -> Result<T::V, DecodeFailure> {
    match r {
        Ok(v) => Ok(v@),
        Err(e) => Err(e@),
    }
}

/// The mathematical value of a result whose success is a plain value.
pub open spec fn plain_result<T>(r: Result<T, DecodeError>) -> Result<T, DecodeFailure> {
    match r {
        Ok(v) => Ok(v),
        Err(e) => Err(e@),
    }
}

impl DecodeError {
    /// The error for a string `value` that is not in the table of `field`.
    pub fn unknown_variant(field: &str, value: &str) -> (e: DecodeError)
        ensures
            e@ == (DecodeFailure::UnknownVariant { field: field@, value: value@ }),
    {
        DecodeError::UnknownVariant { field: field.to_owned(), value: value.to_owned() }
    }
}

#[verifier::external_type_specification]
#[verifier::external_body]
pub struct ExStatusCode(http_serde::http::StatusCode);

#[verifier::external_type_specification]
#[verifier::external_body]
pub struct ExInvalidStatusCode(http_serde::http::status::InvalidStatusCode);

/// The status code that `http` makes of a number from 100 to 999.
pub uninterp spec fn status_code(number: u16) -> http_serde::http::StatusCode;

/// Calls `http::StatusCode::from_u16`. The contract claims that the call
/// succeeds exactly for the numbers from 100 to 999, and that the code
/// depends on the number alone.
#[verifier::external_body]
fn make_status_code(number: u16) -> (r: Result<
    http_serde::http::StatusCode,
    http_serde::http::status::InvalidStatusCode,
>)
    ensures
        r is Ok <==> 100 <= number <= 999,
        r matches Ok(code) ==> code == status_code(number),
{
    http_serde::http::StatusCode::from_u16(number)
}

/// A member that must be a number from 100 to 999, as a status code.
pub open spec fn status_of(v: Option<JsonValue>) -> Result<
    http_serde::http::StatusCode,
    DecodeFailure,
> {
    match ranged_of(v, 100, 999) {
        Ok(n) => Ok(status_code(n as u16)),
        Err(e) => Err(e),
    }
}

/// Reads a member that must be a number from 100 to 999, as a status code.
pub fn status_field(v: Option<&Json>) -> (r: Result<http_serde::http::StatusCode, DecodeError>)
    ensures
        plain_result(r) == status_of(value_of(v)),
{
    match u16_field(v) {
        Ok(n) => match make_status_code(n) {
            Ok(code) => Ok(code),
            Err(_) => Err(DecodeError::MalformedPayload),
        },
        Err(e) => Err(e),
    }
}

/// The message that the API sends when a call went wrong.
#[derive(Debug)]
pub struct ErrorMessage {
    /// The HTTP status of the error.
    pub code: http_serde::http::StatusCode,
    /// What went wrong.
    pub message: String,
}

/// The mathematical value of an error message.
pub struct ErrorMessageView {
    pub code: http_serde::http::StatusCode,
    pub message: Seq<char>,
}

impl View for ErrorMessage {
    type V = ErrorMessageView;

    open spec fn view(&self) -> ErrorMessageView {
        ErrorMessageView {
            code: self.code,
            message: self.message@,
        }
    }
}

impl ErrorMessage {
    /// What [`ErrorMessage::from_json`] returns for the document `j`: the first
    /// failure among the members, in the order of the fields, or else the
    /// value that the members give.
    pub open spec fn decoded(j: JsonValue) -> Result<ErrorMessageView, DecodeFailure> {
        let code = status_of(j.member("code"@));
        let message = text_of(j.member("message"@));
        if code is Err {
            Err(code->Err_0)
        } else if message is Err {
            Err(message->Err_0)
        } else {
            Ok(
                ErrorMessageView {
                    code: code->Ok_0,
                    message: message->Ok_0,
                },
            )
        }
    }

    /// What [`ErrorMessage::field`] returns for a member: the member must be there.
    pub open spec fn member(v: Option<JsonValue>) -> Result<ErrorMessageView, DecodeFailure> {
        match v {
            Some(j) => ErrorMessage::decoded(j),
            None => Err(DecodeFailure::MalformedPayload),
        }
    }

    /// What [`ErrorMessage::from_bytes`] returns for the given bytes.
    pub open spec fn decoded_bytes(bytes: Seq<u8>) -> Result<ErrorMessageView, DecodeFailure> {
        ErrorMessage::member(parsed_document(bytes))
    }

    /// Reads an error message from a JSON document.
    pub fn from_json(j: &Json) -> (r: Result<ErrorMessage, DecodeError>)
        ensures
            viewed_result(r) == ErrorMessage::decoded(j@),
    {
        let code = match status_field(j.get("code")) {
            Ok(v) => v,
            Err(e) => return Err(e),
        };
        let message = match owned_text_field(j.get("message")) {
            Ok(v) => v,
            Err(e) => return Err(e),
        };
        Ok(ErrorMessage { code, message })
    }

    /// Reads an error message from a member, which must be there.
    pub fn field(v: Option<&Json>) -> (r: Result<ErrorMessage, DecodeError>)
        ensures
            viewed_result(r) == ErrorMessage::member(value_of(v)),
    {
        match v {
            Some(j) => ErrorMessage::from_json(j),
            None => Err(DecodeError::MalformedPayload),
        }
    }

    /// Reads an error message from the bytes of a JSON document. Bytes that are no
    /// JSON make a malformed payload.
    pub fn from_bytes(bytes: &[u8]) -> (r: Result<ErrorMessage, DecodeError>)
        ensures
            viewed_result(r) == ErrorMessage::decoded_bytes(bytes@),
    {
        match parse_json(bytes) {
            Some(j) => ErrorMessage::from_json(&j),
            None => Err(DecodeError::MalformedPayload),
        }
    }
}
} // verus!
