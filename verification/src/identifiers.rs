use vstd::prelude::*;
use crate::errors::{plain_result, DecodeError, DecodeFailure};

verus! {

#[verifier::external_type_specification]
#[verifier::external_body]
pub struct ExUuid(uuid::Uuid);

#[verifier::external_type_specification]
#[verifier::external_body]
pub struct ExUuidError(uuid::Error);

/// The identifier that `uuid` reads from a text, if it reads one.
pub uninterp spec fn uuid_value(text: Seq<char>) -> Option<uuid::Uuid>;

/// Calls `uuid::Uuid::parse_str`. The contract claims that the outcome
/// depends on the text alone.
#[verifier::external_body]
fn read_uuid(text: &str) -> (r: Result<uuid::Uuid, uuid::Error>)
    ensures
        r is Ok <==> uuid_value(text@) is Some,
        r matches Ok(id) ==> uuid_value(text@) == Some(id),
{
    uuid::Uuid::parse_str(text)
}

/// What [`parse_uuid`] returns for the given text.
pub open spec fn uuid_of(text: Seq<char>) -> Result<uuid::Uuid, DecodeFailure> {
    match uuid_value(text) {
        Some(id) => Ok(id),
        None => Err(DecodeFailure::MalformedPayload),
    }
}

/// Reads an identifier. A text that is none makes the payload malformed.
pub fn parse_uuid(text: &str) -> (r: Result<uuid::Uuid, DecodeError>)
    ensures
        plain_result(r) == uuid_of(text@),
{
    match read_uuid(text) {
        Ok(id) => Ok(id),
        Err(_) => Err(DecodeError::MalformedPayload),
    }
}

} // verus!
