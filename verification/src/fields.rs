use vstd::prelude::*;
use crate::errors::{plain_result, viewed_result, DecodeError, DecodeFailure};
use crate::identifiers::{parse_uuid, uuid_of};
use crate::integers::{i64_value, parse_i64};
use crate::json::{Json, JsonValue};
use crate::numeric::{
    is_float_text, number_or_zero, optional_number, optional_view, parse_optional, parse_or_zero,
    parse_required, required_number, Number,
};
use crate::timestamps::{parse_timestamp, timestamp_of};

verus! {

/// The mathematical value of a document that may be absent.
pub open spec fn value_of(v: Option<&Json>) -> Option<JsonValue> {
    match v {
        Some(j) => Some(j@),
        None => None,
    }
}

/// The mathematical value of a text that may be absent.
pub open spec fn optional_text_view(t: Option<String>) -> Option<Seq<char>> {
    match t {
        Some(x) => Some(x@),
        None => None,
    }
}

/// The mathematical value of a document that may be absent.
pub open spec fn optional_json_view(j: Option<Json>) -> Option<JsonValue> {
    match j {
        Some(x) => Some(x@),
        None => None,
    }
}

/// A member that must be a string.
pub open spec fn text_of(v: Option<JsonValue>) -> Result<Seq<char>, DecodeFailure> {
    match v {
        Some(JsonValue::Text(t)) => Ok(t),
        _ => Err(DecodeFailure::MalformedPayload),
    }
}

/// A member that is a string, or is null or missing.
pub open spec fn optional_text_of(v: Option<JsonValue>) -> Result<
    Option<Seq<char>>,
    DecodeFailure,
> {
    match v {
        None => Ok(None),
        Some(JsonValue::Null) => Ok(None),
        Some(JsonValue::Text(t)) => Ok(Some(t)),
        _ => Err(DecodeFailure::MalformedPayload),
    }
}

/// A member that must be `true` or `false`.
pub open spec fn bool_of(v: Option<JsonValue>) -> Result<bool, DecodeFailure> {
    match v {
        Some(JsonValue::Bool(b)) => Ok(b),
        _ => Err(DecodeFailure::MalformedPayload),
    }
}

/// A member that must be an integer of 64 bits.
pub open spec fn integer_of(v: Option<JsonValue>) -> Result<i64, DecodeFailure> {
    match v {
        Some(JsonValue::Number(t)) => match i64_value(t) {
            Some(x) => Ok(x),
            None => Err(DecodeFailure::MalformedPayload),
        },
        _ => Err(DecodeFailure::MalformedPayload),
    }
}

/// A member that must be a string that holds a number.
pub open spec fn number_of(v: Option<JsonValue>) -> Result<Seq<char>, DecodeFailure> {
    match text_of(v) {
        Ok(t) => required_number(t),
        Err(e) => Err(e),
    }
}

/// A member that is a string that holds a number, or is null or missing.
pub open spec fn optional_number_of(v: Option<JsonValue>) -> Result<
    Option<Seq<char>>,
    DecodeFailure,
> {
    match optional_text_of(v) {
        Ok(t) => optional_number(t),
        Err(e) => Err(e),
    }
}

/// A member that must be a string, and counts as zero where the string
/// holds no number.
pub open spec fn number_or_zero_of(v: Option<JsonValue>) -> Result<Seq<char>, DecodeFailure> {
    match text_of(v) {
        Ok(t) => Ok(number_or_zero(t)),
        Err(e) => Err(e),
    }
}

/// A member that must be a JSON number.
pub open spec fn native_number_of(v: Option<JsonValue>) -> Result<Seq<char>, DecodeFailure> {
    match v {
        Some(JsonValue::Number(t)) => if is_float_text(t) {
            Ok(t)
        } else {
            Err(DecodeFailure::MalformedPayload)
        },
        _ => Err(DecodeFailure::MalformedPayload),
    }
}

/// A member that must be a string that holds an identifier.
pub open spec fn identifier_of(v: Option<JsonValue>) -> Result<uuid::Uuid, DecodeFailure> {
    match text_of(v) {
        Ok(t) => uuid_of(t),
        Err(e) => Err(e),
    }
}

/// A member that must be a string that holds an RFC 3339 date and time.
pub open spec fn time_of(v: Option<JsonValue>) -> Result<time::OffsetDateTime, DecodeFailure> {
    match text_of(v) {
        Ok(t) => timestamp_of(t),
        Err(e) => Err(e),
    }
}

/// A member that is a string that holds an RFC 3339 date and time, or is
/// null or missing.
pub open spec fn optional_time_of(v: Option<JsonValue>) -> Result<
    Option<time::OffsetDateTime>,
    DecodeFailure,
> {
    match optional_text_of(v) {
        Ok(None) => Ok(None),
        Ok(Some(t)) => match timestamp_of(t) {
            Ok(x) => Ok(Some(x)),
            Err(e) => Err(e),
        },
        Err(e) => Err(e),
    }
}

/// A member that is kept as it stands; null counts as missing.
pub open spec fn opaque_of(v: Option<JsonValue>) -> Option<JsonValue> {
    match v {
        None => None,
        Some(JsonValue::Null) => None,
        Some(x) => Some(x),
    }
}

/// A member that must be an array of strings.
pub open spec fn texts_of(v: Option<JsonValue>) -> Result<Seq<Seq<char>>, DecodeFailure> {
    match v {
        Some(JsonValue::Array(items)) => if forall|i: int|
            0 <= i < items.len() ==> (#[trigger] items[i]) is Text {
            Ok(Seq::new(items.len(), |i: int| items[i]->Text_0))
        } else {
            Err(DecodeFailure::MalformedPayload)
        },
        _ => Err(DecodeFailure::MalformedPayload),
    }
}

/// A member that must be an array of integers of 64 bits.
pub open spec fn integers_of(v: Option<JsonValue>) -> Result<Seq<i64>, DecodeFailure> {
    match v {
        Some(JsonValue::Array(items)) => if forall|i: int|
            0 <= i < items.len() ==> integer_of(Some(#[trigger] items[i])) is Ok {
            Ok(Seq::new(items.len(), |i: int| integer_of(Some(items[i]))->Ok_0))
        } else {
            Err(DecodeFailure::MalformedPayload)
        },
        _ => Err(DecodeFailure::MalformedPayload),
    }
}

/// A member that must be an array of JSON numbers.
pub open spec fn native_numbers_of(v: Option<JsonValue>) -> Result<
    Seq<Seq<char>>,
    DecodeFailure,
> {
    match v {
        Some(JsonValue::Array(items)) => if forall|i: int|
            0 <= i < items.len() ==> native_number_of(Some(#[trigger] items[i])) is Ok {
            Ok(Seq::new(items.len(), |i: int| native_number_of(Some(items[i]))->Ok_0))
        } else {
            Err(DecodeFailure::MalformedPayload)
        },
        _ => Err(DecodeFailure::MalformedPayload),
    }
}

/// Reads a member that must be a string.
pub fn text_field<'a>(v: Option<&'a Json>) -> (r: Result<&'a str, DecodeError>)
    ensures
        viewed_result(r) == text_of(value_of(v)),
{
    match v {
        Some(Json::Text(t)) => Ok(t.as_str()),
        _ => Err(DecodeError::MalformedPayload),
    }
}

/// Reads a member that must be a string, and copies the string.
pub fn owned_text_field(v: Option<&Json>) -> (r: Result<String, DecodeError>)
    ensures
        viewed_result(r) == text_of(value_of(v)),
{
    match text_field(v) {
        Ok(t) => Ok(t.to_owned()),
        Err(e) => Err(e),
    }
}

/// Reads a member that is a string, or is null or missing.
pub fn optional_text_field<'a>(v: Option<&'a Json>) -> (r: Result<Option<&'a str>, DecodeError>)
    ensures
        match r {
            Ok(Some(t)) => optional_text_of(value_of(v)) == Ok::<Option<Seq<char>>, DecodeFailure>(
                Some(t@),
            ),
            Ok(None) => optional_text_of(value_of(v)) == Ok::<Option<Seq<char>>, DecodeFailure>(
                None,
            ),
            Err(e) => optional_text_of(value_of(v)) == Err::<Option<Seq<char>>, DecodeFailure>(e@),
        },
{
    match v {
        None => Ok(None),
        Some(Json::Null) => Ok(None),
        Some(Json::Text(t)) => Ok(Some(t.as_str())),
        _ => Err(DecodeError::MalformedPayload),
    }
}

/// Reads a member that is a string, or is null or missing, and copies the
/// string.
pub fn optional_owned_text_field(v: Option<&Json>) -> (r: Result<Option<String>, DecodeError>)
    ensures
        match r {
            Ok(t) => optional_text_of(value_of(v)) == Ok::<Option<Seq<char>>, DecodeFailure>(
                optional_text_view(t),
            ),
            Err(e) => optional_text_of(value_of(v)) == Err::<Option<Seq<char>>, DecodeFailure>(e@),
        },
{
    match optional_text_field(v) {
        Ok(Some(t)) => Ok(Some(t.to_owned())),
        Ok(None) => Ok(None),
        Err(e) => Err(e),
    }
}

/// Reads a member that must be `true` or `false`.
pub fn bool_field(v: Option<&Json>) -> (r: Result<bool, DecodeError>)
    ensures
        plain_result(r) == bool_of(value_of(v)),
{
    match v {
        Some(Json::Bool(b)) => Ok(*b),
        _ => Err(DecodeError::MalformedPayload),
    }
}

/// Reads a member that must be an integer of 64 bits.
pub fn integer_field(v: Option<&Json>) -> (r: Result<i64, DecodeError>)
    ensures
        plain_result(r) == integer_of(value_of(v)),
{
    match v {
        Some(Json::Number(t)) => match parse_i64(t.as_str()) {
            Some(x) => Ok(x),
            None => Err(DecodeError::MalformedPayload),
        },
        _ => Err(DecodeError::MalformedPayload),
    }
}

/// Reads a member that must be a string that holds a number.
pub fn number_field(v: Option<&Json>) -> (r: Result<Number, DecodeError>)
    ensures
        viewed_result(r) == number_of(value_of(v)),
{
    match text_field(v) {
        Ok(t) => parse_required(t),
        Err(e) => Err(e),
    }
}

/// Reads a member that is a string that holds a number, or is null or
/// missing.
pub fn optional_number_field(v: Option<&Json>) -> (r: Result<Option<Number>, DecodeError>)
    ensures
        match r {
            Ok(n) => optional_number_of(value_of(v)) == Ok::<Option<Seq<char>>, DecodeFailure>(
                optional_view(n),
            ),
            Err(e) => optional_number_of(value_of(v)) == Err::<Option<Seq<char>>, DecodeFailure>(
                e@,
            ),
        },
{
    match optional_text_field(v) {
        Ok(t) => parse_optional(t),
        Err(e) => Err(e),
    }
}

/// Reads a member that must be a string, and counts as zero where the
/// string holds no number.
pub fn number_or_zero_field(v: Option<&Json>) -> (r: Result<Number, DecodeError>)
    ensures
        viewed_result(r) == number_or_zero_of(value_of(v)),
{
    match text_field(v) {
        Ok(t) => Ok(parse_or_zero(t)),
        Err(e) => Err(e),
    }
}

/// Reads a member that must be a JSON number.
pub fn native_number_field(v: Option<&Json>) -> (r: Result<Number, DecodeError>)
    ensures
        viewed_result(r) == native_number_of(value_of(v)),
{
    match v {
        Some(Json::Number(t)) => match Number::parse(t.as_str()) {
            Some(n) => Ok(n),
            None => Err(DecodeError::MalformedPayload),
        },
        _ => Err(DecodeError::MalformedPayload),
    }
}

/// Reads a member that must be a string that holds an identifier.
pub fn identifier_field(v: Option<&Json>) -> (r: Result<uuid::Uuid, DecodeError>)
    ensures
        plain_result(r) == identifier_of(value_of(v)),
{
    match text_field(v) {
        Ok(t) => parse_uuid(t),
        Err(e) => Err(e),
    }
}

/// Reads a member that must be a string that holds an RFC 3339 date and
/// time.
pub fn time_field(v: Option<&Json>) -> (r: Result<time::OffsetDateTime, DecodeError>)
    ensures
        plain_result(r) == time_of(value_of(v)),
{
    match text_field(v) {
        Ok(t) => parse_timestamp(t),
        Err(e) => Err(e),
    }
}

/// Reads a member that is a string that holds an RFC 3339 date and time, or
/// is null or missing.
pub fn optional_time_field(v: Option<&Json>) -> (r: Result<
    Option<time::OffsetDateTime>,
    DecodeError,
>)
    ensures
        plain_result(r) == optional_time_of(value_of(v)),
{
    match optional_text_field(v) {
        Ok(None) => Ok(None),
        Ok(Some(t)) => match parse_timestamp(t) {
            Ok(x) => Ok(Some(x)),
            Err(e) => Err(e),
        },
        Err(e) => Err(e),
    }
}

/// Copies a member that is kept as it stands; null counts as missing.
pub fn opaque_field(v: Option<&Json>) -> (r: Option<Json>)
    ensures
        optional_json_view(r) == opaque_of(value_of(v)),
{
    match v {
        None => None,
        Some(Json::Null) => None,
        Some(x) => Some(x.duplicate()),
    }
}

/// A member that must be an integer from `low` to `high`.
pub open spec fn ranged_of(v: Option<JsonValue>, low: i64, high: i64) -> Result<
    i64,
    DecodeFailure,
> {
    match integer_of(v) {
        Ok(x) => if low <= x <= high {
            Ok(x)
        } else {
            Err(DecodeFailure::MalformedPayload)
        },
        Err(e) => Err(e),
    }
}

/// Reads a member that must be an integer of 32 bits without sign.
pub fn u32_field(v: Option<&Json>) -> (r: Result<u32, DecodeError>)
    ensures
        match r {
            Ok(x) => ranged_of(value_of(v), 0, u32::MAX as i64) == Ok::<i64, DecodeFailure>(
                x as i64,
            ),
            Err(e) => ranged_of(value_of(v), 0, u32::MAX as i64) == Err::<i64, DecodeFailure>(e@),
        },
{
    match integer_field(v) {
        Ok(x) => if 0 <= x && x <= 4_294_967_295 {
            Ok(x as u32)
        } else {
            Err(DecodeError::MalformedPayload)
        },
        Err(e) => Err(e),
    }
}

/// Reads a member that must be an integer of 16 bits without sign.
pub fn u16_field(v: Option<&Json>) -> (r: Result<u16, DecodeError>)
    ensures
        match r {
            Ok(x) => ranged_of(value_of(v), 0, u16::MAX as i64) == Ok::<i64, DecodeFailure>(
                x as i64,
            ),
            Err(e) => ranged_of(value_of(v), 0, u16::MAX as i64) == Err::<i64, DecodeFailure>(e@),
        },
{
    match integer_field(v) {
        Ok(x) => if 0 <= x && x <= 65_535 {
            Ok(x as u16)
        } else {
            Err(DecodeError::MalformedPayload)
        },
        Err(e) => Err(e),
    }
}

/// Reads a member that must be an array of strings.
pub fn texts_field(v: Option<&Json>) -> (r: Result<Vec<String>, DecodeError>)
    ensures
        match r {
            Ok(texts) => texts_of(value_of(v)) == Ok::<Seq<Seq<char>>, DecodeFailure>(
                texts@.map_values(|t: String| t@),
            ),
            Err(e) => texts_of(value_of(v)) == Err::<Seq<Seq<char>>, DecodeFailure>(e@),
        },
{
    match v {
        Some(Json::Array(items)) => {
            let ghost values = v.unwrap()@->Array_0;
            let mut out: Vec<String> = Vec::new();
            let mut i: usize = 0;
            while i < items.len()
                invariant
                    i <= items.len(),
                    values.len() == items.len(),
                    value_of(v) == Some(JsonValue::Array(values)),
                    forall|k: int| 0 <= k < items.len() ==> (#[trigger] items@[k])@ == values[k],
                    out.len() == i,
                    forall|k: int| 0 <= k < i ==> (#[trigger] values[k]) is Text,
                    forall|k: int| 0 <= k < i ==> (#[trigger] out@[k])@ == values[k]->Text_0,
                decreases items.len() - i,
            {
                match &items[i] {
                    Json::Text(t) => {
                        out.push(t.clone());
                    },
                    _ => {
                        assert(!(values[i as int] is Text));
                        return Err(DecodeError::MalformedPayload);
                    },
                }
                i += 1;
            }
            assert(out@.map_values(|t: String| t@) =~= Seq::new(
                values.len(),
                |i: int| values[i]->Text_0,
            ));
            Ok(out)
        },
        _ => Err(DecodeError::MalformedPayload),
    }
}

/// Reads a member that must be an array of integers of 64 bits.
pub fn integers_field(v: Option<&Json>) -> (r: Result<Vec<i64>, DecodeError>)
    ensures
        match r {
            Ok(numbers) => integers_of(value_of(v)) == Ok::<Seq<i64>, DecodeFailure>(numbers@),
            Err(e) => integers_of(value_of(v)) == Err::<Seq<i64>, DecodeFailure>(e@),
        },
{
    match v {
        Some(Json::Array(items)) => {
            let ghost values = v.unwrap()@->Array_0;
            let mut out: Vec<i64> = Vec::new();
            let mut i: usize = 0;
            while i < items.len()
                invariant
                    i <= items.len(),
                    values.len() == items.len(),
                    value_of(v) == Some(JsonValue::Array(values)),
                    forall|k: int| 0 <= k < items.len() ==> (#[trigger] items@[k])@ == values[k],
                    out.len() == i,
                    forall|k: int| 0 <= k < i ==> integer_of(Some(#[trigger] values[k])) is Ok,
                    forall|k: int|
                        0 <= k < i ==> (#[trigger] out@[k]) == integer_of(Some(values[k]))->Ok_0,
                decreases items.len() - i,
            {
                match integer_field(Some(&items[i])) {
                    Ok(x) => {
                        out.push(x);
                    },
                    Err(_) => {
                        assert(!(integer_of(Some(values[i as int])) is Ok));
                        return Err(DecodeError::MalformedPayload);
                    },
                }
                i += 1;
            }
            assert(out@ =~= Seq::new(values.len(), |i: int| integer_of(Some(values[i]))->Ok_0));
            Ok(out)
        },
        _ => Err(DecodeError::MalformedPayload),
    }
}

/// Reads a member that must be an array of JSON numbers.
pub fn native_numbers_field(v: Option<&Json>) -> (r: Result<Vec<Number>, DecodeError>)
    ensures
        match r {
            Ok(numbers) => native_numbers_of(value_of(v)) == Ok::<Seq<Seq<char>>, DecodeFailure>(
                numbers@.map_values(|n: Number| n@),
            ),
            Err(e) => native_numbers_of(value_of(v)) == Err::<Seq<Seq<char>>, DecodeFailure>(e@),
        },
{
    match v {
        Some(Json::Array(items)) => {
            let ghost values = v.unwrap()@->Array_0;
            let mut out: Vec<Number> = Vec::new();
            let mut i: usize = 0;
            while i < items.len()
                invariant
                    i <= items.len(),
                    values.len() == items.len(),
                    value_of(v) == Some(JsonValue::Array(values)),
                    forall|k: int| 0 <= k < items.len() ==> (#[trigger] items@[k])@ == values[k],
                    out.len() == i,
                    forall|k: int|
                        0 <= k < i ==> native_number_of(Some(#[trigger] values[k])) is Ok,
                    forall|k: int|
                        0 <= k < i ==> (#[trigger] out@[k])@ == native_number_of(
                            Some(values[k]),
                        )->Ok_0,
                decreases items.len() - i,
            {
                match native_number_field(Some(&items[i])) {
                    Ok(x) => {
                        out.push(x);
                    },
                    Err(_) => {
                        assert(!(native_number_of(Some(values[i as int])) is Ok));
                        return Err(DecodeError::MalformedPayload);
                    },
                }
                i += 1;
            }
            assert(out@.map_values(|n: Number| n@) =~= Seq::new(
                values.len(),
                |i: int| native_number_of(Some(values[i]))->Ok_0,
            ));
            Ok(out)
        },
        _ => Err(DecodeError::MalformedPayload),
    }
}

} // verus!
