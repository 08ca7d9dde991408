//! Typed data model for a brokerage REST API: the shapes of requests and
//! responses, and the conversions between the wire format and typed values.
//!
//! Decimal quantities are held as validated decimal text ([`numeric::Number`]);
//! turning that text into binary floating point is left to the caller.

pub mod errors;
pub mod fields;
pub mod identifiers;
pub mod integers;
pub mod json;
pub mod market_data;
pub mod numeric;
pub mod orders;
pub mod positions;
pub mod table;
pub mod text;
pub mod timestamps;
pub mod trading;
