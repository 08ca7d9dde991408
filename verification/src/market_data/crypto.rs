use vstd::prelude::*;
use crate::errors::{viewed_result, DecodeError, DecodeFailure};
use crate::fields::{
    integer_field, integer_of, native_number_field, native_number_of, time_field, time_of, value_of,
};
use crate::json::{parse_json, parsed_document, Json, JsonValue};
use crate::numeric::Number;
use crate::table::{lemma_table_fails_on, table_of, SymbolTable};

verus! {

/// A candlestick of a cryptocurrency: open, high, low, close and volume of
/// one minute or one day.
#[derive(Debug)]
pub struct CryptoBar {
    pub timestamp: time::OffsetDateTime,
    pub open: Number,
    pub high: Number,
    pub low: Number,
    pub close: Number,
    pub volume: Number,
    pub trade_count: i64,
    /// The price averaged over the trades, weighted by volume.
    pub vwap: Number,
}

/// The mathematical value of a candlestick.
pub struct CryptoBarView {
    pub timestamp: time::OffsetDateTime,
    pub open: Seq<char>,
    pub high: Seq<char>,
    pub low: Seq<char>,
    pub close: Seq<char>,
    pub volume: Seq<char>,
    pub trade_count: i64,
    pub vwap: Seq<char>,
}

impl Clone for CryptoBar {
    fn clone(&self) -> (r: Self)
        ensures
            r@ == self@,
    {
        CryptoBar {
            timestamp: self.timestamp,
            open: self.open.clone(),
            high: self.high.clone(),
            low: self.low.clone(),
            close: self.close.clone(),
            volume: self.volume.clone(),
            trade_count: self.trade_count,
            vwap: self.vwap.clone(),
        }
    }
}

impl View for CryptoBar {
    type V = CryptoBarView;

    open spec fn view(&self) -> CryptoBarView {
        CryptoBarView {
            timestamp: self.timestamp,
            open: self.open@,
            high: self.high@,
            low: self.low@,
            close: self.close@,
            volume: self.volume@,
            trade_count: self.trade_count,
            vwap: self.vwap@,
        }
    }
}

impl CryptoBar {
    /// [`CryptoBar::decoded`] as a function.
    pub open spec fn reader() -> spec_fn(JsonValue) -> Result<CryptoBarView, DecodeFailure> {
        |j: JsonValue| CryptoBar::decoded(j)
    }

    /// What [`CryptoBar::from_json`] returns for the document `j`: the first
    /// failure among the members, in the order of the fields, or else the
    /// value that the members give.
    pub open spec fn decoded(j: JsonValue) -> Result<CryptoBarView, DecodeFailure> {
        let timestamp = time_of(j.member("t"@));
        let open = native_number_of(j.member("o"@));
        let high = native_number_of(j.member("h"@));
        let low = native_number_of(j.member("l"@));
        let close = native_number_of(j.member("c"@));
        let volume = native_number_of(j.member("v"@));
        let trade_count = integer_of(j.member("n"@));
        let vwap = native_number_of(j.member("vw"@));
        if timestamp is Err {
            Err(timestamp->Err_0)
        } else if open is Err {
            Err(open->Err_0)
        } else if high is Err {
            Err(high->Err_0)
        } else if low is Err {
            Err(low->Err_0)
        } else if close is Err {
            Err(close->Err_0)
        } else if volume is Err {
            Err(volume->Err_0)
        } else if trade_count is Err {
            Err(trade_count->Err_0)
        } else if vwap is Err {
            Err(vwap->Err_0)
        } else {
            Ok(
                CryptoBarView {
                    timestamp: timestamp->Ok_0,
                    open: open->Ok_0,
                    high: high->Ok_0,
                    low: low->Ok_0,
                    close: close->Ok_0,
                    volume: volume->Ok_0,
                    trade_count: trade_count->Ok_0,
                    vwap: vwap->Ok_0,
                },
            )
        }
    }

    /// What [`CryptoBar::field`] returns for a member: the member must be there.
    pub open spec fn member(v: Option<JsonValue>) -> Result<CryptoBarView, DecodeFailure> {
        match v {
            Some(j) => CryptoBar::decoded(j),
            None => Err(DecodeFailure::MalformedPayload),
        }
    }

    /// What [`CryptoBar::from_bytes`] returns for the given bytes.
    pub open spec fn decoded_bytes(bytes: Seq<u8>) -> Result<CryptoBarView, DecodeFailure> {
        CryptoBar::member(parsed_document(bytes))
    }

    /// Reads a candlestick from a JSON document.
    pub fn from_json(j: &Json) -> (r: Result<CryptoBar, DecodeError>)
        ensures
            viewed_result(r) == CryptoBar::decoded(j@),
    {
        let timestamp = match time_field(j.get("t")) {
            Ok(v) => v,
            Err(e) => return Err(e),
        };
        let open = match native_number_field(j.get("o")) {
            Ok(v) => v,
            Err(e) => return Err(e),
        };
        let high = match native_number_field(j.get("h")) {
            Ok(v) => v,
            Err(e) => return Err(e),
        };
        let low = match native_number_field(j.get("l")) {
            Ok(v) => v,
            Err(e) => return Err(e),
        };
        let close = match native_number_field(j.get("c")) {
            Ok(v) => v,
            Err(e) => return Err(e),
        };
        let volume = match native_number_field(j.get("v")) {
            Ok(v) => v,
            Err(e) => return Err(e),
        };
        let trade_count = match integer_field(j.get("n")) {
            Ok(v) => v,
            Err(e) => return Err(e),
        };
        let vwap = match native_number_field(j.get("vw")) {
            Ok(v) => v,
            Err(e) => return Err(e),
        };
        Ok(CryptoBar { timestamp, open, high, low, close, volume, trade_count, vwap })
    }

    /// Reads a candlestick from a member, which must be there.
    pub fn field(v: Option<&Json>) -> (r: Result<CryptoBar, DecodeError>)
        ensures
            viewed_result(r) == CryptoBar::member(value_of(v)),
    {
        match v {
            Some(j) => CryptoBar::from_json(j),
            None => Err(DecodeError::MalformedPayload),
        }
    }

    /// Reads a candlestick from the bytes of a JSON document. Bytes that are no
    /// JSON make a malformed payload.
    pub fn from_bytes(bytes: &[u8]) -> (r: Result<CryptoBar, DecodeError>)
        ensures
            viewed_result(r) == CryptoBar::decoded_bytes(bytes@),
    {
        match parse_json(bytes) {
            Some(j) => CryptoBar::from_json(&j),
            None => Err(DecodeError::MalformedPayload),
        }
    }
}

/// The latest candlestick of each cryptocurrency symbol.
#[derive(Debug)]
pub struct LatestCryptoBars {
    pub bars: SymbolTable<CryptoBar>,
}

/// The mathematical value of [`LatestCryptoBars`].
pub struct LatestCryptoBarsView {
    pub bars: Seq<(Seq<char>, CryptoBarView)>,
}

impl View for LatestCryptoBars {
    type V = LatestCryptoBarsView;

    open spec fn view(&self) -> LatestCryptoBarsView {
        LatestCryptoBarsView { bars: self.bars@ }
    }
}

impl LatestCryptoBars {
    /// What [`LatestCryptoBars::from_json`] returns for the document `j`.
    pub open spec fn decoded(j: JsonValue) -> Result<LatestCryptoBarsView, DecodeFailure> {
        match j.member("bars"@) {
            Some(JsonValue::Object(members)) => match table_of(members, CryptoBar::reader()) {
                Ok(table) => Ok(LatestCryptoBarsView { bars: table }),
                Err(e) => Err(e),
            },
            _ => Err(DecodeFailure::MalformedPayload),
        }
    }

    /// What [`LatestCryptoBars::from_bytes`] returns for the given bytes.
    pub open spec fn decoded_bytes(bytes: Seq<u8>) -> Result<LatestCryptoBarsView, DecodeFailure> {
        match parsed_document(bytes) {
            Some(j) => LatestCryptoBars::decoded(j),
            None => Err(DecodeFailure::MalformedPayload),
        }
    }

    /// Reads the latest candlesticks from a JSON document.
    pub fn from_json(j: &Json) -> (r: Result<LatestCryptoBars, DecodeError>)
        ensures
            viewed_result(r) == LatestCryptoBars::decoded(j@),
    {
        match j.get("bars") {
            Some(Json::Object(m)) => {
                let ghost members = j@.member("bars"@)->0->Object_0;
                let mut table: SymbolTable<CryptoBar> = SymbolTable::new();
                let mut i: usize = 0;
                assert(members.take(0) =~= Seq::empty());
                while i < m.len()
                    invariant
                        i <= m.len(),
                        members.len() == m.len(),
                        j@.member("bars"@) == Some(JsonValue::Object(members)),
                        forall|k: int|
                            0 <= k < m.len() ==> (#[trigger] members[k]) == (m@[k].0@, m@[k].1@),
                        table_of(members.take(i as int), CryptoBar::reader()) == Ok::<
                            Seq<(Seq<char>, CryptoBarView)>,
                            DecodeFailure,
                        >(table@),
                    decreases m.len() - i,
                {
                    proof {
                        let next = members.take(i + 1);
                        assert(next.drop_last() =~= members.take(i as int));
                        assert(next.last() == members[i as int]);
                    }
                    match CryptoBar::from_json(&m[i].1) {
                        Ok(value) => {
                            table = table.insert(m[i].0.clone(), value);
                        },
                        Err(e) => {
                            proof {
                                lemma_table_fails_on(members, CryptoBar::reader(), i + 1);
                            }
                            return Err(e);
                        },
                    }
                    i += 1;
                }
                assert(members.take(m.len() as int) =~= members);
                Ok(LatestCryptoBars { bars: table })
            },
            _ => Err(DecodeError::MalformedPayload),
        }
    }

    /// Reads the latest candlesticks from the bytes of a JSON document. Bytes that are no
    /// JSON make a malformed payload.
    pub fn from_bytes(bytes: &[u8]) -> (r: Result<LatestCryptoBars, DecodeError>)
        ensures
            viewed_result(r) == LatestCryptoBars::decoded_bytes(bytes@),
    {
        match parse_json(bytes) {
            Some(j) => LatestCryptoBars::from_json(&j),
            None => Err(DecodeError::MalformedPayload),
        }
    }
}

/// Reads the latest candlesticks from the bytes of a JSON document.
pub fn decode_latest_crypto_bars(bytes: &[u8]) -> (r: Result<LatestCryptoBars, DecodeError>)
    ensures
        viewed_result(r) == LatestCryptoBars::decoded_bytes(bytes@),
{
    LatestCryptoBars::from_bytes(bytes)
}

} // verus!
