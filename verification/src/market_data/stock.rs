use vstd::prelude::*;
use crate::errors::{viewed_result, DecodeError, DecodeFailure};
use crate::fields::{
    integer_field, integer_of, native_number_field, native_number_of, owned_text_field, ranged_of,
    text_of, texts_field, texts_of, u32_field, value_of,
};
use crate::json::{parse_json, parsed_document, Json, JsonValue};
use crate::numeric::Number;
use crate::table::{lemma_table_fails_on, table_of, SymbolTable};

verus! {

/// A trade, as the market data feed reports it.
#[derive(Debug, Clone, Default)]
pub struct Trade {
    /// The condition flags, in the order in which the venue issued them.
    pub condition_flags: Vec<String>,
    pub trade_id: i64,
    pub price: Number,
    pub trade_size: u32,
    pub timestamp: String,
    pub exchange_code: String,
    pub tape: String,
}

/// The mathematical value of a trade.
pub struct TradeView {
    pub condition_flags: Seq<Seq<char>>,
    pub trade_id: i64,
    pub price: Seq<char>,
    pub trade_size: u32,
    pub timestamp: Seq<char>,
    pub exchange_code: Seq<char>,
    pub tape: Seq<char>,
}

impl View for Trade {
    type V = TradeView;

    open spec fn view(&self) -> TradeView {
        TradeView {
            condition_flags: self.condition_flags@.map_values(|t: String| t@),
            trade_id: self.trade_id,
            price: self.price@,
            trade_size: self.trade_size,
            timestamp: self.timestamp@,
            exchange_code: self.exchange_code@,
            tape: self.tape@,
        }
    }
}

impl Trade {
    /// [`Trade::decoded`] as a function.
    pub open spec fn reader() -> spec_fn(JsonValue) -> Result<TradeView, DecodeFailure> {
        |j: JsonValue| Trade::decoded(j)
    }

    /// What [`Trade::from_json`] returns for the document `j`: the first
    /// failure among the members, in the order of the fields, or else the
    /// value that the members give.
    pub open spec fn decoded(j: JsonValue) -> Result<TradeView, DecodeFailure> {
        let condition_flags = texts_of(j.member("c"@));
        let trade_id = integer_of(j.member("i"@));
        let price = native_number_of(j.member("p"@));
        let trade_size = ranged_of(j.member("s"@), 0, u32::MAX as i64);
        let timestamp = text_of(j.member("t"@));
        let exchange_code = text_of(j.member("x"@));
        let tape = text_of(j.member("z"@));
        if condition_flags is Err {
            Err(condition_flags->Err_0)
        } else if trade_id is Err {
            Err(trade_id->Err_0)
        } else if price is Err {
            Err(price->Err_0)
        } else if trade_size is Err {
            Err(trade_size->Err_0)
        } else if timestamp is Err {
            Err(timestamp->Err_0)
        } else if exchange_code is Err {
            Err(exchange_code->Err_0)
        } else if tape is Err {
            Err(tape->Err_0)
        } else {
            Ok(
                TradeView {
                    condition_flags: condition_flags->Ok_0,
                    trade_id: trade_id->Ok_0,
                    price: price->Ok_0,
                    trade_size: trade_size->Ok_0 as u32,
                    timestamp: timestamp->Ok_0,
                    exchange_code: exchange_code->Ok_0,
                    tape: tape->Ok_0,
                },
            )
        }
    }

    /// What [`Trade::field`] returns for a member: the member must be there.
    pub open spec fn member(v: Option<JsonValue>) -> Result<TradeView, DecodeFailure> {
        match v {
            Some(j) => Trade::decoded(j),
            None => Err(DecodeFailure::MalformedPayload),
        }
    }

    /// What [`Trade::from_bytes`] returns for the given bytes.
    pub open spec fn decoded_bytes(bytes: Seq<u8>) -> Result<TradeView, DecodeFailure> {
        Trade::member(parsed_document(bytes))
    }

    /// Reads a trade from a JSON document.
    pub fn from_json(j: &Json) -> (r: Result<Trade, DecodeError>)
        ensures
            viewed_result(r) == Trade::decoded(j@),
    {
        let condition_flags = match texts_field(j.get("c")) {
            Ok(v) => v,
            Err(e) => return Err(e),
        };
        let trade_id = match integer_field(j.get("i")) {
            Ok(v) => v,
            Err(e) => return Err(e),
        };
        let price = match native_number_field(j.get("p")) {
            Ok(v) => v,
            Err(e) => return Err(e),
        };
        let trade_size = match u32_field(j.get("s")) {
            Ok(v) => v,
            Err(e) => return Err(e),
        };
        let timestamp = match owned_text_field(j.get("t")) {
            Ok(v) => v,
            Err(e) => return Err(e),
        };
        let exchange_code = match owned_text_field(j.get("x")) {
            Ok(v) => v,
            Err(e) => return Err(e),
        };
        let tape = match owned_text_field(j.get("z")) {
            Ok(v) => v,
            Err(e) => return Err(e),
        };
        Ok(Trade { condition_flags, trade_id, price, trade_size, timestamp, exchange_code, tape })
    }

    /// Reads a trade from a member, which must be there.
    pub fn field(v: Option<&Json>) -> (r: Result<Trade, DecodeError>)
        ensures
            viewed_result(r) == Trade::member(value_of(v)),
    {
        match v {
            Some(j) => Trade::from_json(j),
            None => Err(DecodeError::MalformedPayload),
        }
    }

    /// Reads a trade from the bytes of a JSON document. Bytes that are no
    /// JSON make a malformed payload.
    pub fn from_bytes(bytes: &[u8]) -> (r: Result<Trade, DecodeError>)
        ensures
            viewed_result(r) == Trade::decoded_bytes(bytes@),
    {
        match parse_json(bytes) {
            Some(j) => Trade::from_json(&j),
            None => Err(DecodeError::MalformedPayload),
        }
    }
}

/// The latest trade of each symbol.
#[derive(Debug, Clone, Default)]
pub struct LatestTrades {
    pub trades: SymbolTable<Trade>,
}

/// The mathematical value of [`LatestTrades`].
pub struct LatestTradesView {
    pub trades: Seq<(Seq<char>, TradeView)>,
}

impl View for LatestTrades {
    type V = LatestTradesView;

    open spec fn view(&self) -> LatestTradesView {
        LatestTradesView { trades: self.trades@ }
    }
}

impl LatestTrades {
    /// What [`LatestTrades::from_json`] returns for the document `j`.
    pub open spec fn decoded(j: JsonValue) -> Result<LatestTradesView, DecodeFailure> {
        match j.member("trades"@) {
            Some(JsonValue::Object(members)) => match table_of(members, Trade::reader()) {
                Ok(table) => Ok(LatestTradesView { trades: table }),
                Err(e) => Err(e),
            },
            _ => Err(DecodeFailure::MalformedPayload),
        }
    }

    /// What [`LatestTrades::from_bytes`] returns for the given bytes.
    pub open spec fn decoded_bytes(bytes: Seq<u8>) -> Result<LatestTradesView, DecodeFailure> {
        match parsed_document(bytes) {
            Some(j) => LatestTrades::decoded(j),
            None => Err(DecodeFailure::MalformedPayload),
        }
    }

    /// Reads the latest trades from a JSON document.
    pub fn from_json(j: &Json) -> (r: Result<LatestTrades, DecodeError>)
        ensures
            viewed_result(r) == LatestTrades::decoded(j@),
    {
        match j.get("trades") {
            Some(Json::Object(m)) => {
                let ghost members = j@.member("trades"@)->0->Object_0;
                let mut table: SymbolTable<Trade> = SymbolTable::new();
                let mut i: usize = 0;
                assert(members.take(0) =~= Seq::empty());
                while i < m.len()
                    invariant
                        i <= m.len(),
                        members.len() == m.len(),
                        j@.member("trades"@) == Some(JsonValue::Object(members)),
                        forall|k: int|
                            0 <= k < m.len() ==> (#[trigger] members[k]) == (m@[k].0@, m@[k].1@),
                        table_of(members.take(i as int), Trade::reader()) == Ok::<
                            Seq<(Seq<char>, TradeView)>,
                            DecodeFailure,
                        >(table@),
                    decreases m.len() - i,
                {
                    proof {
                        let next = members.take(i + 1);
                        assert(next.drop_last() =~= members.take(i as int));
                        assert(next.last() == members[i as int]);
                    }
                    match Trade::from_json(&m[i].1) {
                        Ok(value) => {
                            table = table.insert(m[i].0.clone(), value);
                        },
                        Err(e) => {
                            proof {
                                lemma_table_fails_on(members, Trade::reader(), i + 1);
                            }
                            return Err(e);
                        },
                    }
                    i += 1;
                }
                assert(members.take(m.len() as int) =~= members);
                Ok(LatestTrades { trades: table })
            },
            _ => Err(DecodeError::MalformedPayload),
        }
    }

    /// Reads the latest trades from the bytes of a JSON document. Bytes that are no
    /// JSON make a malformed payload.
    pub fn from_bytes(bytes: &[u8]) -> (r: Result<LatestTrades, DecodeError>)
        ensures
            viewed_result(r) == LatestTrades::decoded_bytes(bytes@),
    {
        match parse_json(bytes) {
            Some(j) => LatestTrades::from_json(&j),
            None => Err(DecodeError::MalformedPayload),
        }
    }
}

/// Reads the latest trades from the bytes of a JSON document.
pub fn decode_latest_trades(bytes: &[u8]) -> (r: Result<LatestTrades, DecodeError>)
    ensures
        viewed_result(r) == LatestTrades::decoded_bytes(bytes@),
{
    LatestTrades::from_bytes(bytes)
}

} // verus!
