use vstd::prelude::*;
use crate::errors::{plain_result, viewed_result, DecodeError, DecodeFailure};
use crate::fields::{
    bool_field, bool_of, identifier_field, identifier_of, number_field, number_of,
    number_or_zero_field, number_or_zero_of, optional_number_field, optional_number_of,
    owned_text_field, ranged_of, text_field, text_of, u16_field, value_of,
};
use crate::json::{parse_json, parsed_document, Json, JsonValue};
use crate::numeric::{optional_view, Number};
use crate::orders::{AssetClass, OrderResponse, OrderResponseView};
use crate::text::str_eq;

verus! {

/// Whether a position is held long or short.
#[derive(Debug, Clone, Copy, PartialEq, Eq, Structural)]
pub enum PositionSide {
    Long,
    Short,
}

impl PositionSide {
    /// The string that stands for the variant on the wire.
    pub open spec fn wire(self) -> Seq<char> {
        match self {
            PositionSide::Long => "long"@,
            PositionSide::Short => "short"@,
        }
    }

    /// The variant that `s` stands for, if it stands for one.
    pub open spec fn of_wire(s: Seq<char>) -> Option<PositionSide> {
        if s == "long"@ {
            Some(PositionSide::Long)
        } else if s == "short"@ {
            Some(PositionSide::Short)
        } else {
            None
        }
    }

    /// What [`PositionSide::from_wire`] returns for `s`.
    pub open spec fn decoded(s: Seq<char>) -> Result<PositionSide, DecodeFailure> {
        match PositionSide::of_wire(s) {
            Some(v) => Ok(v),
            None => Err(DecodeFailure::UnknownVariant { field: "side"@, value: s }),
        }
    }

    /// What [`PositionSide::field`] returns for a member: it must be a string of
    /// the table.
    pub open spec fn member(v: Option<JsonValue>) -> Result<PositionSide, DecodeFailure> {
        match text_of(v) {
            Ok(t) => PositionSide::decoded(t),
            Err(e) => Err(e),
        }
    }

    /// The string that stands for the variant on the wire.
    pub fn as_str(&self) -> (r: &'static str)
        ensures
            r@ == self.wire(),
    {
        match self {
            PositionSide::Long => "long",
            PositionSide::Short => "short",
        }
    }

    /// The string that stands for the variant on the wire, as a `String`.
    pub fn to_string(&self) -> (r: String)
        ensures
            r@ == self.wire(),
    {
        self.as_str().to_owned()
    }

    /// Reads a variant from its wire string. A string that is not in the
    /// table is an error; it is never taken for some variant.
    pub fn from_wire(s: &str) -> (r: Result<PositionSide, DecodeError>)
        ensures
            plain_result(r) == PositionSide::decoded(s@),
    {
        if str_eq(s, "long") {
            Ok(PositionSide::Long)
        } else if str_eq(s, "short") {
            Ok(PositionSide::Short)
        } else {
            Err(DecodeError::unknown_variant("side", s))
        }
    }

    /// Reads a variant from a member, which must be a string of the table.
    pub fn field(v: Option<&Json>) -> (r: Result<PositionSide, DecodeError>)
        ensures
            plain_result(r) == PositionSide::member(value_of(v)),
    {
        match text_field(v) {
            Ok(t) => PositionSide::from_wire(t),
            Err(e) => Err(e),
        }
    }

    /// Each variant has a wire string of its own, and reading that string
    /// gives the variant back.
    pub proof fn lemma_wire_round_trip(v: PositionSide)
        ensures
            PositionSide::of_wire(v.wire()) == Some(v),
            PositionSide::decoded(v.wire()) == Ok::<PositionSide, DecodeFailure>(v),
    {
        reveal_strlit("long");
        reveal_strlit("short");
        assert("long"@.len() == 4);
        assert("short"@.len() == 5);
    }

    /// A string that no variant is written with is refused as an unknown
    /// variant, and a string that is read is the one its variant is written
    /// with.
    pub proof fn lemma_unknown_is_refused(s: Seq<char>)
        ensures
            (forall|v: PositionSide| v.wire() != s) ==> PositionSide::decoded(s) == Err::<PositionSide, DecodeFailure>(
                DecodeFailure::UnknownVariant { field: "side"@, value: s },
            ),
            forall|v: PositionSide| PositionSide::decoded(s) == Ok::<PositionSide, DecodeFailure>(v) ==> v.wire() == s,
    {
        if forall|v: PositionSide| v.wire() != s {
            assert(PositionSide::Long.wire() != s);
            assert(PositionSide::Short.wire() != s);
        }
    }
}

/// An open position, as the API reports it.
///
/// The quantity carries the sign of the position; it is not held against
/// `side`.
#[derive(Debug)]
pub struct OpenPosition {
    pub asset_id: uuid::Uuid,
    pub symbol: String,
    pub exchange: String,
    pub asset_class: AssetClass,
    pub avg_entry_price: Option<Number>,
    pub qty: Number,
    pub qty_available: Number,
    pub side: PositionSide,
    pub market_value: Number,
    pub cost_basis: Number,
    pub unrealized_pl: Number,
    pub unrealized_plpc: Number,
    pub unrealized_intraday_pl: Number,
    /// Arrives empty at times, and then counts as zero.
    pub unrealized_intraday_plpc: Number,
    pub current_price: Number,
    pub lastday_price: Number,
    pub change_today: Number,
    pub asset_marginable: bool,
}

/// The mathematical value of an open position.
pub struct OpenPositionView {
    pub asset_id: uuid::Uuid,
    pub symbol: Seq<char>,
    pub exchange: Seq<char>,
    pub asset_class: AssetClass,
    pub avg_entry_price: Option<Seq<char>>,
    pub qty: Seq<char>,
    pub qty_available: Seq<char>,
    pub side: PositionSide,
    pub market_value: Seq<char>,
    pub cost_basis: Seq<char>,
    pub unrealized_pl: Seq<char>,
    pub unrealized_plpc: Seq<char>,
    pub unrealized_intraday_pl: Seq<char>,
    pub unrealized_intraday_plpc: Seq<char>,
    pub current_price: Seq<char>,
    pub lastday_price: Seq<char>,
    pub change_today: Seq<char>,
    pub asset_marginable: bool,
}

impl View for OpenPosition {
    type V = OpenPositionView;

    open spec fn view(&self) -> OpenPositionView {
        OpenPositionView {
            asset_id: self.asset_id,
            symbol: self.symbol@,
            exchange: self.exchange@,
            asset_class: self.asset_class,
            avg_entry_price: optional_view(self.avg_entry_price),
            qty: self.qty@,
            qty_available: self.qty_available@,
            side: self.side,
            market_value: self.market_value@,
            cost_basis: self.cost_basis@,
            unrealized_pl: self.unrealized_pl@,
            unrealized_plpc: self.unrealized_plpc@,
            unrealized_intraday_pl: self.unrealized_intraday_pl@,
            unrealized_intraday_plpc: self.unrealized_intraday_plpc@,
            current_price: self.current_price@,
            lastday_price: self.lastday_price@,
            change_today: self.change_today@,
            asset_marginable: self.asset_marginable,
        }
    }
}

impl OpenPosition {
    /// What [`OpenPosition::from_json`] returns for the document `j`: the first
    /// failure among the members, in the order of the fields, or else the
    /// value that the members give.
    pub open spec fn decoded(j: JsonValue) -> Result<OpenPositionView, DecodeFailure> {
        let asset_id = identifier_of(j.member("asset_id"@));
        let symbol = text_of(j.member("symbol"@));
        let exchange = text_of(j.member("exchange"@));
        let asset_class = AssetClass::member(j.member("asset_class"@));
        let avg_entry_price = optional_number_of(j.member("avg_entry_price"@));
        let qty = number_of(j.member("qty"@));
        let qty_available = number_of(j.member("qty_available"@));
        let side = PositionSide::member(j.member("side"@));
        let market_value = number_of(j.member("market_value"@));
        let cost_basis = number_of(j.member("cost_basis"@));
        let unrealized_pl = number_of(j.member("unrealized_pl"@));
        let unrealized_plpc = number_of(j.member("unrealized_plpc"@));
        let unrealized_intraday_pl = number_of(j.member("unrealized_intraday_pl"@));
        let unrealized_intraday_plpc = number_or_zero_of(j.member("unrealized_intraday_plpc"@));
        let current_price = number_of(j.member("current_price"@));
        let lastday_price = number_of(j.member("lastday_price"@));
        let change_today = number_of(j.member("change_today"@));
        let asset_marginable = bool_of(j.member("asset_marginable"@));
        if asset_id is Err {
            Err(asset_id->Err_0)
        } else if symbol is Err {
            Err(symbol->Err_0)
        } else if exchange is Err {
            Err(exchange->Err_0)
        } else if asset_class is Err {
            Err(asset_class->Err_0)
        } else if avg_entry_price is Err {
            Err(avg_entry_price->Err_0)
        } else if qty is Err {
            Err(qty->Err_0)
        } else if qty_available is Err {
            Err(qty_available->Err_0)
        } else if side is Err {
            Err(side->Err_0)
        } else if market_value is Err {
            Err(market_value->Err_0)
        } else if cost_basis is Err {
            Err(cost_basis->Err_0)
        } else if unrealized_pl is Err {
            Err(unrealized_pl->Err_0)
        } else if unrealized_plpc is Err {
            Err(unrealized_plpc->Err_0)
        } else if unrealized_intraday_pl is Err {
            Err(unrealized_intraday_pl->Err_0)
        } else if unrealized_intraday_plpc is Err {
            Err(unrealized_intraday_plpc->Err_0)
        } else if current_price is Err {
            Err(current_price->Err_0)
        } else if lastday_price is Err {
            Err(lastday_price->Err_0)
        } else if change_today is Err {
            Err(change_today->Err_0)
        } else if asset_marginable is Err {
            Err(asset_marginable->Err_0)
        } else {
            Ok(
                OpenPositionView {
                    asset_id: asset_id->Ok_0,
                    symbol: symbol->Ok_0,
                    exchange: exchange->Ok_0,
                    asset_class: asset_class->Ok_0,
                    avg_entry_price: avg_entry_price->Ok_0,
                    qty: qty->Ok_0,
                    qty_available: qty_available->Ok_0,
                    side: side->Ok_0,
                    market_value: market_value->Ok_0,
                    cost_basis: cost_basis->Ok_0,
                    unrealized_pl: unrealized_pl->Ok_0,
                    unrealized_plpc: unrealized_plpc->Ok_0,
                    unrealized_intraday_pl: unrealized_intraday_pl->Ok_0,
                    unrealized_intraday_plpc: unrealized_intraday_plpc->Ok_0,
                    current_price: current_price->Ok_0,
                    lastday_price: lastday_price->Ok_0,
                    change_today: change_today->Ok_0,
                    asset_marginable: asset_marginable->Ok_0,
                },
            )
        }
    }

    /// What [`OpenPosition::field`] returns for a member: the member must be there.
    pub open spec fn member(v: Option<JsonValue>) -> Result<OpenPositionView, DecodeFailure> {
        match v {
            Some(j) => OpenPosition::decoded(j),
            None => Err(DecodeFailure::MalformedPayload),
        }
    }

    /// What [`OpenPosition::from_bytes`] returns for the given bytes.
    pub open spec fn decoded_bytes(bytes: Seq<u8>) -> Result<OpenPositionView, DecodeFailure> {
        OpenPosition::member(parsed_document(bytes))
    }

    /// Reads an open position from a JSON document.
    pub fn from_json(j: &Json) -> (r: Result<OpenPosition, DecodeError>)
        ensures
            viewed_result(r) == OpenPosition::decoded(j@),
    {
        let asset_id = match identifier_field(j.get("asset_id")) {
            Ok(v) => v,
            Err(e) => return Err(e),
        };
        let symbol = match owned_text_field(j.get("symbol")) {
            Ok(v) => v,
            Err(e) => return Err(e),
        };
        let exchange = match owned_text_field(j.get("exchange")) {
            Ok(v) => v,
            Err(e) => return Err(e),
        };
        let asset_class = match AssetClass::field(j.get("asset_class")) {
            Ok(v) => v,
            Err(e) => return Err(e),
        };
        let avg_entry_price = match optional_number_field(j.get("avg_entry_price")) {
            Ok(v) => v,
            Err(e) => return Err(e),
        };
        let qty = match number_field(j.get("qty")) {
            Ok(v) => v,
            Err(e) => return Err(e),
        };
        let qty_available = match number_field(j.get("qty_available")) {
            Ok(v) => v,
            Err(e) => return Err(e),
        };
        let side = match PositionSide::field(j.get("side")) {
            Ok(v) => v,
            Err(e) => return Err(e),
        };
        let market_value = match number_field(j.get("market_value")) {
            Ok(v) => v,
            Err(e) => return Err(e),
        };
        let cost_basis = match number_field(j.get("cost_basis")) {
            Ok(v) => v,
            Err(e) => return Err(e),
        };
        let unrealized_pl = match number_field(j.get("unrealized_pl")) {
            Ok(v) => v,
            Err(e) => return Err(e),
        };
        let unrealized_plpc = match number_field(j.get("unrealized_plpc")) {
            Ok(v) => v,
            Err(e) => return Err(e),
        };
        let unrealized_intraday_pl = match number_field(j.get("unrealized_intraday_pl")) {
            Ok(v) => v,
            Err(e) => return Err(e),
        };
        let unrealized_intraday_plpc = match number_or_zero_field(j.get("unrealized_intraday_plpc")) {
            Ok(v) => v,
            Err(e) => return Err(e),
        };
        let current_price = match number_field(j.get("current_price")) {
            Ok(v) => v,
            Err(e) => return Err(e),
        };
        let lastday_price = match number_field(j.get("lastday_price")) {
            Ok(v) => v,
            Err(e) => return Err(e),
        };
        let change_today = match number_field(j.get("change_today")) {
            Ok(v) => v,
            Err(e) => return Err(e),
        };
        let asset_marginable = match bool_field(j.get("asset_marginable")) {
            Ok(v) => v,
            Err(e) => return Err(e),
        };
        Ok(OpenPosition { asset_id, symbol, exchange, asset_class, avg_entry_price, qty, qty_available, side, market_value, cost_basis, unrealized_pl, unrealized_plpc, unrealized_intraday_pl, unrealized_intraday_plpc, current_price, lastday_price, change_today, asset_marginable })
    }

    /// Reads an open position from a member, which must be there.
    pub fn field(v: Option<&Json>) -> (r: Result<OpenPosition, DecodeError>)
        ensures
            viewed_result(r) == OpenPosition::member(value_of(v)),
    {
        match v {
            Some(j) => OpenPosition::from_json(j),
            None => Err(DecodeError::MalformedPayload),
        }
    }

    /// Reads an open position from the bytes of a JSON document. Bytes that are no
    /// JSON make a malformed payload.
    pub fn from_bytes(bytes: &[u8]) -> (r: Result<OpenPosition, DecodeError>)
        ensures
            viewed_result(r) == OpenPosition::decoded_bytes(bytes@),
    {
        match parse_json(bytes) {
            Some(j) => OpenPosition::from_json(&j),
            None => Err(DecodeError::MalformedPayload),
        }
    }
}

/// What the API answers for one position when all positions are closed.
///
/// The status is a number here; [`crate::orders::PositionClosed`] reads the
/// same answer with a status that is a string.
#[derive(Debug)]
pub struct CloseAllPositionsResponse {
    pub symbol: String,
    pub status: u16,
    pub body: OrderResponse,
}

/// The mathematical value of the answer to the closing of a position.
pub struct CloseAllPositionsResponseView {
    pub symbol: Seq<char>,
    pub status: u16,
    pub body: OrderResponseView,
}

impl View for CloseAllPositionsResponse {
    type V = CloseAllPositionsResponseView;

    open spec fn view(&self) -> CloseAllPositionsResponseView {
        CloseAllPositionsResponseView {
            symbol: self.symbol@,
            status: self.status,
            body: self.body@,
        }
    }
}

impl CloseAllPositionsResponse {
    /// What [`CloseAllPositionsResponse::from_json`] returns for the document `j`: the first
    /// failure among the members, in the order of the fields, or else the
    /// value that the members give.
    pub open spec fn decoded(j: JsonValue) -> Result<CloseAllPositionsResponseView, DecodeFailure> {
        let symbol = text_of(j.member("symbol"@));
        let status = ranged_of(j.member("status"@), 0, u16::MAX as i64);
        let body = OrderResponse::member(j.member("body"@));
        if symbol is Err {
            Err(symbol->Err_0)
        } else if status is Err {
            Err(status->Err_0)
        } else if body is Err {
            Err(body->Err_0)
        } else {
            Ok(
                CloseAllPositionsResponseView {
                    symbol: symbol->Ok_0,
                    status: status->Ok_0 as u16,
                    body: body->Ok_0,
                },
            )
        }
    }

    /// What [`CloseAllPositionsResponse::field`] returns for a member: the member must be there.
    pub open spec fn member(v: Option<JsonValue>) -> Result<CloseAllPositionsResponseView, DecodeFailure> {
        match v {
            Some(j) => CloseAllPositionsResponse::decoded(j),
            None => Err(DecodeFailure::MalformedPayload),
        }
    }

    /// What [`CloseAllPositionsResponse::from_bytes`] returns for the given bytes.
    pub open spec fn decoded_bytes(bytes: Seq<u8>) -> Result<CloseAllPositionsResponseView, DecodeFailure> {
        CloseAllPositionsResponse::member(parsed_document(bytes))
    }

    /// Reads the answer to the closing of a position from a JSON document.
    pub fn from_json(j: &Json) -> (r: Result<CloseAllPositionsResponse, DecodeError>)
        ensures
            viewed_result(r) == CloseAllPositionsResponse::decoded(j@),
    {
        let symbol = match owned_text_field(j.get("symbol")) {
            Ok(v) => v,
            Err(e) => return Err(e),
        };
        let status = match u16_field(j.get("status")) {
            Ok(v) => v,
            Err(e) => return Err(e),
        };
        let body = match OrderResponse::field(j.get("body")) {
            Ok(v) => v,
            Err(e) => return Err(e),
        };
        Ok(CloseAllPositionsResponse { symbol, status, body })
    }

    /// Reads the answer to the closing of a position from a member, which must be there.
    pub fn field(v: Option<&Json>) -> (r: Result<CloseAllPositionsResponse, DecodeError>)
        ensures
            viewed_result(r) == CloseAllPositionsResponse::member(value_of(v)),
    {
        match v {
            Some(j) => CloseAllPositionsResponse::from_json(j),
            None => Err(DecodeError::MalformedPayload),
        }
    }

    /// Reads the answer to the closing of a position from the bytes of a JSON document. Bytes that are no
    /// JSON make a malformed payload.
    pub fn from_bytes(bytes: &[u8]) -> (r: Result<CloseAllPositionsResponse, DecodeError>)
        ensures
            viewed_result(r) == CloseAllPositionsResponse::decoded_bytes(bytes@),
    {
        match parse_json(bytes) {
            Some(j) => CloseAllPositionsResponse::from_json(&j),
            None => Err(DecodeError::MalformedPayload),
        }
    }
}

/// Reads an open position from the bytes of a JSON document.
pub fn decode_open_position(bytes: &[u8]) -> (r: Result<OpenPosition, DecodeError>)
    ensures
        viewed_result(r) == OpenPosition::decoded_bytes(bytes@),
{
    OpenPosition::from_bytes(bytes)
}

} // verus!
