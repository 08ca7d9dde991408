use vstd::prelude::*;
use crate::errors::{plain_result, viewed_result, DecodeError, DecodeFailure};
use crate::fields::{
    bool_field, bool_of, identifier_field, identifier_of, integer_field, integer_of, opaque_field,
    opaque_of, optional_json_view, optional_number_field, optional_number_of,
    optional_owned_text_field, optional_text_of, optional_text_view, optional_time_field,
    optional_time_of, owned_text_field, text_field, text_of, time_field, time_of, value_of,
};
use crate::json::{parse_json, parsed_document, quote, quoted_text, Json, JsonValue};
use crate::numeric::{format_quantity, optional_view, quantity_text, Number};
use crate::text::str_eq;

verus! {

/// Which way an order trades.
#[derive(Debug, Clone, Copy, PartialEq, Eq, Structural)]
pub enum OrderSide {
    Buy,
    Sell,
}

impl OrderSide {
    /// The string that stands for the variant on the wire.
    pub open spec fn wire(self) -> Seq<char> {
        match self {
            OrderSide::Buy => "buy"@,
            OrderSide::Sell => "sell"@,
        }
    }

    /// The variant that `s` stands for, if it stands for one.
    pub open spec fn of_wire(s: Seq<char>) -> Option<OrderSide> {
        if s == "buy"@ {
            Some(OrderSide::Buy)
        } else if s == "sell"@ {
            Some(OrderSide::Sell)
        } else {
            None
        }
    }

    /// What [`OrderSide::from_wire`] returns for `s`.
    pub open spec fn decoded(s: Seq<char>) -> Result<OrderSide, DecodeFailure> {
        match OrderSide::of_wire(s) {
            Some(v) => Ok(v),
            None => Err(DecodeFailure::UnknownVariant { field: "side"@, value: s }),
        }
    }

    /// What [`OrderSide::field`] returns for a member: it must be a string of
    /// the table.
    pub open spec fn member(v: Option<JsonValue>) -> Result<OrderSide, DecodeFailure> {
        match text_of(v) {
            Ok(t) => OrderSide::decoded(t),
            Err(e) => Err(e),
        }
    }

    /// The string that stands for the variant on the wire.
    pub fn as_str(&self) -> (r: &'static str)
        ensures
            r@ == self.wire(),
    {
        match self {
            OrderSide::Buy => "buy",
            OrderSide::Sell => "sell",
        }
    }

    /// The string that stands for the variant on the wire, as a `String`.
    pub fn to_string(&self) -> (r: String)
        ensures
            r@ == self.wire(),
    {
        self.as_str().to_owned()
    }

    /// Reads a variant from its wire string. A string that is not in the
    /// table is an error; it is never taken for some variant.
    pub fn from_wire(s: &str) -> (r: Result<OrderSide, DecodeError>)
        ensures
            plain_result(r) == OrderSide::decoded(s@),
    {
        if str_eq(s, "buy") {
            Ok(OrderSide::Buy)
        } else if str_eq(s, "sell") {
            Ok(OrderSide::Sell)
        } else {
            Err(DecodeError::unknown_variant("side", s))
        }
    }

    /// Reads a variant from a member, which must be a string of the table.
    pub fn field(v: Option<&Json>) -> (r: Result<OrderSide, DecodeError>)
        ensures
            plain_result(r) == OrderSide::member(value_of(v)),
    {
        match text_field(v) {
            Ok(t) => OrderSide::from_wire(t),
            Err(e) => Err(e),
        }
    }

    /// Each variant has a wire string of its own, and reading that string
    /// gives the variant back.
    pub proof fn lemma_wire_round_trip(v: OrderSide)
        ensures
            OrderSide::of_wire(v.wire()) == Some(v),
            OrderSide::decoded(v.wire()) == Ok::<OrderSide, DecodeFailure>(v),
    {
        reveal_strlit("buy");
        reveal_strlit("sell");
        assert("buy"@.len() == 3);
        assert("sell"@.len() == 4);
    }

    /// A string that no variant is written with is refused as an unknown
    /// variant, and a string that is read is the one its variant is written
    /// with.
    pub proof fn lemma_unknown_is_refused(s: Seq<char>)
        ensures
            (forall|v: OrderSide| v.wire() != s) ==> OrderSide::decoded(s) == Err::<OrderSide, DecodeFailure>(
                DecodeFailure::UnknownVariant { field: "side"@, value: s },
            ),
            forall|v: OrderSide| OrderSide::decoded(s) == Ok::<OrderSide, DecodeFailure>(v) ==> v.wire() == s,
    {
        if forall|v: OrderSide| v.wire() != s {
            assert(OrderSide::Buy.wire() != s);
            assert(OrderSide::Sell.wire() != s);
        }
    }
}

/// How an order is priced.
#[derive(Debug, Clone, Copy, PartialEq, Eq, Structural)]
pub enum OrderType {
    Market,
    Limit,
}

impl OrderType {
    /// The string that stands for the variant on the wire.
    pub open spec fn wire(self) -> Seq<char> {
        match self {
            OrderType::Market => "market"@,
            OrderType::Limit => "limit"@,
        }
    }

    /// The variant that `s` stands for, if it stands for one.
    pub open spec fn of_wire(s: Seq<char>) -> Option<OrderType> {
        if s == "market"@ {
            Some(OrderType::Market)
        } else if s == "limit"@ {
            Some(OrderType::Limit)
        } else {
            None
        }
    }

    /// What [`OrderType::from_wire`] returns for `s`.
    pub open spec fn decoded(s: Seq<char>) -> Result<OrderType, DecodeFailure> {
        match OrderType::of_wire(s) {
            Some(v) => Ok(v),
            None => Err(DecodeFailure::UnknownVariant { field: "type"@, value: s }),
        }
    }

    /// What [`OrderType::field`] returns for a member: it must be a string of
    /// the table.
    pub open spec fn member(v: Option<JsonValue>) -> Result<OrderType, DecodeFailure> {
        match text_of(v) {
            Ok(t) => OrderType::decoded(t),
            Err(e) => Err(e),
        }
    }

    /// The string that stands for the variant on the wire.
    pub fn as_str(&self) -> (r: &'static str)
        ensures
            r@ == self.wire(),
    {
        match self {
            OrderType::Market => "market",
            OrderType::Limit => "limit",
        }
    }

    /// The string that stands for the variant on the wire, as a `String`.
    pub fn to_string(&self) -> (r: String)
        ensures
            r@ == self.wire(),
    {
        self.as_str().to_owned()
    }

    /// Reads a variant from its wire string. A string that is not in the
    /// table is an error; it is never taken for some variant.
    pub fn from_wire(s: &str) -> (r: Result<OrderType, DecodeError>)
        ensures
            plain_result(r) == OrderType::decoded(s@),
    {
        if str_eq(s, "market") {
            Ok(OrderType::Market)
        } else if str_eq(s, "limit") {
            Ok(OrderType::Limit)
        } else {
            Err(DecodeError::unknown_variant("type", s))
        }
    }

    /// Reads a variant from a member, which must be a string of the table.
    pub fn field(v: Option<&Json>) -> (r: Result<OrderType, DecodeError>)
        ensures
            plain_result(r) == OrderType::member(value_of(v)),
    {
        match text_field(v) {
            Ok(t) => OrderType::from_wire(t),
            Err(e) => Err(e),
        }
    }

    /// Each variant has a wire string of its own, and reading that string
    /// gives the variant back.
    pub proof fn lemma_wire_round_trip(v: OrderType)
        ensures
            OrderType::of_wire(v.wire()) == Some(v),
            OrderType::decoded(v.wire()) == Ok::<OrderType, DecodeFailure>(v),
    {
        reveal_strlit("market");
        reveal_strlit("limit");
        assert("market"@.len() == 6);
        assert("limit"@.len() == 5);
    }

    /// A string that no variant is written with is refused as an unknown
    /// variant, and a string that is read is the one its variant is written
    /// with.
    pub proof fn lemma_unknown_is_refused(s: Seq<char>)
        ensures
            (forall|v: OrderType| v.wire() != s) ==> OrderType::decoded(s) == Err::<OrderType, DecodeFailure>(
                DecodeFailure::UnknownVariant { field: "type"@, value: s },
            ),
            forall|v: OrderType| OrderType::decoded(s) == Ok::<OrderType, DecodeFailure>(v) ==> v.wire() == s,
    {
        if forall|v: OrderType| v.wire() != s {
            assert(OrderType::Market.wire() != s);
            assert(OrderType::Limit.wire() != s);
        }
    }
}

/// How long an order stays active before the venue cancels it.
#[derive(Debug, Clone, Copy, PartialEq, Eq, Structural)]
pub enum TimeInForce {
    Day,
    Gtc,
}

impl TimeInForce {
    /// The string that stands for the variant on the wire.
    pub open spec fn wire(self) -> Seq<char> {
        match self {
            TimeInForce::Day => "day"@,
            TimeInForce::Gtc => "gtc"@,
        }
    }

    /// The variant that `s` stands for, if it stands for one.
    pub open spec fn of_wire(s: Seq<char>) -> Option<TimeInForce> {
        if s == "day"@ {
            Some(TimeInForce::Day)
        } else if s == "gtc"@ {
            Some(TimeInForce::Gtc)
        } else {
            None
        }
    }

    /// What [`TimeInForce::from_wire`] returns for `s`.
    pub open spec fn decoded(s: Seq<char>) -> Result<TimeInForce, DecodeFailure> {
        match TimeInForce::of_wire(s) {
            Some(v) => Ok(v),
            None => Err(DecodeFailure::UnknownVariant { field: "time_in_force"@, value: s }),
        }
    }

    /// What [`TimeInForce::field`] returns for a member: it must be a string of
    /// the table.
    pub open spec fn member(v: Option<JsonValue>) -> Result<TimeInForce, DecodeFailure> {
        match text_of(v) {
            Ok(t) => TimeInForce::decoded(t),
            Err(e) => Err(e),
        }
    }

    /// The string that stands for the variant on the wire.
    pub fn as_str(&self) -> (r: &'static str)
        ensures
            r@ == self.wire(),
    {
        match self {
            TimeInForce::Day => "day",
            TimeInForce::Gtc => "gtc",
        }
    }

    /// The string that stands for the variant on the wire, as a `String`.
    pub fn to_string(&self) -> (r: String)
        ensures
            r@ == self.wire(),
    {
        self.as_str().to_owned()
    }

    /// Reads a variant from its wire string. A string that is not in the
    /// table is an error; it is never taken for some variant.
    pub fn from_wire(s: &str) -> (r: Result<TimeInForce, DecodeError>)
        ensures
            plain_result(r) == TimeInForce::decoded(s@),
    {
        if str_eq(s, "day") {
            Ok(TimeInForce::Day)
        } else if str_eq(s, "gtc") {
            Ok(TimeInForce::Gtc)
        } else {
            Err(DecodeError::unknown_variant("time_in_force", s))
        }
    }

    /// Reads a variant from a member, which must be a string of the table.
    pub fn field(v: Option<&Json>) -> (r: Result<TimeInForce, DecodeError>)
        ensures
            plain_result(r) == TimeInForce::member(value_of(v)),
    {
        match text_field(v) {
            Ok(t) => TimeInForce::from_wire(t),
            Err(e) => Err(e),
        }
    }

    /// Each variant has a wire string of its own, and reading that string
    /// gives the variant back.
    pub proof fn lemma_wire_round_trip(v: TimeInForce)
        ensures
            TimeInForce::of_wire(v.wire()) == Some(v),
            TimeInForce::decoded(v.wire()) == Ok::<TimeInForce, DecodeFailure>(v),
    {
        reveal_strlit("day");
        reveal_strlit("gtc");
        assert("day"@.len() == 3);
        assert("gtc"@.len() == 3);
        assert("day"@[0] == 'd');
        assert("gtc"@[0] == 'g');
    }

    /// A string that no variant is written with is refused as an unknown
    /// variant, and a string that is read is the one its variant is written
    /// with.
    pub proof fn lemma_unknown_is_refused(s: Seq<char>)
        ensures
            (forall|v: TimeInForce| v.wire() != s) ==> TimeInForce::decoded(s) == Err::<TimeInForce, DecodeFailure>(
                DecodeFailure::UnknownVariant { field: "time_in_force"@, value: s },
            ),
            forall|v: TimeInForce| TimeInForce::decoded(s) == Ok::<TimeInForce, DecodeFailure>(v) ==> v.wire() == s,
    {
        if forall|v: TimeInForce| v.wire() != s {
            assert(TimeInForce::Day.wire() != s);
            assert(TimeInForce::Gtc.wire() != s);
        }
    }
}

/// The category of a tradable instrument.
#[derive(Debug, Clone, Copy, PartialEq, Eq, Structural)]
pub enum AssetClass {
    USEquity,
    USOption,
    Crypto,
}

impl AssetClass {
    /// The string that stands for the variant on the wire.
    pub open spec fn wire(self) -> Seq<char> {
        match self {
            AssetClass::USEquity => "us_equity"@,
            AssetClass::USOption => "us_option"@,
            AssetClass::Crypto => "crypto"@,
        }
    }

    /// The variant that `s` stands for, if it stands for one.
    pub open spec fn of_wire(s: Seq<char>) -> Option<AssetClass> {
        if s == "us_equity"@ {
            Some(AssetClass::USEquity)
        } else if s == "us_option"@ {
            Some(AssetClass::USOption)
        } else if s == "crypto"@ {
            Some(AssetClass::Crypto)
        } else {
            None
        }
    }

    /// What [`AssetClass::from_wire`] returns for `s`.
    pub open spec fn decoded(s: Seq<char>) -> Result<AssetClass, DecodeFailure> {
        match AssetClass::of_wire(s) {
            Some(v) => Ok(v),
            None => Err(DecodeFailure::UnknownVariant { field: "asset_class"@, value: s }),
        }
    }

    /// What [`AssetClass::field`] returns for a member: it must be a string of
    /// the table.
    pub open spec fn member(v: Option<JsonValue>) -> Result<AssetClass, DecodeFailure> {
        match text_of(v) {
            Ok(t) => AssetClass::decoded(t),
            Err(e) => Err(e),
        }
    }

    /// The string that stands for the variant on the wire.
    pub fn as_str(&self) -> (r: &'static str)
        ensures
            r@ == self.wire(),
    {
        match self {
            AssetClass::USEquity => "us_equity",
            AssetClass::USOption => "us_option",
            AssetClass::Crypto => "crypto",
        }
    }

    /// The string that stands for the variant on the wire, as a `String`.
    pub fn to_string(&self) -> (r: String)
        ensures
            r@ == self.wire(),
    {
        self.as_str().to_owned()
    }

    /// Reads a variant from its wire string. A string that is not in the
    /// table is an error; it is never taken for some variant.
    pub fn from_wire(s: &str) -> (r: Result<AssetClass, DecodeError>)
        ensures
            plain_result(r) == AssetClass::decoded(s@),
    {
        if str_eq(s, "us_equity") {
            Ok(AssetClass::USEquity)
        } else if str_eq(s, "us_option") {
            Ok(AssetClass::USOption)
        } else if str_eq(s, "crypto") {
            Ok(AssetClass::Crypto)
        } else {
            Err(DecodeError::unknown_variant("asset_class", s))
        }
    }

    /// Reads a variant from a member, which must be a string of the table.
    pub fn field(v: Option<&Json>) -> (r: Result<AssetClass, DecodeError>)
        ensures
            plain_result(r) == AssetClass::member(value_of(v)),
    {
        match text_field(v) {
            Ok(t) => AssetClass::from_wire(t),
            Err(e) => Err(e),
        }
    }

    /// Each variant has a wire string of its own, and reading that string
    /// gives the variant back.
    pub proof fn lemma_wire_round_trip(v: AssetClass)
        ensures
            AssetClass::of_wire(v.wire()) == Some(v),
            AssetClass::decoded(v.wire()) == Ok::<AssetClass, DecodeFailure>(v),
    {
        reveal_strlit("us_equity");
        reveal_strlit("us_option");
        reveal_strlit("crypto");
        assert("us_equity"@.len() == 9);
        assert("us_option"@.len() == 9);
        assert("crypto"@.len() == 6);
        assert("us_equity"@[3] == 'e');
        assert("us_option"@[3] == 'o');
    }

    /// A string that no variant is written with is refused as an unknown
    /// variant, and a string that is read is the one its variant is written
    /// with.
    pub proof fn lemma_unknown_is_refused(s: Seq<char>)
        ensures
            (forall|v: AssetClass| v.wire() != s) ==> AssetClass::decoded(s) == Err::<AssetClass, DecodeFailure>(
                DecodeFailure::UnknownVariant { field: "asset_class"@, value: s },
            ),
            forall|v: AssetClass| AssetClass::decoded(s) == Ok::<AssetClass, DecodeFailure>(v) ==> v.wire() == s,
    {
        if forall|v: AssetClass| v.wire() != s {
            assert(AssetClass::USEquity.wire() != s);
            assert(AssetClass::USOption.wire() != s);
            assert(AssetClass::Crypto.wire() != s);
        }
    }
}

/// Where an order stands in its life at the brokerage.
#[derive(Debug, Clone, Copy, PartialEq, Eq, Structural)]
pub enum OrderStatus {
    New,
    PartiallyFilled,
    Filled,
    DoneForDay,
    Canceled,
    Expired,
    Replaced,
    PendingCancel,
    PendingReplace,
    Accepted,
    PendingNew,
    AcceptedForBidding,
    Stopped,
    Rejected,
    Suspended,
    Calculated,
}

impl OrderStatus {
    /// The string that stands for the variant on the wire.
    pub open spec fn wire(self) -> Seq<char> {
        match self {
            OrderStatus::New => "new"@,
            OrderStatus::PartiallyFilled => "partially_filled"@,
            OrderStatus::Filled => "filled"@,
            OrderStatus::DoneForDay => "done_for_day"@,
            OrderStatus::Canceled => "canceled"@,
            OrderStatus::Expired => "expired"@,
            OrderStatus::Replaced => "replaced"@,
            OrderStatus::PendingCancel => "pending_cancel"@,
            OrderStatus::PendingReplace => "pending_replace"@,
            OrderStatus::Accepted => "accepted"@,
            OrderStatus::PendingNew => "pending_new"@,
            OrderStatus::AcceptedForBidding => "accepted_for_bidding"@,
            OrderStatus::Stopped => "stopped"@,
            OrderStatus::Rejected => "rejected"@,
            OrderStatus::Suspended => "suspended"@,
            OrderStatus::Calculated => "calculated"@,
        }
    }

    /// The variant that `s` stands for, if it stands for one.
    pub open spec fn of_wire(s: Seq<char>) -> Option<OrderStatus> {
        if s == "new"@ {
            Some(OrderStatus::New)
        } else if s == "partially_filled"@ {
            Some(OrderStatus::PartiallyFilled)
        } else if s == "filled"@ {
            Some(OrderStatus::Filled)
        } else if s == "done_for_day"@ {
            Some(OrderStatus::DoneForDay)
        } else if s == "canceled"@ {
            Some(OrderStatus::Canceled)
        } else if s == "expired"@ {
            Some(OrderStatus::Expired)
        } else if s == "replaced"@ {
            Some(OrderStatus::Replaced)
        } else if s == "pending_cancel"@ {
            Some(OrderStatus::PendingCancel)
        } else if s == "pending_replace"@ {
            Some(OrderStatus::PendingReplace)
        } else if s == "accepted"@ {
            Some(OrderStatus::Accepted)
        } else if s == "pending_new"@ {
            Some(OrderStatus::PendingNew)
        } else if s == "accepted_for_bidding"@ {
            Some(OrderStatus::AcceptedForBidding)
        } else if s == "stopped"@ {
            Some(OrderStatus::Stopped)
        } else if s == "rejected"@ {
            Some(OrderStatus::Rejected)
        } else if s == "suspended"@ {
            Some(OrderStatus::Suspended)
        } else if s == "calculated"@ {
            Some(OrderStatus::Calculated)
        } else {
            None
        }
    }

    /// What [`OrderStatus::from_wire`] returns for `s`.
    pub open spec fn decoded(s: Seq<char>) -> Result<OrderStatus, DecodeFailure> {
        match OrderStatus::of_wire(s) {
            Some(v) => Ok(v),
            None => Err(DecodeFailure::UnknownVariant { field: "status"@, value: s }),
        }
    }

    /// What [`OrderStatus::field`] returns for a member: it must be a string of
    /// the table.
    pub open spec fn member(v: Option<JsonValue>) -> Result<OrderStatus, DecodeFailure> {
        match text_of(v) {
            Ok(t) => OrderStatus::decoded(t),
            Err(e) => Err(e),
        }
    }

    /// The string that stands for the variant on the wire.
    pub fn as_str(&self) -> (r: &'static str)
        ensures
            r@ == self.wire(),
    {
        match self {
            OrderStatus::New => "new",
            OrderStatus::PartiallyFilled => "partially_filled",
            OrderStatus::Filled => "filled",
            OrderStatus::DoneForDay => "done_for_day",
            OrderStatus::Canceled => "canceled",
            OrderStatus::Expired => "expired",
            OrderStatus::Replaced => "replaced",
            OrderStatus::PendingCancel => "pending_cancel",
            OrderStatus::PendingReplace => "pending_replace",
            OrderStatus::Accepted => "accepted",
            OrderStatus::PendingNew => "pending_new",
            OrderStatus::AcceptedForBidding => "accepted_for_bidding",
            OrderStatus::Stopped => "stopped",
            OrderStatus::Rejected => "rejected",
            OrderStatus::Suspended => "suspended",
            OrderStatus::Calculated => "calculated",
        }
    }

    /// The string that stands for the variant on the wire, as a `String`.
    pub fn to_string(&self) -> (r: String)
        ensures
            r@ == self.wire(),
    {
        self.as_str().to_owned()
    }

    /// Reads a variant from its wire string. A string that is not in the
    /// table is an error; it is never taken for some variant.
    pub fn from_wire(s: &str) -> (r: Result<OrderStatus, DecodeError>)
        ensures
            plain_result(r) == OrderStatus::decoded(s@),
    {
        if str_eq(s, "new") {
            Ok(OrderStatus::New)
        } else if str_eq(s, "partially_filled") {
            Ok(OrderStatus::PartiallyFilled)
        } else if str_eq(s, "filled") {
            Ok(OrderStatus::Filled)
        } else if str_eq(s, "done_for_day") {
            Ok(OrderStatus::DoneForDay)
        } else if str_eq(s, "canceled") {
            Ok(OrderStatus::Canceled)
        } else if str_eq(s, "expired") {
            Ok(OrderStatus::Expired)
        } else if str_eq(s, "replaced") {
            Ok(OrderStatus::Replaced)
        } else if str_eq(s, "pending_cancel") {
            Ok(OrderStatus::PendingCancel)
        } else if str_eq(s, "pending_replace") {
            Ok(OrderStatus::PendingReplace)
        } else if str_eq(s, "accepted") {
            Ok(OrderStatus::Accepted)
        } else if str_eq(s, "pending_new") {
            Ok(OrderStatus::PendingNew)
        } else if str_eq(s, "accepted_for_bidding") {
            Ok(OrderStatus::AcceptedForBidding)
        } else if str_eq(s, "stopped") {
            Ok(OrderStatus::Stopped)
        } else if str_eq(s, "rejected") {
            Ok(OrderStatus::Rejected)
        } else if str_eq(s, "suspended") {
            Ok(OrderStatus::Suspended)
        } else if str_eq(s, "calculated") {
            Ok(OrderStatus::Calculated)
        } else {
            Err(DecodeError::unknown_variant("status", s))
        }
    }

    /// Reads a variant from a member, which must be a string of the table.
    pub fn field(v: Option<&Json>) -> (r: Result<OrderStatus, DecodeError>)
        ensures
            plain_result(r) == OrderStatus::member(value_of(v)),
    {
        match text_field(v) {
            Ok(t) => OrderStatus::from_wire(t),
            Err(e) => Err(e),
        }
    }

    /// Each variant has a wire string of its own, and reading that string
    /// gives the variant back.
    pub proof fn lemma_wire_round_trip(v: OrderStatus)
        ensures
            OrderStatus::of_wire(v.wire()) == Some(v),
            OrderStatus::decoded(v.wire()) == Ok::<OrderStatus, DecodeFailure>(v),
    {
        reveal_strlit("new");
        reveal_strlit("partially_filled");
        reveal_strlit("filled");
        reveal_strlit("done_for_day");
        reveal_strlit("canceled");
        reveal_strlit("expired");
        reveal_strlit("replaced");
        reveal_strlit("pending_cancel");
        reveal_strlit("pending_replace");
        reveal_strlit("accepted");
        reveal_strlit("pending_new");
        reveal_strlit("accepted_for_bidding");
        reveal_strlit("stopped");
        reveal_strlit("rejected");
        reveal_strlit("suspended");
        reveal_strlit("calculated");
        assert("new"@.len() == 3);
        assert("partially_filled"@.len() == 16);
        assert("filled"@.len() == 6);
        assert("done_for_day"@.len() == 12);
        assert("canceled"@.len() == 8);
        assert("expired"@.len() == 7);
        assert("replaced"@.len() == 8);
        assert("pending_cancel"@.len() == 14);
        assert("pending_replace"@.len() == 15);
        assert("accepted"@.len() == 8);
        assert("pending_new"@.len() == 11);
        assert("accepted_for_bidding"@.len() == 20);
        assert("stopped"@.len() == 7);
        assert("rejected"@.len() == 8);
        assert("suspended"@.len() == 9);
        assert("calculated"@.len() == 10);
        assert("canceled"@[0] == 'c');
        assert("replaced"@[0] == 'r');
        assert("rejected"@[0] == 'r');
        assert("expired"@[0] == 'e');
        assert("stopped"@[0] == 's');
        assert("accepted"@[0] == 'a');
        assert("rejected"@[2] == 'j');
        assert("replaced"@[2] == 'p');
    }

    /// A string that no variant is written with is refused as an unknown
    /// variant, and a string that is read is the one its variant is written
    /// with.
    pub proof fn lemma_unknown_is_refused(s: Seq<char>)
        ensures
            (forall|v: OrderStatus| v.wire() != s) ==> OrderStatus::decoded(s) == Err::<OrderStatus, DecodeFailure>(
                DecodeFailure::UnknownVariant { field: "status"@, value: s },
            ),
            forall|v: OrderStatus| OrderStatus::decoded(s) == Ok::<OrderStatus, DecodeFailure>(v) ==> v.wire() == s,
    {
        if forall|v: OrderStatus| v.wire() != s {
            assert(OrderStatus::New.wire() != s);
            assert(OrderStatus::PartiallyFilled.wire() != s);
            assert(OrderStatus::Filled.wire() != s);
            assert(OrderStatus::DoneForDay.wire() != s);
            assert(OrderStatus::Canceled.wire() != s);
            assert(OrderStatus::Expired.wire() != s);
            assert(OrderStatus::Replaced.wire() != s);
            assert(OrderStatus::PendingCancel.wire() != s);
            assert(OrderStatus::PendingReplace.wire() != s);
            assert(OrderStatus::Accepted.wire() != s);
            assert(OrderStatus::PendingNew.wire() != s);
            assert(OrderStatus::AcceptedForBidding.wire() != s);
            assert(OrderStatus::Stopped.wire() != s);
            assert(OrderStatus::Rejected.wire() != s);
            assert(OrderStatus::Suspended.wire() != s);
            assert(OrderStatus::Calculated.wire() != s);
        }
    }
}

/// An order to send to the API.
#[derive(Debug, Clone)]
pub struct OrderRequest {
    pub symbol: String,
    /// Goes out as a string, not as a JSON number.
    pub qty: Number,
    pub side: OrderSide,
    /// Goes out under the name `type`.
    pub order_type: OrderType,
    pub time_in_force: TimeInForce,
}

/// The mathematical value of an [`OrderRequest`].
pub struct OrderRequestView {
    pub symbol: Seq<char>,
    pub qty: Seq<char>,
    pub side: OrderSide,
    pub order_type: OrderType,
    pub time_in_force: TimeInForce,
}

impl View for OrderRequest {
    type V = OrderRequestView;

    open spec fn view(&self) -> OrderRequestView {
        OrderRequestView {
            symbol: self.symbol@,
            qty: self.qty@,
            side: self.side,
            order_type: self.order_type,
            time_in_force: self.time_in_force,
        }
    }
}

/// The JSON object of an order request, given the JSON strings of its
/// symbol and of its quantity: five members, in this order, without space.
pub open spec fn order_request_text(
    symbol: Seq<char>,
    qty: Seq<char>,
    side: OrderSide,
    order_type: OrderType,
    time_in_force: TimeInForce,
) -> Seq<char> {
    "{\"symbol\":"@ + symbol + ",\"qty\":"@ + qty + ",\"side\":\""@ + side.wire()
        + "\",\"type\":\""@ + order_type.wire() + "\",\"time_in_force\":\""@
        + time_in_force.wire() + "\"}"@
}

impl OrderRequestView {
    /// The JSON text of the request, where `serde_json` writes the symbol
    /// and the quantity as JSON strings.
    pub open spec fn encoded(self) -> Option<Seq<char>> {
        match (quoted_text(self.symbol), quoted_text(quantity_text(self.qty))) {
            (Some(symbol), Some(qty)) => Some(
                order_request_text(symbol, qty, self.side, self.order_type, self.time_in_force),
            ),
            _ => None,
        }
    }
}

impl OrderRequest {
    /// The JSON object of the request, given the JSON strings of its symbol
    /// and of its quantity.
    pub fn assemble(&self, symbol: &str, qty: &str) -> (r: String)
        ensures
            r@ == order_request_text(
                symbol@,
                qty@,
                self.side,
                self.order_type,
                self.time_in_force,
            ),
    {
        let mut out = "{\"symbol\":".to_owned();
        out.append(symbol);
        out.append(",\"qty\":");
        out.append(qty);
        out.append(",\"side\":\"");
        out.append(self.side.as_str());
        out.append("\",\"type\":\"");
        out.append(self.order_type.as_str());
        out.append("\",\"time_in_force\":\"");
        out.append(self.time_in_force.as_str());
        out.append("\"}");
        out
    }

    /// The JSON text of the request.
    pub fn to_json_text(&self) -> (r: Option<String>)
        ensures
            optional_text_view(r) == self@.encoded(),
    {
        let symbol = match quote(self.symbol.as_str()) {
            Some(q) => q,
            None => return None,
        };
        let qty = match quote(format_quantity(&self.qty).as_str()) {
            Some(q) => q,
            None => return None,
        };
        Some(self.assemble(symbol.as_str(), qty.as_str()))
    }
}

/// The bytes of the JSON text of an order request: its symbol, its quantity
/// as a string, its side, its type and its time in force.
pub fn encode_order_request(req: &OrderRequest) -> (r: Option<Vec<u8>>)
    ensures
        match r {
            Some(bytes) => req@.encoded() is Some && bytes@ == vstd::utf8::encode_utf8(
                req@.encoded()->0,
            ),
            None => req@.encoded() is None,
        },
{
    match req.to_json_text() {
        Some(text) => Some(text.as_str().as_bytes_vec()),
        None => None,
    }
}

/// What the API answers for an order.
#[derive(Debug)]
pub struct OrderResponse {
    pub id: uuid::Uuid,
    pub client_order_id: String,
    pub created_at: time::OffsetDateTime,
    pub updated_at: time::OffsetDateTime,
    pub submitted_at: time::OffsetDateTime,
    pub filled_at: Option<time::OffsetDateTime>,
    pub expired_at: Option<time::OffsetDateTime>,
    pub canceled_at: Option<time::OffsetDateTime>,
    pub failed_at: Option<time::OffsetDateTime>,
    pub replaced_at: Option<time::OffsetDateTime>,
    /// The order that replaced this one.
    pub replaced_by: Option<String>,
    /// The order that this one replaces.
    pub replaces: Option<String>,
    /// For options, the identifier of the option contract.
    pub asset_id: uuid::Uuid,
    pub symbol: String,
    pub asset_class: AssetClass,
    /// Ordered notional amount; where it is given, `qty` is not.
    pub notional: Option<String>,
    /// Ordered quantity; where it is given, `notional` is not.
    pub qty: Option<Number>,
    pub filled_qty: String,
    pub filled_avg_price: Option<Number>,
    /// Simple, bracket, oco or oto.
    pub order_class: String,
    pub order_type: OrderType,
    pub order_side: OrderSide,
    pub time_in_force: TimeInForce,
    pub limit_price: Option<Number>,
    pub stop_price: Option<Number>,
    pub status: OrderStatus,
    pub extended_hours: bool,
    /// The members that have no field of their own, kept as they came.
    pub legs: Json,
    pub trail_percent: Option<Json>,
    pub trail_price: Option<Json>,
    pub hwm: Option<Json>,
    pub subtag: Option<Json>,
    pub source: Option<Json>,
}

/// The mathematical value of the answer to an order.
pub struct OrderResponseView {
    pub id: uuid::Uuid,
    pub client_order_id: Seq<char>,
    pub created_at: time::OffsetDateTime,
    pub updated_at: time::OffsetDateTime,
    pub submitted_at: time::OffsetDateTime,
    pub filled_at: Option<time::OffsetDateTime>,
    pub expired_at: Option<time::OffsetDateTime>,
    pub canceled_at: Option<time::OffsetDateTime>,
    pub failed_at: Option<time::OffsetDateTime>,
    pub replaced_at: Option<time::OffsetDateTime>,
    pub replaced_by: Option<Seq<char>>,
    pub replaces: Option<Seq<char>>,
    pub asset_id: uuid::Uuid,
    pub symbol: Seq<char>,
    pub asset_class: AssetClass,
    pub notional: Option<Seq<char>>,
    pub qty: Option<Seq<char>>,
    pub filled_qty: Seq<char>,
    pub filled_avg_price: Option<Seq<char>>,
    pub order_class: Seq<char>,
    pub order_type: OrderType,
    pub order_side: OrderSide,
    pub time_in_force: TimeInForce,
    pub limit_price: Option<Seq<char>>,
    pub stop_price: Option<Seq<char>>,
    pub status: OrderStatus,
    pub extended_hours: bool,
    pub legs: JsonValue,
    pub trail_percent: Option<JsonValue>,
    pub trail_price: Option<JsonValue>,
    pub hwm: Option<JsonValue>,
    pub subtag: Option<JsonValue>,
    pub source: Option<JsonValue>,
}

impl View for OrderResponse {
    type V = OrderResponseView;

    open spec fn view(&self) -> OrderResponseView {
        OrderResponseView {
            id: self.id,
            client_order_id: self.client_order_id@,
            created_at: self.created_at,
            updated_at: self.updated_at,
            submitted_at: self.submitted_at,
            filled_at: self.filled_at,
            expired_at: self.expired_at,
            canceled_at: self.canceled_at,
            failed_at: self.failed_at,
            replaced_at: self.replaced_at,
            replaced_by: optional_text_view(self.replaced_by),
            replaces: optional_text_view(self.replaces),
            asset_id: self.asset_id,
            symbol: self.symbol@,
            asset_class: self.asset_class,
            notional: optional_text_view(self.notional),
            qty: optional_view(self.qty),
            filled_qty: self.filled_qty@,
            filled_avg_price: optional_view(self.filled_avg_price),
            order_class: self.order_class@,
            order_type: self.order_type,
            order_side: self.order_side,
            time_in_force: self.time_in_force,
            limit_price: optional_view(self.limit_price),
            stop_price: optional_view(self.stop_price),
            status: self.status,
            extended_hours: self.extended_hours,
            legs: self.legs@,
            trail_percent: optional_json_view(self.trail_percent),
            trail_price: optional_json_view(self.trail_price),
            hwm: optional_json_view(self.hwm),
            subtag: optional_json_view(self.subtag),
            source: optional_json_view(self.source),
        }
    }
}

impl OrderResponse {
    /// The names of the members that have a field of their own.
    pub open spec fn claimed_names() -> Seq<Seq<char>> {
        seq![
            "id"@,
            "client_order_id"@,
            "created_at"@,
            "updated_at"@,
            "submitted_at"@,
            "filled_at"@,
            "expired_at"@,
            "canceled_at"@,
            "failed_at"@,
            "replaced_at"@,
            "replaced_by"@,
            "replaces"@,
            "asset_id"@,
            "symbol"@,
            "asset_class"@,
            "notional"@,
            "qty"@,
            "filled_qty"@,
            "filled_avg_price"@,
            "order_class"@,
            "type"@,
            "side"@,
            "time_in_force"@,
            "limit_price"@,
            "stop_price"@,
            "status"@,
            "extended_hours"@,
            "trail_percent"@,
            "trail_price"@,
            "hwm"@,
            "subtag"@,
            "source"@,
        ]
    }

    /// The names of the members that have a field of their own.
    pub fn claimed() -> (r: Vec<&'static str>)
        ensures
            r@.map_values(|n: &str| n@) == OrderResponse::claimed_names(),
    {
        let r: Vec<&'static str> = vec![
            "id",
            "client_order_id",
            "created_at",
            "updated_at",
            "submitted_at",
            "filled_at",
            "expired_at",
            "canceled_at",
            "failed_at",
            "replaced_at",
            "replaced_by",
            "replaces",
            "asset_id",
            "symbol",
            "asset_class",
            "notional",
            "qty",
            "filled_qty",
            "filled_avg_price",
            "order_class",
            "type",
            "side",
            "time_in_force",
            "limit_price",
            "stop_price",
            "status",
            "extended_hours",
            "trail_percent",
            "trail_price",
            "hwm",
            "subtag",
            "source",
        ];
        assert(r@.map_values(|n: &str| n@) =~= OrderResponse::claimed_names());
        r
    }

    /// What [`OrderResponse::from_json`] returns for the document `j`: the first
    /// failure among the members, in the order of the fields, or else the
    /// value that the members give.
    pub open spec fn decoded(j: JsonValue) -> Result<OrderResponseView, DecodeFailure> {
        let id = identifier_of(j.member("id"@));
        let client_order_id = text_of(j.member("client_order_id"@));
        let created_at = time_of(j.member("created_at"@));
        let updated_at = time_of(j.member("updated_at"@));
        let submitted_at = time_of(j.member("submitted_at"@));
        let filled_at = optional_time_of(j.member("filled_at"@));
        let expired_at = optional_time_of(j.member("expired_at"@));
        let canceled_at = optional_time_of(j.member("canceled_at"@));
        let failed_at = optional_time_of(j.member("failed_at"@));
        let replaced_at = optional_time_of(j.member("replaced_at"@));
        let replaced_by = optional_text_of(j.member("replaced_by"@));
        let replaces = optional_text_of(j.member("replaces"@));
        let asset_id = identifier_of(j.member("asset_id"@));
        let symbol = text_of(j.member("symbol"@));
        let asset_class = AssetClass::member(j.member("asset_class"@));
        let notional = optional_text_of(j.member("notional"@));
        let qty = optional_number_of(j.member("qty"@));
        let filled_qty = text_of(j.member("filled_qty"@));
        let filled_avg_price = optional_number_of(j.member("filled_avg_price"@));
        let order_class = text_of(j.member("order_class"@));
        let order_type = OrderType::member(j.member("type"@));
        let order_side = OrderSide::member(j.member("side"@));
        let time_in_force = TimeInForce::member(j.member("time_in_force"@));
        let limit_price = optional_number_of(j.member("limit_price"@));
        let stop_price = optional_number_of(j.member("stop_price"@));
        let status = OrderStatus::member(j.member("status"@));
        let extended_hours = bool_of(j.member("extended_hours"@));
        let legs = j.without(OrderResponse::claimed_names());
        let trail_percent = opaque_of(j.member("trail_percent"@));
        let trail_price = opaque_of(j.member("trail_price"@));
        let hwm = opaque_of(j.member("hwm"@));
        let subtag = opaque_of(j.member("subtag"@));
        let source = opaque_of(j.member("source"@));
        if id is Err {
            Err(id->Err_0)
        } else if client_order_id is Err {
            Err(client_order_id->Err_0)
        } else if created_at is Err {
            Err(created_at->Err_0)
        } else if updated_at is Err {
            Err(updated_at->Err_0)
        } else if submitted_at is Err {
            Err(submitted_at->Err_0)
        } else if filled_at is Err {
            Err(filled_at->Err_0)
        } else if expired_at is Err {
            Err(expired_at->Err_0)
        } else if canceled_at is Err {
            Err(canceled_at->Err_0)
        } else if failed_at is Err {
            Err(failed_at->Err_0)
        } else if replaced_at is Err {
            Err(replaced_at->Err_0)
        } else if replaced_by is Err {
            Err(replaced_by->Err_0)
        } else if replaces is Err {
            Err(replaces->Err_0)
        } else if asset_id is Err {
            Err(asset_id->Err_0)
        } else if symbol is Err {
            Err(symbol->Err_0)
        } else if asset_class is Err {
            Err(asset_class->Err_0)
        } else if notional is Err {
            Err(notional->Err_0)
        } else if qty is Err {
            Err(qty->Err_0)
        } else if filled_qty is Err {
            Err(filled_qty->Err_0)
        } else if filled_avg_price is Err {
            Err(filled_avg_price->Err_0)
        } else if order_class is Err {
            Err(order_class->Err_0)
        } else if order_type is Err {
            Err(order_type->Err_0)
        } else if order_side is Err {
            Err(order_side->Err_0)
        } else if time_in_force is Err {
            Err(time_in_force->Err_0)
        } else if limit_price is Err {
            Err(limit_price->Err_0)
        } else if stop_price is Err {
            Err(stop_price->Err_0)
        } else if status is Err {
            Err(status->Err_0)
        } else if extended_hours is Err {
            Err(extended_hours->Err_0)
        } else {
            Ok(
                OrderResponseView {
                    id: id->Ok_0,
                    client_order_id: client_order_id->Ok_0,
                    created_at: created_at->Ok_0,
                    updated_at: updated_at->Ok_0,
                    submitted_at: submitted_at->Ok_0,
                    filled_at: filled_at->Ok_0,
                    expired_at: expired_at->Ok_0,
                    canceled_at: canceled_at->Ok_0,
                    failed_at: failed_at->Ok_0,
                    replaced_at: replaced_at->Ok_0,
                    replaced_by: replaced_by->Ok_0,
                    replaces: replaces->Ok_0,
                    asset_id: asset_id->Ok_0,
                    symbol: symbol->Ok_0,
                    asset_class: asset_class->Ok_0,
                    notional: notional->Ok_0,
                    qty: qty->Ok_0,
                    filled_qty: filled_qty->Ok_0,
                    filled_avg_price: filled_avg_price->Ok_0,
                    order_class: order_class->Ok_0,
                    order_type: order_type->Ok_0,
                    order_side: order_side->Ok_0,
                    time_in_force: time_in_force->Ok_0,
                    limit_price: limit_price->Ok_0,
                    stop_price: stop_price->Ok_0,
                    status: status->Ok_0,
                    extended_hours: extended_hours->Ok_0,
                    legs: legs,
                    trail_percent: trail_percent,
                    trail_price: trail_price,
                    hwm: hwm,
                    subtag: subtag,
                    source: source,
                },
            )
        }
    }

    /// What [`OrderResponse::field`] returns for a member: the member must be there.
    pub open spec fn member(v: Option<JsonValue>) -> Result<OrderResponseView, DecodeFailure> {
        match v {
            Some(j) => OrderResponse::decoded(j),
            None => Err(DecodeFailure::MalformedPayload),
        }
    }

    /// What [`OrderResponse::from_bytes`] returns for the given bytes.
    pub open spec fn decoded_bytes(bytes: Seq<u8>) -> Result<OrderResponseView, DecodeFailure> {
        OrderResponse::member(parsed_document(bytes))
    }

    /// Reads the answer to an order from a JSON document.
    pub fn from_json(j: &Json) -> (r: Result<OrderResponse, DecodeError>)
        ensures
            viewed_result(r) == OrderResponse::decoded(j@),
    {
        let id = match identifier_field(j.get("id")) {
            Ok(v) => v,
            Err(e) => return Err(e),
        };
        let client_order_id = match owned_text_field(j.get("client_order_id")) {
            Ok(v) => v,
            Err(e) => return Err(e),
        };
        let created_at = match time_field(j.get("created_at")) {
            Ok(v) => v,
            Err(e) => return Err(e),
        };
        let updated_at = match time_field(j.get("updated_at")) {
            Ok(v) => v,
            Err(e) => return Err(e),
        };
        let submitted_at = match time_field(j.get("submitted_at")) {
            Ok(v) => v,
            Err(e) => return Err(e),
        };
        let filled_at = match optional_time_field(j.get("filled_at")) {
            Ok(v) => v,
            Err(e) => return Err(e),
        };
        let expired_at = match optional_time_field(j.get("expired_at")) {
            Ok(v) => v,
            Err(e) => return Err(e),
        };
        let canceled_at = match optional_time_field(j.get("canceled_at")) {
            Ok(v) => v,
            Err(e) => return Err(e),
        };
        let failed_at = match optional_time_field(j.get("failed_at")) {
            Ok(v) => v,
            Err(e) => return Err(e),
        };
        let replaced_at = match optional_time_field(j.get("replaced_at")) {
            Ok(v) => v,
            Err(e) => return Err(e),
        };
        let replaced_by = match optional_owned_text_field(j.get("replaced_by")) {
            Ok(v) => v,
            Err(e) => return Err(e),
        };
        let replaces = match optional_owned_text_field(j.get("replaces")) {
            Ok(v) => v,
            Err(e) => return Err(e),
        };
        let asset_id = match identifier_field(j.get("asset_id")) {
            Ok(v) => v,
            Err(e) => return Err(e),
        };
        let symbol = match owned_text_field(j.get("symbol")) {
            Ok(v) => v,
            Err(e) => return Err(e),
        };
        let asset_class = match AssetClass::field(j.get("asset_class")) {
            Ok(v) => v,
            Err(e) => return Err(e),
        };
        let notional = match optional_owned_text_field(j.get("notional")) {
            Ok(v) => v,
            Err(e) => return Err(e),
        };
        let qty = match optional_number_field(j.get("qty")) {
            Ok(v) => v,
            Err(e) => return Err(e),
        };
        let filled_qty = match owned_text_field(j.get("filled_qty")) {
            Ok(v) => v,
            Err(e) => return Err(e),
        };
        let filled_avg_price = match optional_number_field(j.get("filled_avg_price")) {
            Ok(v) => v,
            Err(e) => return Err(e),
        };
        let order_class = match owned_text_field(j.get("order_class")) {
            Ok(v) => v,
            Err(e) => return Err(e),
        };
        let order_type = match OrderType::field(j.get("type")) {
            Ok(v) => v,
            Err(e) => return Err(e),
        };
        let order_side = match OrderSide::field(j.get("side")) {
            Ok(v) => v,
            Err(e) => return Err(e),
        };
        let time_in_force = match TimeInForce::field(j.get("time_in_force")) {
            Ok(v) => v,
            Err(e) => return Err(e),
        };
        let limit_price = match optional_number_field(j.get("limit_price")) {
            Ok(v) => v,
            Err(e) => return Err(e),
        };
        let stop_price = match optional_number_field(j.get("stop_price")) {
            Ok(v) => v,
            Err(e) => return Err(e),
        };
        let status = match OrderStatus::field(j.get("status")) {
            Ok(v) => v,
            Err(e) => return Err(e),
        };
        let extended_hours = match bool_field(j.get("extended_hours")) {
            Ok(v) => v,
            Err(e) => return Err(e),
        };
        let legs = j.without(&OrderResponse::claimed());
        let trail_percent = opaque_field(j.get("trail_percent"));
        let trail_price = opaque_field(j.get("trail_price"));
        let hwm = opaque_field(j.get("hwm"));
        let subtag = opaque_field(j.get("subtag"));
        let source = opaque_field(j.get("source"));
        Ok(OrderResponse { id, client_order_id, created_at, updated_at, submitted_at, filled_at, expired_at, canceled_at, failed_at, replaced_at, replaced_by, replaces, asset_id, symbol, asset_class, notional, qty, filled_qty, filled_avg_price, order_class, order_type, order_side, time_in_force, limit_price, stop_price, status, extended_hours, legs, trail_percent, trail_price, hwm, subtag, source })
    }

    /// Reads the answer to an order from a member, which must be there.
    pub fn field(v: Option<&Json>) -> (r: Result<OrderResponse, DecodeError>)
        ensures
            viewed_result(r) == OrderResponse::member(value_of(v)),
    {
        match v {
            Some(j) => OrderResponse::from_json(j),
            None => Err(DecodeError::MalformedPayload),
        }
    }

    /// Reads the answer to an order from the bytes of a JSON document. Bytes that are no
    /// JSON make a malformed payload.
    pub fn from_bytes(bytes: &[u8]) -> (r: Result<OrderResponse, DecodeError>)
        ensures
            viewed_result(r) == OrderResponse::decoded_bytes(bytes@),
    {
        match parse_json(bytes) {
            Some(j) => OrderResponse::from_json(&j),
            None => Err(DecodeError::MalformedPayload),
        }
    }
}

/// An error that the API reports for an order.
#[derive(Debug, Clone)]
pub struct OrderError {
    pub code: i64,
    pub message: String,
}

/// The mathematical value of an order error.
pub struct OrderErrorView {
    pub code: i64,
    pub message: Seq<char>,
}

impl View for OrderError {
    type V = OrderErrorView;

    open spec fn view(&self) -> OrderErrorView {
        OrderErrorView {
            code: self.code,
            message: self.message@,
        }
    }
}

impl OrderError {
    /// What [`OrderError::from_json`] returns for the document `j`: the first
    /// failure among the members, in the order of the fields, or else the
    /// value that the members give.
    pub open spec fn decoded(j: JsonValue) -> Result<OrderErrorView, DecodeFailure> {
        let code = integer_of(j.member("code"@));
        let message = text_of(j.member("message"@));
        if code is Err {
            Err(code->Err_0)
        } else if message is Err {
            Err(message->Err_0)
        } else {
            Ok(
                OrderErrorView {
                    code: code->Ok_0,
                    message: message->Ok_0,
                },
            )
        }
    }

    /// What [`OrderError::field`] returns for a member: the member must be there.
    pub open spec fn member(v: Option<JsonValue>) -> Result<OrderErrorView, DecodeFailure> {
        match v {
            Some(j) => OrderError::decoded(j),
            None => Err(DecodeFailure::MalformedPayload),
        }
    }

    /// What [`OrderError::from_bytes`] returns for the given bytes.
    pub open spec fn decoded_bytes(bytes: Seq<u8>) -> Result<OrderErrorView, DecodeFailure> {
        OrderError::member(parsed_document(bytes))
    }

    /// Reads an order error from a JSON document.
    pub fn from_json(j: &Json) -> (r: Result<OrderError, DecodeError>)
        ensures
            viewed_result(r) == OrderError::decoded(j@),
    {
        let code = match integer_field(j.get("code")) {
            Ok(v) => v,
            Err(e) => return Err(e),
        };
        let message = match owned_text_field(j.get("message")) {
            Ok(v) => v,
            Err(e) => return Err(e),
        };
        Ok(OrderError { code, message })
    }

    /// Reads an order error from a member, which must be there.
    pub fn field(v: Option<&Json>) -> (r: Result<OrderError, DecodeError>)
        ensures
            viewed_result(r) == OrderError::member(value_of(v)),
    {
        match v {
            Some(j) => OrderError::from_json(j),
            None => Err(DecodeError::MalformedPayload),
        }
    }

    /// Reads an order error from the bytes of a JSON document. Bytes that are no
    /// JSON make a malformed payload.
    pub fn from_bytes(bytes: &[u8]) -> (r: Result<OrderError, DecodeError>)
        ensures
            viewed_result(r) == OrderError::decoded_bytes(bytes@),
    {
        match parse_json(bytes) {
            Some(j) => OrderError::from_json(&j),
            None => Err(DecodeError::MalformedPayload),
        }
    }
}

/// What the API answers for a position that was closed.
///
/// The status is a string here; [`crate::positions::CloseAllPositionsResponse`]
/// reads the same answer with a status that is a number.
#[derive(Debug)]
pub struct PositionClosed {
    pub symbol: String,
    pub status: String,
    pub body: OrderResponse,
}

/// The mathematical value of the answer to the closing of a position.
pub struct PositionClosedView {
    pub symbol: Seq<char>,
    pub status: Seq<char>,
    pub body: OrderResponseView,
}

impl View for PositionClosed {
    type V = PositionClosedView;

    open spec fn view(&self) -> PositionClosedView {
        PositionClosedView {
            symbol: self.symbol@,
            status: self.status@,
            body: self.body@,
        }
    }
}

impl PositionClosed {
    /// What [`PositionClosed::from_json`] returns for the document `j`: the first
    /// failure among the members, in the order of the fields, or else the
    /// value that the members give.
    pub open spec fn decoded(j: JsonValue) -> Result<PositionClosedView, DecodeFailure> {
        let symbol = text_of(j.member("symbol"@));
        let status = text_of(j.member("status"@));
        let body = OrderResponse::member(j.member("body"@));
        if symbol is Err {
            Err(symbol->Err_0)
        } else if status is Err {
            Err(status->Err_0)
        } else if body is Err {
            Err(body->Err_0)
        } else {
            Ok(
                PositionClosedView {
                    symbol: symbol->Ok_0,
                    status: status->Ok_0,
                    body: body->Ok_0,
                },
            )
        }
    }

    /// What [`PositionClosed::field`] returns for a member: the member must be there.
    pub open spec fn member(v: Option<JsonValue>) -> Result<PositionClosedView, DecodeFailure> {
        match v {
            Some(j) => PositionClosed::decoded(j),
            None => Err(DecodeFailure::MalformedPayload),
        }
    }

    /// What [`PositionClosed::from_bytes`] returns for the given bytes.
    pub open spec fn decoded_bytes(bytes: Seq<u8>) -> Result<PositionClosedView, DecodeFailure> {
        PositionClosed::member(parsed_document(bytes))
    }

    /// Reads the answer to the closing of a position from a JSON document.
    pub fn from_json(j: &Json) -> (r: Result<PositionClosed, DecodeError>)
        ensures
            viewed_result(r) == PositionClosed::decoded(j@),
    {
        let symbol = match owned_text_field(j.get("symbol")) {
            Ok(v) => v,
            Err(e) => return Err(e),
        };
        let status = match owned_text_field(j.get("status")) {
            Ok(v) => v,
            Err(e) => return Err(e),
        };
        let body = match OrderResponse::field(j.get("body")) {
            Ok(v) => v,
            Err(e) => return Err(e),
        };
        Ok(PositionClosed { symbol, status, body })
    }

    /// Reads the answer to the closing of a position from a member, which must be there.
    pub fn field(v: Option<&Json>) -> (r: Result<PositionClosed, DecodeError>)
        ensures
            viewed_result(r) == PositionClosed::member(value_of(v)),
    {
        match v {
            Some(j) => PositionClosed::from_json(j),
            None => Err(DecodeError::MalformedPayload),
        }
    }

    /// Reads the answer to the closing of a position from the bytes of a JSON document. Bytes that are no
    /// JSON make a malformed payload.
    pub fn from_bytes(bytes: &[u8]) -> (r: Result<PositionClosed, DecodeError>)
        ensures
            viewed_result(r) == PositionClosed::decoded_bytes(bytes@),
    {
        match parse_json(bytes) {
            Some(j) => PositionClosed::from_json(&j),
            None => Err(DecodeError::MalformedPayload),
        }
    }
}

/// Reads the answer to an order from the bytes of a JSON document.
pub fn decode_order_response(bytes: &[u8]) -> (r: Result<OrderResponse, DecodeError>)
    ensures
        viewed_result(r) == OrderResponse::decoded_bytes(bytes@),
{
    OrderResponse::from_bytes(bytes)
}

} // verus!
