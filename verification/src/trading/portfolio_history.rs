use vstd::prelude::*;
use crate::errors::{viewed_result, DecodeError, DecodeFailure};
use crate::fields::{
    integers_field, integers_of, native_number_field, native_number_of, native_numbers_field,
    native_numbers_of, owned_text_field, text_of, value_of,
};
use crate::json::{parse_json, parsed_document, Json, JsonValue};
use crate::numeric::Number;
use crate::timestamps::{unix_time_in_range, unix_time_text, unix_time_to_text};

verus! {

/// The history of a portfolio as the API sends it: one column per quantity,
/// all columns indexed by the position of the timestamp.
#[derive(Debug, Clone, Default)]
pub struct PortfolioHistory {
    /// Unix seconds.
    pub timestamp: Vec<i64>,
    pub equity: Vec<Number>,
    pub profit_loss: Vec<Number>,
    pub profit_loss_pct: Vec<Number>,
    pub base_value: Number,
    /// A calendar date.
    pub base_value_asof: String,
    /// The width of a time window, such as `1H`.
    pub timeframe: String,
}

/// The mathematical value of the history of a portfolio.
pub struct PortfolioHistoryView {
    pub timestamp: Seq<i64>,
    pub equity: Seq<Seq<char>>,
    pub profit_loss: Seq<Seq<char>>,
    pub profit_loss_pct: Seq<Seq<char>>,
    pub base_value: Seq<char>,
    pub base_value_asof: Seq<char>,
    pub timeframe: Seq<char>,
}

impl View for PortfolioHistory {
    type V = PortfolioHistoryView;

    open spec fn view(&self) -> PortfolioHistoryView {
        PortfolioHistoryView {
            timestamp: self.timestamp@,
            equity: self.equity@.map_values(|n: Number| n@),
            profit_loss: self.profit_loss@.map_values(|n: Number| n@),
            profit_loss_pct: self.profit_loss_pct@.map_values(|n: Number| n@),
            base_value: self.base_value@,
            base_value_asof: self.base_value_asof@,
            timeframe: self.timeframe@,
        }
    }
}

impl PortfolioHistory {
    /// What [`PortfolioHistory::from_json`] returns for the document `j`: the first
    /// failure among the members, in the order of the fields, or else the
    /// value that the members give.
    pub open spec fn decoded(j: JsonValue) -> Result<PortfolioHistoryView, DecodeFailure> {
        let timestamp = integers_of(j.member("timestamp"@));
        let equity = native_numbers_of(j.member("equity"@));
        let profit_loss = native_numbers_of(j.member("profit_loss"@));
        let profit_loss_pct = native_numbers_of(j.member("profit_loss_pct"@));
        let base_value = native_number_of(j.member("base_value"@));
        let base_value_asof = text_of(j.member("base_value_asof"@));
        let timeframe = text_of(j.member("timeframe"@));
        if timestamp is Err {
            Err(timestamp->Err_0)
        } else if equity is Err {
            Err(equity->Err_0)
        } else if profit_loss is Err {
            Err(profit_loss->Err_0)
        } else if profit_loss_pct is Err {
            Err(profit_loss_pct->Err_0)
        } else if base_value is Err {
            Err(base_value->Err_0)
        } else if base_value_asof is Err {
            Err(base_value_asof->Err_0)
        } else if timeframe is Err {
            Err(timeframe->Err_0)
        } else {
            Ok(
                PortfolioHistoryView {
                    timestamp: timestamp->Ok_0,
                    equity: equity->Ok_0,
                    profit_loss: profit_loss->Ok_0,
                    profit_loss_pct: profit_loss_pct->Ok_0,
                    base_value: base_value->Ok_0,
                    base_value_asof: base_value_asof->Ok_0,
                    timeframe: timeframe->Ok_0,
                },
            )
        }
    }

    /// What [`PortfolioHistory::field`] returns for a member: the member must be there.
    pub open spec fn member(v: Option<JsonValue>) -> Result<PortfolioHistoryView, DecodeFailure> {
        match v {
            Some(j) => PortfolioHistory::decoded(j),
            None => Err(DecodeFailure::MalformedPayload),
        }
    }

    /// What [`PortfolioHistory::from_bytes`] returns for the given bytes.
    pub open spec fn decoded_bytes(bytes: Seq<u8>) -> Result<PortfolioHistoryView, DecodeFailure> {
        PortfolioHistory::member(parsed_document(bytes))
    }

    /// Reads the history of a portfolio from a JSON document.
    pub fn from_json(j: &Json) -> (r: Result<PortfolioHistory, DecodeError>)
        ensures
            viewed_result(r) == PortfolioHistory::decoded(j@),
    {
        let timestamp = match integers_field(j.get("timestamp")) {
            Ok(v) => v,
            Err(e) => return Err(e),
        };
        let equity = match native_numbers_field(j.get("equity")) {
            Ok(v) => v,
            Err(e) => return Err(e),
        };
        let profit_loss = match native_numbers_field(j.get("profit_loss")) {
            Ok(v) => v,
            Err(e) => return Err(e),
        };
        let profit_loss_pct = match native_numbers_field(j.get("profit_loss_pct")) {
            Ok(v) => v,
            Err(e) => return Err(e),
        };
        let base_value = match native_number_field(j.get("base_value")) {
            Ok(v) => v,
            Err(e) => return Err(e),
        };
        let base_value_asof = match owned_text_field(j.get("base_value_asof")) {
            Ok(v) => v,
            Err(e) => return Err(e),
        };
        let timeframe = match owned_text_field(j.get("timeframe")) {
            Ok(v) => v,
            Err(e) => return Err(e),
        };
        Ok(PortfolioHistory { timestamp, equity, profit_loss, profit_loss_pct, base_value, base_value_asof, timeframe })
    }

    /// Reads the history of a portfolio from a member, which must be there.
    pub fn field(v: Option<&Json>) -> (r: Result<PortfolioHistory, DecodeError>)
        ensures
            viewed_result(r) == PortfolioHistory::member(value_of(v)),
    {
        match v {
            Some(j) => PortfolioHistory::from_json(j),
            None => Err(DecodeError::MalformedPayload),
        }
    }

    /// Reads the history of a portfolio from the bytes of a JSON document. Bytes that are no
    /// JSON make a malformed payload.
    pub fn from_bytes(bytes: &[u8]) -> (r: Result<PortfolioHistory, DecodeError>)
        ensures
            viewed_result(r) == PortfolioHistory::decoded_bytes(bytes@),
    {
        match parse_json(bytes) {
            Some(j) => PortfolioHistory::from_json(&j),
            None => Err(DecodeError::MalformedPayload),
        }
    }
}

/// One row of a portfolio's history.
#[derive(Debug, Clone)]
pub struct HistoryFrame {
    /// The time of the report.
    pub time: String,
    /// Equity of the account at the end of the time window.
    pub equity: Number,
    /// Profit or loss in money.
    pub profit_loss: Number,
    /// Profit or loss relative to the base value.
    pub profit_loss_percent: Number,
    /// The base of the profit and loss figures.
    pub base_value: Number,
    /// The trading date whose closing equity is the base value.
    pub base_value_as_of: String,
}

/// The mathematical value of a [`HistoryFrame`].
pub struct HistoryFrameView {
    pub time: Seq<char>,
    pub equity: Seq<char>,
    pub profit_loss: Seq<char>,
    pub profit_loss_percent: Seq<char>,
    pub base_value: Seq<char>,
    pub base_value_as_of: Seq<char>,
}

impl View for HistoryFrame {
    type V = HistoryFrameView;

    open spec fn view(&self) -> HistoryFrameView {
        HistoryFrameView {
            time: self.time@,
            equity: self.equity@,
            profit_loss: self.profit_loss@,
            profit_loss_percent: self.profit_loss_percent@,
            base_value: self.base_value@,
            base_value_as_of: self.base_value_as_of@,
        }
    }
}

/// The smaller of two lengths.
pub open spec fn shorter(a: nat, b: nat) -> nat {
    if a <= b {
        a
    } else {
        b
    }
}

impl PortfolioHistoryView {
    /// The number of positions at which every column has an entry.
    pub open spec fn aligned_len(self) -> nat {
        shorter(
            shorter(self.timestamp.len(), self.equity.len()),
            shorter(self.profit_loss.len(), self.profit_loss_pct.len()),
        )
    }

    /// Every timestamp stands for a calendar date and time of day.
    pub open spec fn timestamps_in_range(self) -> bool {
        forall|i: int| 0 <= i < self.timestamp.len() ==> unix_time_in_range(#[trigger] self.timestamp[i])
    }

    /// The row at position `i`.
    pub open spec fn frame(self, i: int) -> HistoryFrameView {
        HistoryFrameView {
            time: unix_time_text(self.timestamp[i]),
            equity: self.equity[i],
            profit_loss: self.profit_loss[i],
            profit_loss_percent: self.profit_loss_pct[i],
            base_value: self.base_value,
            base_value_as_of: self.base_value_asof,
        }
    }

    /// The rows of the history: one for each position at which every column
    /// has an entry, in the order of the columns. A timestamp outside the
    /// supported range, at whatever position, makes the whole history
    /// invalid.
    pub open spec fn frames(self) -> Result<Seq<HistoryFrameView>, DecodeFailure> {
        if self.timestamps_in_range() {
            Ok(Seq::new(self.aligned_len(), |i: int| self.frame(i)))
        } else {
            Err(DecodeFailure::InvalidTimestamp)
        }
    }
}

impl PortfolioHistory {
    /// Turns the columns into rows.
    ///
    /// A position at which one of `equity`, `profit_loss` and
    /// `profit_loss_pct` has no entry gives no row; a timestamp that is out
    /// of range fails the whole call.
    pub fn to_frames(self) -> (r: Result<Vec<HistoryFrame>, DecodeError>)
        ensures
            match r {
                Ok(rows) => self@.frames() == Ok::<Seq<HistoryFrameView>, DecodeFailure>(
                    rows@.map_values(|f: HistoryFrame| f@),
                ),
                Err(e) => self@.frames() == Err::<Seq<HistoryFrameView>, DecodeFailure>(e@),
            },
    {
        let mut collection: Vec<HistoryFrame> = Vec::new();
        let mut idx: usize = 0;
        while idx < self.timestamp.len()
            invariant
                idx <= self.timestamp.len(),
                forall|i: int| 0 <= i < idx ==> unix_time_in_range(#[trigger] self.timestamp@[i]),
                collection.len() == shorter(idx as nat, self@.aligned_len()),
                forall|i: int| 0 <= i < collection.len() ==> (#[trigger] collection@[i])@ == self@.frame(i),
            decreases self.timestamp.len() - idx,
        {
            let time = match unix_time_to_text(self.timestamp[idx]) {
                Ok(t) => t,
                Err(e) => {
                    assert(!unix_time_in_range(self@.timestamp[idx as int]));
                    return Err(e);
                },
            };
            if idx < self.equity.len() && idx < self.profit_loss.len() && idx
                < self.profit_loss_pct.len() {
                let frame = HistoryFrame {
                    time,
                    equity: self.equity[idx].clone(),
                    profit_loss: self.profit_loss[idx].clone(),
                    profit_loss_percent: self.profit_loss_pct[idx].clone(),
                    base_value: self.base_value.clone(),
                    base_value_as_of: self.base_value_asof.clone(),
                };
                assert(frame@ == self@.frame(idx as int));
                collection.push(frame);
            }
            idx += 1;
        }
        assert(collection@.map_values(|f: HistoryFrame| f@) =~= Seq::new(
            self@.aligned_len(),
            |i: int| self@.frame(i),
        ));
        Ok(collection)
    }
}

/// The rows of a history whose timestamps are in range are as many as the
/// shortest column is long, each holds the entries of its position, and each
/// carries the base value and its date.
pub proof fn lemma_frames_follow_columns(h: PortfolioHistoryView)
    requires
        h.timestamps_in_range(),
    ensures
        h.frames() is Ok,
        h.frames()->Ok_0.len() == h.aligned_len(),
        forall|i: int|
            0 <= i < h.aligned_len() ==> {
                let f = #[trigger] h.frames()->Ok_0[i];
                &&& f.time == unix_time_text(h.timestamp[i])
                &&& f.equity == h.equity[i]
                &&& f.profit_loss == h.profit_loss[i]
                &&& f.profit_loss_percent == h.profit_loss_pct[i]
                &&& f.base_value == h.base_value
                &&& f.base_value_as_of == h.base_value_asof
            },
{
}

/// A history whose columns all have the length of the timestamps, all of
/// them in range, has one row for each timestamp.
pub proof fn lemma_aligned_history_keeps_every_row(h: PortfolioHistoryView)
    requires
        h.timestamps_in_range(),
        h.equity.len() == h.timestamp.len(),
        h.profit_loss.len() == h.timestamp.len(),
        h.profit_loss_pct.len() == h.timestamp.len(),
    ensures
        h.frames() is Ok,
        h.frames()->Ok_0.len() == h.timestamp.len(),
{
}

} // verus!
