//! One row of the daily report, and how it is read.
//!
//! Upstream rows are arrays of text. Header rows, footnotes and damaged
//! entries occur, so a row that cannot be read is dropped, not reported.

use crate::decimal::{is_decimal_text, Decimal};
use crate::numeric::{
    i64_of, lemma_separator_is_ignored, parse_i64, without_separators, SEPARATOR,
};
use vstd::prelude::*;

verus! {

/// The number of fields that a row must have to be read.
pub const ROW_FIELDS: usize = 10;

/// A calendar date: the trading day that a report speaks of.
#[derive(Clone, Copy, Debug, PartialEq, Eq, Structural)]
pub struct TradeDate {
    pub year: i32,
    pub month: u32,
    pub day: u32,
}

impl TradeDate {
    /// The month and the day are within the bounds of a calendar.
    pub open spec fn in_calendar_bounds(self) -> bool {
        1 <= self.month <= 12 && 1 <= self.day <= 31
    }
}

/// One accepted row of the report.
#[derive(Debug)]
pub struct DailyMarketRecord {
    pub trade_date: TradeDate,
    pub symbol: String,
    pub name: String,
    pub volume: i64,
    pub amount: i64,
    pub open: Decimal,
    pub high: Decimal,
    pub low: Decimal,
    pub close: Decimal,
    pub change: Decimal,
    pub transaction_count: i32,
}

/// What a record holds: its texts as sequences of characters, each price
/// as its decimal literal.
pub struct RecordView {
    pub trade_date: TradeDate,
    pub symbol: Seq<char>,
    pub name: Seq<char>,
    pub volume: i64,
    pub amount: i64,
    pub open: Seq<char>,
    pub high: Seq<char>,
    pub low: Seq<char>,
    pub close: Seq<char>,
    pub change: Seq<char>,
    pub transaction_count: i32,
}

impl View for DailyMarketRecord {
    type V = RecordView;

    open spec fn view(&self) -> RecordView {
        RecordView {
            trade_date: self.trade_date,
            symbol: self.symbol@,
            name: self.name@,
            volume: self.volume,
            amount: self.amount,
            open: self.open@,
            high: self.high@,
            low: self.low@,
            close: self.close@,
            change: self.change@,
            transaction_count: self.transaction_count,
        }
    }
}

impl RecordView {
    /// What holds of every record: it has a symbol, its volume, its amount
    /// and its transaction count are not negative, and its four prices and
    /// their change are decimal literals.
    pub open spec fn well_formed(self) -> bool {
        &&& self.symbol.len() > 0
        &&& self.volume >= 0
        &&& self.amount >= 0
        &&& self.transaction_count >= 0
        &&& is_decimal_text(self.open)
        &&& is_decimal_text(self.high)
        &&& is_decimal_text(self.low)
        &&& is_decimal_text(self.close)
        &&& is_decimal_text(self.change)
    }
}

/// What a quantity field (volume, amount) holds, if it can be read: the
/// integer that it writes, where that fits in 64 bits and is not negative.
pub open spec fn quantity_field(field: Seq<char>) -> Option<i64> {
    match i64_of(without_separators(field)) {
        Some(v) => if v >= 0 {
            Some(v)
        } else {
            None
        },
        None => None,
    }
}

/// What a price field holds, if it can be read: its literal, free of
/// separators.
pub open spec fn price_field(field: Seq<char>) -> Option<Seq<char>> {
    let literal = without_separators(field);
    if is_decimal_text(literal) {
        Some(literal)
    } else {
        None
    }
}

/// Whether the transaction count field writes a count: an integer from 0
/// to the largest that 32 signed bits hold.
pub open spec fn count_is_readable(field: Seq<char>) -> bool {
    match i64_of(without_separators(field)) {
        Some(v) => 0 <= v <= i32::MAX,
        None => false,
    }
}

/// What the transaction count field holds: the count that it writes, or 0
/// where it writes none.
pub open spec fn count_field(field: Seq<char>) -> i32 {
    if count_is_readable(field) {
        i64_of(without_separators(field)).unwrap() as i32
    } else {
        0
    }
}

/// Whether a row has what a record needs: ten fields, a symbol (0) that
/// is not empty, volume and amount (2, 3) readable as quantities, and
/// open, high, low, close and change (4 to 8) readable as prices.
pub open spec fn row_is_readable(row: Seq<Seq<char>>) -> bool {
    &&& row.len() >= ROW_FIELDS
    &&& row[0].len() > 0
    &&& quantity_field(row[2]) is Some
    &&& quantity_field(row[3]) is Some
    &&& price_field(row[4]) is Some
    &&& price_field(row[5]) is Some
    &&& price_field(row[6]) is Some
    &&& price_field(row[7]) is Some
    &&& price_field(row[8]) is Some
}

/// The record that a row gives for the trading day `trade_date`, if any.
pub open spec fn row_record(row: Seq<Seq<char>>, trade_date: TradeDate) -> Option<RecordView> {
    if row_is_readable(row) {
        Some(
            RecordView {
                trade_date,
                symbol: row[0],
                name: row[1],
                volume: quantity_field(row[2]).unwrap(),
                amount: quantity_field(row[3]).unwrap(),
                open: price_field(row[4]).unwrap(),
                high: price_field(row[5]).unwrap(),
                low: price_field(row[6]).unwrap(),
                close: price_field(row[7]).unwrap(),
                change: price_field(row[8]).unwrap(),
                transaction_count: count_field(row[9]),
            },
        )
    } else {
        None
    }
}

/// Every record that a row gives is well formed.
pub proof fn lemma_row_record_is_well_formed(row: Seq<Seq<char>>, trade_date: TradeDate)
    ensures
        row_record(row, trade_date) is Some ==> row_record(row, trade_date).unwrap().well_formed(),
{
}

/// A thousands separator changes nothing in a number field, wherever it
/// is put: the field holds the quantity, the price and the count that it
/// held without it.
pub proof fn lemma_field_ignores_separator(field: Seq<char>, i: int)
    requires
        0 <= i <= field.len(),
    ensures
        quantity_field(field.insert(i, SEPARATOR)) == quantity_field(field),
        price_field(field.insert(i, SEPARATOR)) == price_field(field),
        count_field(field.insert(i, SEPARATOR)) == count_field(field),
{
    lemma_separator_is_ignored(field, i);
}

/// Reads a quantity field: an integer that is not negative.
pub fn parse_quantity(text: &str) -> (r: Option<i64>)
    ensures
        r == quantity_field(text@),
{
    match parse_i64(text) {
        Some(v) => if v >= 0 {
            Some(v)
        } else {
            None
        },
        None => None,
    }
}

/// Reads the transaction count field: the count that it writes, or 0
/// where it writes none.
pub fn parse_count(text: &str) -> (count: i32)
    ensures
        count == count_field(text@),
        count >= 0,
{
    match parse_i64(text) {
        Some(v) => if 0 <= v && v <= 2147483647 {
            v as i32
        } else {
            0
        },
        None => 0,
    }
}

/// Reads one upstream row for the trading day `trade_date`.
///
/// A row of fewer than ten fields is rejected before any field is looked
/// at. A row without a symbol, or whose volume, amount or one of its five
/// prices cannot be read, is rejected as a whole. A transaction count
/// that cannot be read counts as 0 and rejects nothing.
pub fn parse_row(row: &Vec<String>, trade_date: TradeDate) -> (r: Option<DailyMarketRecord>)
    ensures
        match r {
            Some(record) => row_record(row.deep_view(), trade_date) == Some(record@),
            None => row_record(row.deep_view(), trade_date) is None,
        },
        row.len() < ROW_FIELDS ==> r is None,
        row.len() >= ROW_FIELDS && (exists|i: int|
            2 <= i <= 3 && quantity_field(#[trigger] row.deep_view()[i]) is None) ==> r is None,
        row.len() >= ROW_FIELDS && (exists|i: int|
            4 <= i <= 8 && price_field(#[trigger] row.deep_view()[i]) is None) ==> r is None,
        row.len() >= ROW_FIELDS && row.deep_view()[0].len() == 0 ==> r is None,
        r is Some ==> r.unwrap().trade_date == trade_date,
        r is Some ==> r.unwrap()@.well_formed(),
        row_is_readable(row.deep_view()) && !count_is_readable(row.deep_view()[9]) ==> r is Some
            && r.unwrap().transaction_count == 0,
{
    if row.len() < ROW_FIELDS {
        return None;
    }
    let ghost fields = row.deep_view();
    proof {
        assert forall|i: int| 0 <= i < row.len() implies #[trigger] fields[i] == row@[i]@ by {}
    }
    if row[0].as_str().is_empty() {
        return None;
    }
    let volume = match parse_quantity(row[2].as_str()) {
        Some(v) => v,
        None => {
            return None;
        },
    };
    let amount = match parse_quantity(row[3].as_str()) {
        Some(v) => v,
        None => {
            return None;
        },
    };
    let open = match Decimal::parse(row[4].as_str()) {
        Some(v) => v,
        None => {
            return None;
        },
    };
    let high = match Decimal::parse(row[5].as_str()) {
        Some(v) => v,
        None => {
            return None;
        },
    };
    let low = match Decimal::parse(row[6].as_str()) {
        Some(v) => v,
        None => {
            return None;
        },
    };
    let close = match Decimal::parse(row[7].as_str()) {
        Some(v) => v,
        None => {
            return None;
        },
    };
    let change = match Decimal::parse(row[8].as_str()) {
        Some(v) => v,
        None => {
            return None;
        },
    };
    let transaction_count = parse_count(row[9].as_str());
    Some(
        DailyMarketRecord {
            trade_date,
            symbol: row[0].clone(),
            name: row[1].clone(),
            volume,
            amount,
            open,
            high,
            low,
            close,
            change,
            transaction_count,
        },
    )
}

} // verus!
