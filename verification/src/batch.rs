//! The columnar batch: one growable column per field, all of one length,
//! so that a whole report is written with a single set-based statement.

use crate::decimal::{is_decimal_text, Decimal};
use crate::record::{
    parse_row, row_is_readable, row_record, DailyMarketRecord, RecordView, TradeDate,
};
use vstd::prelude::*;

verus! {

/// The accepted rows of one report, column by column.
///
/// A row enters all eleven columns or none: the columns stay aligned by
/// index, and the row at an index is what the columns hold there. Every
/// row is a well-formed record.
#[derive(Debug)]
pub struct ColumnarBatch {
    trade_dates: Vec<TradeDate>,
    symbols: Vec<String>,
    names: Vec<String>,
    volumes: Vec<i64>,
    amounts: Vec<i64>,
    opens: Vec<Decimal>,
    highs: Vec<Decimal>,
    lows: Vec<Decimal>,
    closes: Vec<Decimal>,
    changes: Vec<Decimal>,
    transaction_counts: Vec<i32>,
}

impl View for ColumnarBatch {
    type V = Seq<RecordView>;

    /// The rows of the batch, in the order in which they were accepted.
    closed spec fn view(&self) -> Seq<RecordView> {
        Seq::new(
            self.trade_dates@.len(),
            |i: int|
                RecordView {
                    trade_date: self.trade_dates@[i],
                    symbol: self.symbols@[i]@,
                    name: self.names@[i]@,
                    volume: self.volumes@[i],
                    amount: self.amounts@[i],
                    open: self.opens@[i]@,
                    high: self.highs@[i]@,
                    low: self.lows@[i]@,
                    close: self.closes@[i]@,
                    change: self.changes@[i]@,
                    transaction_count: self.transaction_counts@[i],
                },
        )
    }
}

impl ColumnarBatch {
    /// All eleven columns have one length, and every row is a well-formed
    /// record.
    #[verifier::type_invariant]
    spec fn aligned(&self) -> bool {
        let n = self.trade_dates@.len();
        &&& self.symbols@.len() == n
        &&& self.names@.len() == n
        &&& self.volumes@.len() == n
        &&& self.amounts@.len() == n
        &&& self.opens@.len() == n
        &&& self.highs@.len() == n
        &&& self.lows@.len() == n
        &&& self.closes@.len() == n
        &&& self.changes@.len() == n
        &&& self.transaction_counts@.len() == n
        &&& forall|i: int| 0 <= i < n ==> (#[trigger] self@[i]).well_formed()
    }

    /// A batch without rows.
    pub fn new() -> (batch: ColumnarBatch)
        ensures
            batch@ == Seq::<RecordView>::empty(),
    {
        let batch = ColumnarBatch {
            trade_dates: Vec::new(),
            symbols: Vec::new(),
            names: Vec::new(),
            volumes: Vec::new(),
            amounts: Vec::new(),
            opens: Vec::new(),
            highs: Vec::new(),
            lows: Vec::new(),
            closes: Vec::new(),
            changes: Vec::new(),
            transaction_counts: Vec::new(),
        };
        assert(batch@ =~= Seq::<RecordView>::empty());
        batch
    }

    /// The number of rows.
    pub fn len(&self) -> (n: usize)
        ensures
            n == self@.len(),
            forall|i: int| 0 <= i < self@.len() ==> (#[trigger] self@[i]).well_formed(),
    {
        proof {
            use_type_invariant(self);
        }
        self.trade_dates.len()
    }

    /// Whether the batch has no row.
    pub fn is_empty(&self) -> (empty: bool)
        ensures
            empty == (self@.len() == 0),
    {
        self.trade_dates.len() == 0
    }

    /// The batch with the fields of `record` appended, one to each column.
    pub fn push(self, record: DailyMarketRecord) -> (batch: ColumnarBatch)
        requires
            record@.well_formed(),
        ensures
            batch@ == self@.push(record@),
            forall|i: int| 0 <= i < batch@.len() ==> (#[trigger] batch@[i]).well_formed(),
    {
        proof {
            use_type_invariant(&self);
        }
        let ghost before = self;
        let ghost added = record@;
        let ColumnarBatch {
            mut trade_dates,
            mut symbols,
            mut names,
            mut volumes,
            mut amounts,
            mut opens,
            mut highs,
            mut lows,
            mut closes,
            mut changes,
            mut transaction_counts,
        } = self;
        trade_dates.push(record.trade_date);
        symbols.push(record.symbol);
        names.push(record.name);
        volumes.push(record.volume);
        amounts.push(record.amount);
        opens.push(record.open);
        highs.push(record.high);
        lows.push(record.low);
        closes.push(record.close);
        changes.push(record.change);
        transaction_counts.push(record.transaction_count);
        proof {
            assert forall|i: int| 0 <= i < symbols@.len() implies {
                &&& (#[trigger] symbols@[i])@.len() > 0
                &&& volumes@[i] >= 0
                &&& amounts@[i] >= 0
                &&& transaction_counts@[i] >= 0
                &&& is_decimal_text(opens@[i]@)
                &&& is_decimal_text(highs@[i]@)
                &&& is_decimal_text(lows@[i]@)
                &&& is_decimal_text(closes@[i]@)
                &&& is_decimal_text(changes@[i]@)
            } by {
                if i < before@.len() {
                    assert(before@[i].well_formed());
                } else {
                    assert(added.well_formed());
                }
            }
        }
        let batch = ColumnarBatch {
            trade_dates,
            symbols,
            names,
            volumes,
            amounts,
            opens,
            highs,
            lows,
            closes,
            changes,
            transaction_counts,
        };
        assert(batch@ =~= before@.push(added));
        batch
    }

    /// The trading day of each row.
    pub fn trade_dates(&self) -> (column: &Vec<TradeDate>)
        ensures
            column@.len() == self@.len(),
            forall|i: int| 0 <= i < column@.len() ==> column@[i] == (#[trigger] self@[i]).trade_date,
    {
        proof {
            use_type_invariant(self);
        }
        &self.trade_dates
    }

    /// The symbol of each row.
    pub fn symbols(&self) -> (column: &Vec<String>)
        ensures
            column@.len() == self@.len(),
            forall|i: int| 0 <= i < column@.len() ==> column@[i]@ == (#[trigger] self@[i]).symbol,
            forall|i: int| 0 <= i < column@.len() ==> (#[trigger] column@[i])@.len() > 0,
    {
        proof {
            use_type_invariant(self);
            assert forall|i: int| 0 <= i < self.symbols@.len() implies self.symbols@[i]@.len() > 0 by {
                assert(self@[i].well_formed());
            }
        }
        &self.symbols
    }

    /// The display name of each row.
    pub fn names(&self) -> (column: &Vec<String>)
        ensures
            column@.len() == self@.len(),
            forall|i: int| 0 <= i < column@.len() ==> column@[i]@ == (#[trigger] self@[i]).name,
    {
        proof {
            use_type_invariant(self);
        }
        &self.names
    }

    /// The traded volume of each row.
    pub fn volumes(&self) -> (column: &Vec<i64>)
        ensures
            column@.len() == self@.len(),
            forall|i: int| 0 <= i < column@.len() ==> column@[i] == (#[trigger] self@[i]).volume,
            forall|i: int| 0 <= i < column@.len() ==> #[trigger] column@[i] >= 0,
    {
        proof {
            use_type_invariant(self);
            assert forall|i: int| 0 <= i < self.volumes@.len() implies self.volumes@[i] >= 0 by {
                assert(self@[i].well_formed());
            }
        }
        &self.volumes
    }

    /// The traded amount of each row.
    pub fn amounts(&self) -> (column: &Vec<i64>)
        ensures
            column@.len() == self@.len(),
            forall|i: int| 0 <= i < column@.len() ==> column@[i] == (#[trigger] self@[i]).amount,
            forall|i: int| 0 <= i < column@.len() ==> #[trigger] column@[i] >= 0,
    {
        proof {
            use_type_invariant(self);
            assert forall|i: int| 0 <= i < self.amounts@.len() implies self.amounts@[i] >= 0 by {
                assert(self@[i].well_formed());
            }
        }
        &self.amounts
    }

    /// The opening price of each row.
    pub fn opens(&self) -> (column: &Vec<Decimal>)
        ensures
            column@.len() == self@.len(),
            forall|i: int| 0 <= i < column@.len() ==> column@[i]@ == (#[trigger] self@[i]).open,
    {
        proof {
            use_type_invariant(self);
        }
        &self.opens
    }

    /// The highest price of each row.
    pub fn highs(&self) -> (column: &Vec<Decimal>)
        ensures
            column@.len() == self@.len(),
            forall|i: int| 0 <= i < column@.len() ==> column@[i]@ == (#[trigger] self@[i]).high,
    {
        proof {
            use_type_invariant(self);
        }
        &self.highs
    }

    /// The lowest price of each row.
    pub fn lows(&self) -> (column: &Vec<Decimal>)
        ensures
            column@.len() == self@.len(),
            forall|i: int| 0 <= i < column@.len() ==> column@[i]@ == (#[trigger] self@[i]).low,
    {
        proof {
            use_type_invariant(self);
        }
        &self.lows
    }

    /// The closing price of each row.
    pub fn closes(&self) -> (column: &Vec<Decimal>)
        ensures
            column@.len() == self@.len(),
            forall|i: int| 0 <= i < column@.len() ==> column@[i]@ == (#[trigger] self@[i]).close,
    {
        proof {
            use_type_invariant(self);
        }
        &self.closes
    }

    /// The price change of each row.
    pub fn changes(&self) -> (column: &Vec<Decimal>)
        ensures
            column@.len() == self@.len(),
            forall|i: int| 0 <= i < column@.len() ==> column@[i]@ == (#[trigger] self@[i]).change,
    {
        proof {
            use_type_invariant(self);
        }
        &self.changes
    }

    /// The transaction count of each row.
    pub fn transaction_counts(&self) -> (column: &Vec<i32>)
        ensures
            column@.len() == self@.len(),
            forall|i: int|
                0 <= i < column@.len() ==> column@[i] == (#[trigger] self@[i]).transaction_count,
            forall|i: int| 0 <= i < column@.len() ==> #[trigger] column@[i] >= 0,
    {
        proof {
            use_type_invariant(self);
            assert forall|i: int| 0 <= i < self.transaction_counts@.len() implies self.transaction_counts@[i] >= 0 by {
                assert(self@[i].well_formed());
            }
        }
        &self.transaction_counts
    }
}

/// The records that the rows of a report give for the trading day
/// `trade_date`: those of the rows that can be read, in the order of the
/// rows.
pub open spec fn accepted_records(rows: Seq<Seq<Seq<char>>>, trade_date: TradeDate) -> Seq<
    RecordView,
> {
    rows.filter_map(|row: Seq<Seq<char>>| row_record(row, trade_date))
}

/// One more row adds its record at the end of the batch if it can be read,
/// and leaves the batch as it was if it cannot.
pub proof fn lemma_accepted_records_push(
    rows: Seq<Seq<Seq<char>>>,
    row: Seq<Seq<char>>,
    trade_date: TradeDate,
)
    ensures
        accepted_records(rows.push(row), trade_date) == match row_record(row, trade_date) {
            Some(record) => accepted_records(rows, trade_date).push(record),
            None => accepted_records(rows, trade_date),
        },
{
    let longer = rows.push(row);
    assert(longer.drop_last() =~= rows);
    let f = |row: Seq<Seq<char>>| row_record(row, trade_date);
    match row_record(row, trade_date) {
        Some(record) => {
            assert(rows.filter_map(f) + seq![record] =~= rows.filter_map(f).push(record));
        },
        None => {},
    }
}

/// Every accepted record carries the trading day of the report, and no
/// report gives more records than it has rows.
pub proof fn lemma_accepted_records_dated(rows: Seq<Seq<Seq<char>>>, trade_date: TradeDate)
    ensures
        accepted_records(rows, trade_date).len() <= rows.len(),
        forall|i: int|
            0 <= i < accepted_records(rows, trade_date).len() ==> (#[trigger] accepted_records(
                rows,
                trade_date,
            )[i]).trade_date == trade_date,
    decreases rows.len(),
{
    if rows.len() > 0 {
        lemma_accepted_records_dated(rows.drop_last(), trade_date);
        assert(rows.drop_last().push(rows.last()) =~= rows);
        lemma_accepted_records_push(rows.drop_last(), rows.last(), trade_date);
    }
}

/// Every accepted record is well formed: it has a symbol, and neither its
/// volume nor its amount nor its transaction count is negative.
pub proof fn lemma_accepted_records_well_formed(rows: Seq<Seq<Seq<char>>>, trade_date: TradeDate)
    ensures
        forall|i: int|
            0 <= i < accepted_records(rows, trade_date).len() ==> (#[trigger] accepted_records(
                rows,
                trade_date,
            )[i]).well_formed(),
    decreases rows.len(),
{
    if rows.len() > 0 {
        lemma_accepted_records_well_formed(rows.drop_last(), trade_date);
        assert(rows.drop_last().push(rows.last()) =~= rows);
        lemma_accepted_records_push(rows.drop_last(), rows.last(), trade_date);
    }
}

/// A report without a readable row gives no record.
pub proof fn lemma_no_readable_row(rows: Seq<Seq<Seq<char>>>, trade_date: TradeDate)
    requires
        forall|i: int| 0 <= i < rows.len() ==> !row_is_readable(#[trigger] rows[i]),
    ensures
        accepted_records(rows, trade_date) == Seq::<RecordView>::empty(),
    decreases rows.len(),
{
    if rows.len() > 0 {
        lemma_no_readable_row(rows.drop_last(), trade_date);
        assert(rows.drop_last().push(rows.last()) =~= rows);
        lemma_accepted_records_push(rows.drop_last(), rows.last(), trade_date);
    }
}

/// Assembles the batch of one report: reads every row for the trading day
/// `trade_date` and appends the fields of those that can be read.
///
/// A report without a readable row gives an empty batch.
pub fn assemble(rows: &Vec<Vec<String>>, trade_date: TradeDate) -> (batch: ColumnarBatch)
    ensures
        batch@ == accepted_records(rows.deep_view(), trade_date),
        batch@.len() <= rows.len(),
        forall|i: int| 0 <= i < batch@.len() ==> (#[trigger] batch@[i]).trade_date == trade_date,
        forall|i: int| 0 <= i < batch@.len() ==> (#[trigger] batch@[i]).well_formed(),
{
    let mut batch = ColumnarBatch::new();
    let ghost all = rows.deep_view();
    proof {
        assert(all.take(0) =~= Seq::<Seq<Seq<char>>>::empty());
    }
    for i in 0..rows.len()
        invariant
            all == rows.deep_view(),
            batch@ == accepted_records(all.take(i as int), trade_date),
    {
        proof {
            assert(all[i as int] == rows@[i as int].deep_view());
            assert(all.take(i + 1) =~= all.take(i as int).push(all[i as int]));
            lemma_accepted_records_push(all.take(i as int), all[i as int], trade_date);
        }
        match parse_row(&rows[i], trade_date) {
            Some(record) => {
                batch = batch.push(record);
            },
            None => {},
        }
    }
    proof {
        assert(all.take(rows.len() as int) =~= all);
        lemma_accepted_records_dated(all, trade_date);
        lemma_accepted_records_well_formed(all, trade_date);
    }
    batch
}

} // verus!
