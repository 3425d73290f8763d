//! What the upsert statement asks of the store.
//!
//! The store itself is out of reach from here. This module states, as a
//! model, what the statement means: a table holds at most one row for a
//! trading day and a symbol, the rows of a batch are inserted in their
//! order, and a row whose key is taken is skipped. From that meaning
//! follow the laws that callers rely on: stored rows are never
//! overwritten, and a batch that is written twice leaves the table as one
//! writing does.

use crate::ingest::{answered, ActionView, ReportView};
use crate::record::{RecordView, TradeDate};
use vstd::prelude::*;

verus! {

/// The key under which a row is stored: its trading day and its symbol.
pub open spec fn key_of(row: RecordView) -> (TradeDate, Seq<char>) {
    (row.trade_date, row.symbol)
}

/// The table after the rows were upserted, one after the other: a row is
/// inserted where its key is free, and dropped where it is taken.
pub open spec fn upserted(
    table: Map<(TradeDate, Seq<char>), RecordView>,
    rows: Seq<RecordView>,
) -> Map<(TradeDate, Seq<char>), RecordView>
    decreases rows.len(),
{
    if rows.len() == 0 {
        table
    } else {
        let before = upserted(table, rows.drop_last());
        let key = key_of(rows.last());
        if before.dom().contains(key) {
            before
        } else {
            before.insert(key, rows.last())
        }
    }
}

/// The table after one answer of the exchange was ingested: where the
/// answer leads to an upsert, its accepted rows are upserted; where it
/// leads to a failure, nothing is written.
pub open spec fn ingested(
    table: Map<(TradeDate, Seq<char>), RecordView>,
    status: u16,
    report: Option<ReportView>,
) -> Map<(TradeDate, Seq<char>), RecordView> {
    match answered(status, report).1 {
        ActionView::Upsert(rows) => upserted(table, rows),
        _ => table,
    }
}

/// An upsert only adds: every row that was stored before is stored after
/// it, unchanged, whatever the batch holds under its key.
pub proof fn lemma_upsert_keeps_stored_rows(
    table: Map<(TradeDate, Seq<char>), RecordView>,
    rows: Seq<RecordView>,
)
    ensures
        forall|key: (TradeDate, Seq<char>)| #[trigger]
            table.dom().contains(key) ==> upserted(table, rows).dom().contains(key) && upserted(
                table,
                rows,
            )[key] == table[key],
    decreases rows.len(),
{
    if rows.len() > 0 {
        lemma_upsert_keeps_stored_rows(table, rows.drop_last());
    }
}

/// After an upsert a row is stored under the key of every row of the
/// batch.
pub proof fn lemma_upsert_stores_every_key(
    table: Map<(TradeDate, Seq<char>), RecordView>,
    rows: Seq<RecordView>,
)
    ensures
        forall|i: int|
            0 <= i < rows.len() ==> upserted(table, rows).dom().contains(
                key_of(#[trigger] rows[i]),
            ),
    decreases rows.len(),
{
    if rows.len() > 0 {
        let shorter = rows.drop_last();
        lemma_upsert_stores_every_key(table, shorter);
        assert forall|i: int| 0 <= i < rows.len() implies upserted(table, rows).dom().contains(
            key_of(#[trigger] rows[i]),
        ) by {
            if i < shorter.len() {
                assert(shorter[i] == rows[i]);
            }
        }
    }
}

/// A batch whose keys are all taken changes nothing. The empty batch is
/// the plainest case.
pub proof fn lemma_upsert_of_stored_keys(
    table: Map<(TradeDate, Seq<char>), RecordView>,
    rows: Seq<RecordView>,
)
    requires
        forall|i: int| 0 <= i < rows.len() ==> table.dom().contains(key_of(#[trigger] rows[i])),
    ensures
        upserted(table, rows) == table,
    decreases rows.len(),
{
    if rows.len() > 0 {
        let shorter = rows.drop_last();
        assert forall|i: int| 0 <= i < shorter.len() implies table.dom().contains(
            key_of(#[trigger] shorter[i]),
        ) by {
            assert(shorter[i] == rows[i]);
        }
        lemma_upsert_of_stored_keys(table, shorter);
    }
}

/// Upserting a batch twice leaves the table as upserting it once does.
pub proof fn lemma_upsert_idempotent(
    table: Map<(TradeDate, Seq<char>), RecordView>,
    rows: Seq<RecordView>,
)
    ensures
        upserted(upserted(table, rows), rows) == upserted(table, rows),
{
    lemma_upsert_stores_every_key(table, rows);
    lemma_upsert_of_stored_keys(upserted(table, rows), rows);
}

/// Ingesting the same answer twice leaves the table as ingesting it once
/// does: the second run finds every key taken.
pub proof fn lemma_ingest_idempotent(
    table: Map<(TradeDate, Seq<char>), RecordView>,
    status: u16,
    report: Option<ReportView>,
)
    ensures
        ingested(ingested(table, status, report), status, report) == ingested(
            table,
            status,
            report,
        ),
{
    match answered(status, report).1 {
        ActionView::Upsert(rows) => {
            lemma_upsert_idempotent(table, rows);
        },
        _ => {},
    }
}

/// Ingesting an answer never changes a row that is stored: what the table
/// held, it holds.
pub proof fn lemma_ingest_keeps_stored_rows(
    table: Map<(TradeDate, Seq<char>), RecordView>,
    status: u16,
    report: Option<ReportView>,
)
    ensures
        forall|key: (TradeDate, Seq<char>)| #[trigger]
            table.dom().contains(key) ==> ingested(table, status, report).dom().contains(key)
                && ingested(table, status, report)[key] == table[key],
{
    match answered(status, report).1 {
        ActionView::Upsert(rows) => {
            lemma_upsert_keeps_stored_rows(table, rows);
        },
        _ => {},
    }
}

} // verus!
