//! One ingestion request: fetch the daily report, date it, assemble the
//! batch, upsert it, acknowledge.
//!
//! The request holds no state between calls. Fetching and upserting are
//! done by the caller; what to do next is decided here, one event at a
//! time. A failure at any step ends the request: nothing is retried and
//! nothing is reported as partly done.

use crate::batch::{
    accepted_records, assemble, lemma_accepted_records_dated, lemma_accepted_records_well_formed,
    ColumnarBatch,
};
use crate::calendar::{parse_trade_date, refusal_of, trade_date_of};
use crate::error::AppError;
use crate::record::{RecordView, TradeDate};
use crate::response::{success, ApiResponse};
use crate::status::{status_text, StatusCode};
use vstd::prelude::*;

verus! {

/// Where the daily report is fetched from.
pub const REPORT_URL: &'static str = "https://www.twse.com.tw/exchangeReport/STOCK_DAY_ALL";

/// The statement that writes a batch. It takes the eleven columns by
/// position, inserts every row in one round trip, and skips a row whose
/// trading day and symbol are already stored.
pub const UPSERT_STATEMENT: &'static str = "
        INSERT INTO stock_day_all (
            trade_date, stock_code, stock_name,
            trade_volume, trade_amount, open_price,
            high_price, low_price, close_price,
            price_change, transaction_count
        )
        SELECT * FROM UNNEST(
            $1::date[], $2::text[], $3::text[],
            $4::bigint[], $5::bigint[], $6::double precision[],
            $7::double precision[], $8::double precision[], $9::double precision[],
            $10::double precision[], $11::int[]
        )
        ON CONFLICT (trade_date, stock_code) DO NOTHING;
    ";

/// What the client is told when the report could not be fetched.
pub const TRANSPORT_MESSAGE: &'static str = "HTTP 請求失敗";

/// What the client is told when the date of the report cannot be read.
pub const DATE_FORMAT_MESSAGE: &'static str = "日期格式錯誤";

/// What the client is told when the batch could not be written.
pub const PERSISTENCE_MESSAGE: &'static str = "資料庫錯誤";

/// What the client is told when the request is done.
pub const SUCCESS_MESSAGE: &'static str = "成功";

/// The daily report as the exchange sends it.
#[derive(Debug)]
pub struct DailyReport {
    pub date: String,
    pub data: Vec<Vec<String>>,
}

/// Why a request failed.
#[derive(Clone, Copy, Debug, PartialEq, Eq, Structural)]
pub enum FailureKind {
    /// The exchange could not be reached, or sent no report.
    Transport,
    /// The report carries no readable date.
    DateFormat,
    /// The store refused the batch.
    Persistence,
}

impl FailureKind {
    /// The status that the failure is answered with: a report without a
    /// date is the sender's fault, everything else is ours.
    pub open spec fn status(self) -> u16 {
        match self {
            FailureKind::Transport => 500,
            FailureKind::DateFormat => 400,
            FailureKind::Persistence => 500,
        }
    }

    /// The message that the failure is answered with.
    pub open spec fn message(self) -> Seq<char> {
        match self {
            FailureKind::Transport => TRANSPORT_MESSAGE@,
            FailureKind::DateFormat => DATE_FORMAT_MESSAGE@,
            FailureKind::Persistence => PERSISTENCE_MESSAGE@,
        }
    }
}

/// A failed request: what kind of failure, and the description of its
/// cause.
#[derive(Debug)]
pub struct IngestError {
    pub kind: FailureKind,
    pub cause: String,
}

impl IngestError {
    /// The error that the handler answers with.
    pub fn into_app_error(self) -> (e: AppError)
        ensures
            e.says(self.kind.status(), self.kind.message()),
            e.source is Some,
            e.source.unwrap()@ == self.cause@,
    {
        match self.kind {
            FailureKind::Transport => AppError::with_source(
                StatusCode::internal_server_error(),
                TRANSPORT_MESSAGE,
                self.cause.as_str(),
            ),
            FailureKind::DateFormat => AppError::with_source(
                StatusCode::bad_request(),
                DATE_FORMAT_MESSAGE,
                self.cause.as_str(),
            ),
            FailureKind::Persistence => AppError::with_source(
                StatusCode::internal_server_error(),
                PERSISTENCE_MESSAGE,
                self.cause.as_str(),
            ),
        }
    }
}

/// How far a request has come.
#[derive(Clone, Copy, Debug, PartialEq, Eq, Structural)]
pub enum IngestState {
    /// The report has been asked for.
    AwaitingReport,
    /// The batch has been handed to the store.
    AwaitingUpsert,
    /// The request has been answered.
    Finished,
}

/// What happened outside.
#[derive(Debug)]
pub enum IngestEvent {
    /// The exchange answered: with this status, and with this report or
    /// the reason why its answer holds none.
    Answered { status: StatusCode, body: Result<DailyReport, String> },
    /// The exchange could not be reached, for the reason given.
    FetchFailed(String),
    /// The store took the batch.
    UpsertDone,
    /// The store refused the batch, for the reason given.
    UpsertFailed(String),
}

/// What to do next.
#[derive(Debug)]
pub enum IngestAction {
    /// Fetch the report from `REPORT_URL`.
    Fetch,
    /// Run `UPSERT_STATEMENT` once, on the columns of this batch.
    Upsert(ColumnarBatch),
    /// Answer that the request is done.
    Succeed,
    /// Answer with this error.
    Fail(IngestError),
}

/// A report, as far as the decision depends on it.
pub struct ReportView {
    pub date: Seq<char>,
    pub data: Seq<Seq<Seq<char>>>,
}

/// An event, as far as the decision depends on it.
pub enum EventView {
    Answered { status: u16, report: Option<ReportView> },
    FetchFailed,
    UpsertDone,
    UpsertFailed,
}

/// An action, as far as it was decided.
pub enum ActionView {
    Fetch,
    Upsert(Seq<RecordView>),
    Succeed,
    Fail(FailureKind),
}

impl View for DailyReport {
    type V = ReportView;

    open spec fn view(&self) -> ReportView {
        ReportView { date: self.date@, data: self.data.deep_view() }
    }
}

impl View for IngestEvent {
    type V = EventView;

    open spec fn view(&self) -> EventView {
        match self {
            IngestEvent::Answered { status, body } => EventView::Answered {
                status: status.value(),
                report: match body {
                    Ok(report) => Some(report@),
                    Err(_) => None,
                },
            },
            IngestEvent::FetchFailed(_) => EventView::FetchFailed,
            IngestEvent::UpsertDone => EventView::UpsertDone,
            IngestEvent::UpsertFailed(_) => EventView::UpsertFailed,
        }
    }
}

impl View for IngestAction {
    type V = ActionView;

    open spec fn view(&self) -> ActionView {
        match self {
            IngestAction::Fetch => ActionView::Fetch,
            IngestAction::Upsert(batch) => ActionView::Upsert(batch@),
            IngestAction::Succeed => ActionView::Succeed,
            IngestAction::Fail(e) => ActionView::Fail(e.kind),
        }
    }
}

/// Whether a status reports a success: a number from 200 to 299.
pub open spec fn is_success(status: u16) -> bool {
    200 <= status <= 299
}

/// What a report leads to, given what its date was read as: the upsert of
/// its accepted rows, few or none, or the end of the request where it has
/// no date.
pub open spec fn planned(date: Option<TradeDate>, data: Seq<Seq<Seq<char>>>) -> (
    IngestState,
    ActionView,
) {
    match date {
        Some(day) => (IngestState::AwaitingUpsert, ActionView::Upsert(accepted_records(data, day))),
        None => (IngestState::Finished, ActionView::Fail(FailureKind::DateFormat)),
    }
}

/// What an answer of the exchange leads to: a transport failure where the
/// status reports no success or the answer holds no report, else what the
/// report leads to.
pub open spec fn answered(status: u16, report: Option<ReportView>) -> (IngestState, ActionView) {
    if !is_success(status) {
        (IngestState::Finished, ActionView::Fail(FailureKind::Transport))
    } else {
        match report {
            Some(report) => planned(trade_date_of(report.date), report.data),
            None => (IngestState::Finished, ActionView::Fail(FailureKind::Transport)),
        }
    }
}

/// The state and the action that follow `event` in `state`; none where
/// the event does not belong to the state.
pub open spec fn transition(state: IngestState, event: EventView) -> Option<
    (IngestState, ActionView),
> {
    match (state, event) {
        (IngestState::AwaitingReport, EventView::Answered { status, report }) => Some(
            answered(status, report),
        ),
        (IngestState::AwaitingReport, EventView::FetchFailed) => Some(
            (IngestState::Finished, ActionView::Fail(FailureKind::Transport)),
        ),
        (IngestState::AwaitingUpsert, EventView::UpsertDone) => Some(
            (IngestState::Finished, ActionView::Succeed),
        ),
        (IngestState::AwaitingUpsert, EventView::UpsertFailed) => Some(
            (IngestState::Finished, ActionView::Fail(FailureKind::Persistence)),
        ),
        _ => None,
    }
}

/// The cause that an action reports, where it reports one.
pub open spec fn cause_of(action: IngestAction) -> Option<Seq<char>> {
    match action {
        IngestAction::Fail(e) => Some(e.cause@),
        _ => None,
    }
}

/// Whether every row that an action hands to the store is a well-formed
/// record: it has a symbol, and neither its volume nor its amount nor its
/// transaction count is negative.
pub open spec fn rows_are_well_formed(action: ActionView) -> bool {
    match action {
        ActionView::Upsert(rows) => forall|i: int|
            0 <= i < rows.len() ==> (#[trigger] rows[i]).well_formed(),
        _ => true,
    }
}

/// The cause that an event gives for a failure, where it gives one: the
/// reason that came with it; for an answer without success, its status in
/// words; for a report without a date, the words in which its date was
/// refused.
pub open spec fn cause_given(event: IngestEvent) -> Option<Seq<char>> {
    match event {
        IngestEvent::Answered { status, body } => if !status.reports_success() {
            Some(status_text(status.value()))
        } else {
            match body {
                Ok(report) => refusal_of(report.date@),
                Err(cause) => Some(cause@),
            }
        },
        IngestEvent::FetchFailed(cause) => Some(cause@),
        IngestEvent::UpsertDone => None,
        IngestEvent::UpsertFailed(cause) => Some(cause@),
    }
}

/// A report with a date is upserted whatever its rows are: where none of
/// them was accepted, the batch is empty, the upsert is still issued, and
/// the request succeeds once the store has taken it.
pub proof fn lemma_empty_batch_is_upserted(status: u16, report: ReportView)
    requires
        is_success(status),
        trade_date_of(report.date) is Some,
        accepted_records(report.data, trade_date_of(report.date).unwrap()).len() == 0,
    ensures
        transition(
            IngestState::AwaitingReport,
            EventView::Answered { status, report: Some(report) },
        ) == Some((IngestState::AwaitingUpsert, ActionView::Upsert(Seq::<RecordView>::empty()))),
        transition(IngestState::AwaitingUpsert, EventView::UpsertDone) == Some(
            (IngestState::Finished, ActionView::Succeed),
        ),
{
    assert(accepted_records(report.data, trade_date_of(report.date).unwrap()) =~= Seq::<
        RecordView,
    >::empty());
}

/// Every row that a report hands to the store carries the date of the
/// report.
pub proof fn lemma_batch_carries_report_date(status: u16, report: ReportView)
    requires
        is_success(status),
        trade_date_of(report.date) is Some,
    ensures
        match transition(
            IngestState::AwaitingReport,
            EventView::Answered { status, report: Some(report) },
        ) {
            Some((IngestState::AwaitingUpsert, ActionView::Upsert(rows))) => forall|i: int|
                0 <= i < rows.len() ==> (#[trigger] rows[i]).trade_date == trade_date_of(
                    report.date,
                ).unwrap(),
            _ => false,
        },
{
    lemma_accepted_records_dated(report.data, trade_date_of(report.date).unwrap());
}

/// A report without a readable date ends the request before anything is
/// handed to the store.
pub proof fn lemma_undated_report_is_not_upserted(status: u16, report: ReportView)
    requires
        is_success(status),
        trade_date_of(report.date) is None,
    ensures
        transition(
            IngestState::AwaitingReport,
            EventView::Answered { status, report: Some(report) },
        ) == Some((IngestState::Finished, ActionView::Fail(FailureKind::DateFormat))),
        forall|event: EventView| transition(IngestState::Finished, event) is None,
{
}

/// Whatever a request hands to the store is well formed: no row without
/// a symbol, no negative volume, amount or transaction count.
pub proof fn lemma_upserted_rows_are_well_formed(state: IngestState, event: EventView)
    requires
        transition(state, event) is Some,
    ensures
        rows_are_well_formed(transition(state, event).unwrap().1),
{
    match (state, event) {
        (IngestState::AwaitingReport, EventView::Answered { status, report: Some(report) }) => {
            if is_success(status) && trade_date_of(report.date) is Some {
                lemma_accepted_records_well_formed(
                    report.data,
                    trade_date_of(report.date).unwrap(),
                );
            }
        },
        _ => {},
    }
}

/// An answer without success, or without a report, is a transport
/// failure, whatever else it holds.
pub proof fn lemma_bad_answer_is_a_transport_failure(status: u16, report: Option<ReportView>)
    requires
        !is_success(status) || report is None,
    ensures
        transition(IngestState::AwaitingReport, EventView::Answered { status, report }) == Some(
            (IngestState::Finished, ActionView::Fail(FailureKind::Transport)),
        ),
{
}

/// A request upserts at most once: only an answer that arrives while one
/// is awaited leads to an upsert, and the state that follows awaits no
/// answer.
pub proof fn lemma_single_upsert(state: IngestState, event: EventView)
    requires
        transition(state, event) is Some,
        transition(state, event).unwrap().1 is Upsert,
    ensures
        state == IngestState::AwaitingReport,
        transition(state, event).unwrap().0 == IngestState::AwaitingUpsert,
        forall|later: EventView| #[trigger]
            transition(IngestState::AwaitingUpsert, later) is Some ==> transition(
                IngestState::AwaitingUpsert,
                later,
            ).unwrap().0 == IngestState::Finished && !(transition(
                IngestState::AwaitingUpsert,
                later,
            ).unwrap().1 is Upsert),
{
}

/// Every failure ends the request: nothing follows it, and nothing is
/// tried again.
pub proof fn lemma_failure_is_final(state: IngestState, event: EventView)
    requires
        transition(state, event) is Some,
        transition(state, event).unwrap().1 is Fail,
    ensures
        transition(state, event).unwrap().0 == IngestState::Finished,
        forall|later: EventView| transition(IngestState::Finished, later) is None,
{
}

/// Starts a request: the report is to be fetched.
pub fn begin() -> (r: (IngestState, IngestAction))
    ensures
        r.0 == IngestState::AwaitingReport,
        r.1@ == ActionView::Fetch,
{
    (IngestState::AwaitingReport, IngestAction::Fetch)
}

/// Decides what a report leads to, once its date has been read.
///
/// With a date, the rows are assembled and the batch is to be upserted,
/// also where no row was accepted: an empty upsert is a legal no-op. With
/// no date the request ends before anything is written, and the failure
/// carries the reason that `parsed` gives.
pub fn plan_upsert(parsed: Result<TradeDate, String>, data: &Vec<Vec<String>>) -> (r: (
    IngestState,
    IngestAction,
))
    ensures
        (r.0, r.1@) == planned(
            match parsed {
                Ok(day) => Some(day),
                Err(_) => None,
            },
            data.deep_view(),
        ),
        parsed is Err ==> cause_of(r.1) == Some(parsed->Err_0@),
        rows_are_well_formed(r.1@),
{
    match parsed {
        Ok(day) => (IngestState::AwaitingUpsert, IngestAction::Upsert(assemble(data, day))),
        Err(cause) => (
            IngestState::Finished,
            IngestAction::Fail(IngestError { kind: FailureKind::DateFormat, cause }),
        ),
    }
}

/// Decides what an answer of the exchange leads to.
///
/// An answer whose status reports no success is a transport failure, and
/// so is one that holds no report. Else the date of the report is read,
/// and the report is planned under it.
pub fn on_answer(status: StatusCode, body: Result<DailyReport, String>) -> (r: (
    IngestState,
    IngestAction,
))
    ensures
        (r.0, r.1@) == answered(
            status.value(),
            match body {
                Ok(report) => Some(report@),
                Err(_) => None,
            },
        ),
        !status.reports_success() ==> cause_of(r.1) == Some(status_text(status.value())),
        status.reports_success() && body is Err ==> cause_of(r.1) == Some(body->Err_0@),
        status.reports_success() && body is Ok ==> cause_of(r.1) == refusal_of(
            body->Ok_0.date@,
        ),
        rows_are_well_formed(r.1@),
{
    if !status.is_success() {
        return (
            IngestState::Finished,
            IngestAction::Fail(
                IngestError { kind: FailureKind::Transport, cause: status.to_text() },
            ),
        );
    }
    match body {
        Ok(report) => {
            let parsed = parse_trade_date(report.date.as_str());
            plan_upsert(parsed, &report.data)
        },
        Err(cause) => (
            IngestState::Finished,
            IngestAction::Fail(IngestError { kind: FailureKind::Transport, cause }),
        ),
    }
}

/// Takes one step of a request: the state and the action that follow
/// `event` in `state`, or nothing where the event does not belong to the
/// state.
pub fn step(state: IngestState, event: IngestEvent) -> (r: Option<(IngestState, IngestAction)>)
    ensures
        match r {
            Some(next) => transition(state, event@) == Some((next.0, next.1@)),
            None => transition(state, event@) is None,
        },
        r is Some && cause_given(event) is Some ==> cause_of(r.unwrap().1) == cause_given(event),
        r is Some ==> rows_are_well_formed(r.unwrap().1@),
{
    match state {
        IngestState::AwaitingReport => match event {
            IngestEvent::Answered { status, body } => Some(on_answer(status, body)),
            IngestEvent::FetchFailed(cause) => Some(
                (
                    IngestState::Finished,
                    IngestAction::Fail(IngestError { kind: FailureKind::Transport, cause }),
                ),
            ),
            _ => None,
        },
        IngestState::AwaitingUpsert => match event {
            IngestEvent::UpsertDone => Some((IngestState::Finished, IngestAction::Succeed)),
            IngestEvent::UpsertFailed(cause) => Some(
                (
                    IngestState::Finished,
                    IngestAction::Fail(IngestError { kind: FailureKind::Persistence, cause }),
                ),
            ),
            _ => None,
        },
        IngestState::Finished => None,
    }
}

/// The reply to a request that is done: status 200 and the success
/// message.
pub fn acknowledgment() -> (reply: (StatusCode, ApiResponse<String>))
    ensures
        reply.0.value() == 200,
        reply.1.success,
        reply.1.data is Some,
        reply.1.data.unwrap()@ == SUCCESS_MESSAGE@,
        reply.1.error is None,
{
    success(SUCCESS_MESSAGE.to_owned())
}

} // verus!
