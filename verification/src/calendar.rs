//! The date of a report, read from its `YYYYMMDD` text by chrono.

use crate::record::TradeDate;
use chrono::Datelike;
use vstd::prelude::*;

verus! {

/// The format in which a report gives its date: year, month and day, in
/// digits, without separators.
pub const DATE_FORMAT: &'static str = "%Y%m%d";

/// What chrono makes of `text` under `format`: the year, month and day
/// that it reads, or the words in which it refuses the text.
pub uninterp spec fn chrono_date(text: Seq<char>, format: Seq<char>) -> Result<
    (i32, u32, u32),
    Seq<char>,
>;

/// `NaiveDate::parse_from_str` of chrono, for the one format of this
/// library, with a refusal given as the `Display` text of chrono's error.
/// What it accepts, which date it reads and how it words a refusal depend
/// on the two texts alone. A date that it returns has a month from 1 to
/// 12 and a day from 1 to 31: the parser refuses any other number for
/// them.
#[verifier::external_body]
fn parse_from_str(text: &str, format: &str) -> (r: Result<(i32, u32, u32), String>)
    requires
        format@ == DATE_FORMAT@,
    ensures
        match r {
            Ok(date) => chrono_date(text@, format@) == Ok::<(i32, u32, u32), Seq<char>>(date),
            Err(refusal) => chrono_date(text@, format@) == Err::<(i32, u32, u32), Seq<char>>(
                refusal@,
            ),
        },
        r is Ok ==> 1 <= r.unwrap().1 <= 12 && 1 <= r.unwrap().2 <= 31,
{
    match chrono::NaiveDate::parse_from_str(text, format) {
        Ok(date) => Ok((date.year(), date.month(), date.day())),
        Err(e) => Err(e.to_string()),
    }
}

/// The trading day that `text` gives, if chrono reads one from it.
pub open spec fn trade_date_of(text: Seq<char>) -> Option<TradeDate> {
    match chrono_date(text, DATE_FORMAT@) {
        Ok(date) => Some(TradeDate { year: date.0, month: date.1, day: date.2 }),
        Err(_) => None,
    }
}

/// The words in which chrono refuses `text`, where it reads no date from
/// it.
pub open spec fn refusal_of(text: Seq<char>) -> Option<Seq<char>> {
    match chrono_date(text, DATE_FORMAT@) {
        Ok(_) => None,
        Err(refusal) => Some(refusal),
    }
}

/// Reads the date of a report.
///
/// Whether `text` holds a date, and which, is for chrono to say. Where it
/// holds none, the error gives chrono's words for why.
pub fn parse_trade_date(text: &str) -> (r: Result<TradeDate, String>)
    ensures
        match r {
            Ok(date) => trade_date_of(text@) == Some(date),
            Err(refusal) => trade_date_of(text@) is None && refusal_of(text@) == Some(refusal@),
        },
        r is Ok ==> r.unwrap().in_calendar_bounds(),
{
    match parse_from_str(text, DATE_FORMAT) {
        Ok(date) => Ok(TradeDate { year: date.0, month: date.1, day: date.2 }),
        Err(refusal) => Err(refusal),
    }
}

} // verus!
