use market_backend::calendar::{parse_trade_date, DATE_FORMAT};
use market_backend::ingest::{
    acknowledgment, begin, plan_upsert, step, DailyReport, FailureKind, IngestAction, IngestError,
    IngestEvent, IngestState, DATE_FORMAT_MESSAGE, PERSISTENCE_MESSAGE, REPORT_URL, SUCCESS_MESSAGE,
    TRANSPORT_MESSAGE, UPSERT_STATEMENT,
};
use market_backend::record::TradeDate;
use market_backend::status::StatusCode;

const DAY: TradeDate = TradeDate { year: 2024, month: 1, day: 2 };

fn row(fields: &[&str]) -> Vec<String> {
    fields.iter().map(|f| f.to_string()).collect()
}

fn complete() -> Vec<String> {
    row(&["2330", "台積電", "25000000", "15000000000", "600.0", "605.0", "598.0", "601.0", "1.0", "12000"])
}

fn without_volume() -> Vec<String> {
    row(&["2330", "台積電", "N/A", "15000000000", "600.0", "605.0", "598.0", "601.0", "1.0", "12000"])
}

fn report(date: &str, data: Vec<Vec<String>>) -> IngestEvent {
    IngestEvent::Answered {
        status: StatusCode::ok(),
        body: Ok(DailyReport { date: date.to_string(), data }),
    }
}

#[test]
fn the_date_of_a_report_is_read_by_year_month_and_day() {
    assert_eq!(DATE_FORMAT, "%Y%m%d");
    assert_eq!(parse_trade_date("20240102"), Ok(DAY));
    assert_eq!(parse_trade_date("19991231"), Ok(TradeDate { year: 1999, month: 12, day: 31 }));
    assert_eq!(parse_trade_date("20240229"), Ok(TradeDate { year: 2024, month: 2, day: 29 }));
}

#[test]
fn the_date_is_read_as_chrono_reads_it() {
    let texts = [
        "20240102", "2024-01-02", "20230229", "20241301", "20240100", "2024010", "202401022", "",
        "abcdefgh", " 20240102", "20240102 ", "+20240102", "-20240102", "2024 1 2", "20240132",
        "00010101", "99991231", "2024１２３１",
    ];
    for text in texts {
        let expected = chrono::NaiveDate::parse_from_str(text, "%Y%m%d").ok();
        let got = parse_trade_date(text).ok();
        assert_eq!(got.is_some(), expected.is_some(), "date {:?}", text);
        if let (Some(day), Some(date)) = (got, expected) {
            assert_eq!(
                chrono::NaiveDate::from_ymd_opt(day.year, day.month, day.day),
                Some(date),
                "date {:?}",
                text
            );
        }
    }
}

#[test]
fn a_text_that_is_no_date_is_refused_in_the_words_of_chrono() {
    for text in ["", "2024-01-02", "20230229", "yesterday", "20241301", "202401022", "2024"] {
        let reason = parse_trade_date(text).expect_err("no date");
        let expected = chrono::NaiveDate::parse_from_str(text, "%Y%m%d").unwrap_err().to_string();
        assert_eq!(reason, expected, "date {:?}", text);
    }
    assert_eq!(parse_trade_date("").unwrap_err(), "premature end of input");
    assert_eq!(parse_trade_date("20241301").unwrap_err(), "input is out of range");
    assert_eq!(parse_trade_date("202401022").unwrap_err(), "trailing input");
    assert_eq!(parse_trade_date("yesterday").unwrap_err(), "input contains invalid characters");
}

#[test]
fn a_request_begins_with_the_fetch() {
    let (state, action) = begin();
    assert_eq!(state, IngestState::AwaitingReport);
    assert!(matches!(action, IngestAction::Fetch));
    assert_eq!(REPORT_URL, "https://www.twse.com.tw/exchangeReport/STOCK_DAY_ALL");
}

#[test]
fn a_report_leads_to_one_upsert_of_its_accepted_rows() {
    let event = report("20240102", vec![complete(), without_volume(), row(&["x"])]);
    match step(IngestState::AwaitingReport, event) {
        Some((IngestState::AwaitingUpsert, IngestAction::Upsert(batch))) => {
            assert_eq!(batch.len(), 1);
            assert_eq!(batch.trade_dates(), &vec![DAY]);
            assert_eq!(batch.symbols(), &vec!["2330".to_string()]);
            assert_eq!(batch.names(), &vec!["台積電".to_string()]);
            assert_eq!(batch.volumes(), &vec![25000000]);
            assert_eq!(batch.amounts(), &vec![15000000000]);
            assert_eq!(batch.opens()[0].as_str().parse::<f64>().unwrap(), 600.0);
            assert_eq!(batch.highs()[0].as_str().parse::<f64>().unwrap(), 605.0);
            assert_eq!(batch.lows()[0].as_str().parse::<f64>().unwrap(), 598.0);
            assert_eq!(batch.closes()[0].as_str().parse::<f64>().unwrap(), 601.0);
            assert_eq!(batch.changes()[0].as_str().parse::<f64>().unwrap(), 1.0);
            assert_eq!(batch.transaction_counts(), &vec![12000]);
        }
        other => panic!("unexpected step: {:?}", other),
    }
}

#[test]
fn a_row_without_a_volume_yields_no_record() {
    match step(IngestState::AwaitingReport, report("20240102", vec![without_volume()])) {
        Some((IngestState::AwaitingUpsert, IngestAction::Upsert(batch))) => {
            assert!(batch.is_empty());
        }
        other => panic!("unexpected step: {:?}", other),
    }
}

#[test]
fn a_report_without_accepted_rows_is_still_upserted_and_succeeds() {
    for data in [Vec::new(), vec![row(&[]), without_volume(), row(&["header"])]] {
        match step(IngestState::AwaitingReport, report("20240102", data)) {
            Some((IngestState::AwaitingUpsert, IngestAction::Upsert(batch))) => {
                assert!(batch.is_empty());
                assert_eq!(batch.len(), 0);
            }
            other => panic!("unexpected step: {:?}", other),
        }
    }
    assert!(matches!(
        step(IngestState::AwaitingUpsert, IngestEvent::UpsertDone),
        Some((IngestState::Finished, IngestAction::Succeed))
    ));
}

#[test]
fn a_report_without_a_date_ends_the_request_before_the_upsert() {
    for date in ["", "2024-01-02", "20241301", "N/A"] {
        match step(IngestState::AwaitingReport, report(date, vec![complete()])) {
            Some((IngestState::Finished, IngestAction::Fail(e))) => {
                assert_eq!(e.kind, FailureKind::DateFormat);
                assert_eq!(e.cause, parse_trade_date(date).unwrap_err());
                let error = e.into_app_error();
                assert_eq!(error.status_code.as_u16(), 400);
                assert_eq!(error.message, DATE_FORMAT_MESSAGE);
                assert_eq!(error.message, "日期格式錯誤");
            }
            other => panic!("unexpected step for {:?}: {:?}", date, other),
        }
    }
}

#[test]
fn a_failed_fetch_ends_the_request() {
    match step(IngestState::AwaitingReport, IngestEvent::FetchFailed("timed out".to_string())) {
        Some((IngestState::Finished, IngestAction::Fail(e))) => {
            assert_eq!(e.kind, FailureKind::Transport);
            assert_eq!(e.cause, "timed out");
            let error = e.into_app_error();
            assert_eq!(error.status_code.as_u16(), 500);
            assert_eq!(error.message, TRANSPORT_MESSAGE);
            assert_eq!(error.message, "HTTP 請求失敗");
            assert_eq!(error.source.as_deref(), Some("timed out"));
        }
        other => panic!("unexpected step: {:?}", other),
    }
}

#[test]
fn an_answer_without_success_is_a_transport_failure() {
    for code in [100, 199, 300, 301, 404, 500, 503, 999] {
        let event = IngestEvent::Answered {
            status: StatusCode::from_u16(code).unwrap(),
            body: Ok(DailyReport { date: "20240102".to_string(), data: vec![complete()] }),
        };
        match step(IngestState::AwaitingReport, event) {
            Some((IngestState::Finished, IngestAction::Fail(e))) => {
                assert_eq!(e.kind, FailureKind::Transport, "status {}", code);
                assert_eq!(e.cause, StatusCode::from_u16(code).unwrap().to_text());
                assert_eq!(e.into_app_error().status_code.as_u16(), 500);
            }
            other => panic!("unexpected step for {}: {:?}", code, other),
        }
    }
    let event = IngestEvent::Answered {
        status: StatusCode::from_u16(503).unwrap(),
        body: Err("no body".to_string()),
    };
    match step(IngestState::AwaitingReport, event) {
        Some((IngestState::Finished, IngestAction::Fail(e))) => {
            assert_eq!(e.kind, FailureKind::Transport);
            assert_eq!(e.cause, "503 Service Unavailable");
        }
        other => panic!("unexpected step: {:?}", other),
    }
}

#[test]
fn every_status_of_success_lets_the_report_through() {
    for code in [200, 201, 204, 299] {
        let event = IngestEvent::Answered {
            status: StatusCode::from_u16(code).unwrap(),
            body: Ok(DailyReport { date: "20240102".to_string(), data: vec![complete()] }),
        };
        assert!(
            matches!(
                step(IngestState::AwaitingReport, event),
                Some((IngestState::AwaitingUpsert, IngestAction::Upsert(_)))
            ),
            "status {}",
            code
        );
    }
}

#[test]
fn an_answer_that_holds_no_report_is_a_transport_failure() {
    let event = IngestEvent::Answered {
        status: StatusCode::ok(),
        body: Err("expected value at line 1 column 1".to_string()),
    };
    match step(IngestState::AwaitingReport, event) {
        Some((IngestState::Finished, IngestAction::Fail(e))) => {
            assert_eq!(e.kind, FailureKind::Transport);
            assert_eq!(e.cause, "expected value at line 1 column 1");
            let error = e.into_app_error();
            assert_eq!(error.status_code.as_u16(), 500);
            assert_eq!(error.message, "HTTP 請求失敗");
        }
        other => panic!("unexpected step: {:?}", other),
    }
}

#[test]
fn a_refused_upsert_ends_the_request() {
    match step(IngestState::AwaitingUpsert, IngestEvent::UpsertFailed("pool closed".to_string())) {
        Some((IngestState::Finished, IngestAction::Fail(e))) => {
            assert_eq!(e.kind, FailureKind::Persistence);
            assert_eq!(e.cause, "pool closed");
            let error = e.into_app_error();
            assert_eq!(error.status_code.as_u16(), 500);
            assert_eq!(error.message, PERSISTENCE_MESSAGE);
            assert_eq!(error.message, "資料庫錯誤");
            assert_eq!(error.source.as_deref(), Some("pool closed"));
        }
        other => panic!("unexpected step: {:?}", other),
    }
}

#[test]
fn an_event_out_of_turn_is_not_taken() {
    assert!(step(IngestState::AwaitingReport, IngestEvent::UpsertDone).is_none());
    assert!(step(IngestState::AwaitingReport, IngestEvent::UpsertFailed(String::new())).is_none());
    assert!(step(IngestState::AwaitingUpsert, report("20240102", vec![complete()])).is_none());
    assert!(step(IngestState::AwaitingUpsert, IngestEvent::FetchFailed(String::new())).is_none());
    assert!(step(IngestState::Finished, report("20240102", vec![complete()])).is_none());
    assert!(step(IngestState::Finished, IngestEvent::FetchFailed(String::new())).is_none());
    assert!(step(IngestState::Finished, IngestEvent::UpsertDone).is_none());
    assert!(step(IngestState::Finished, IngestEvent::UpsertFailed(String::new())).is_none());
}

#[test]
fn a_plan_follows_what_the_date_was_read_as() {
    let data = vec![complete(), complete()];
    match plan_upsert(Ok(TradeDate { year: 1, month: 2, day: 3 }), &data) {
        (IngestState::AwaitingUpsert, IngestAction::Upsert(batch)) => {
            assert_eq!(batch.len(), 2);
            assert_eq!(batch.trade_dates(), &vec![TradeDate { year: 1, month: 2, day: 3 }; 2]);
        }
        other => panic!("unexpected plan: {:?}", other),
    }
    match plan_upsert(Err("input contains invalid characters".to_string()), &data) {
        (IngestState::Finished, IngestAction::Fail(IngestError { kind, cause })) => {
            assert_eq!(kind, FailureKind::DateFormat);
            assert_eq!(cause, "input contains invalid characters");
        }
        other => panic!("unexpected plan: {:?}", other),
    }
}

#[test]
fn the_acknowledgment_is_a_plain_success() {
    let (status, body) = acknowledgment();
    assert_eq!(status.as_u16(), 200);
    assert!(body.success);
    assert_eq!(body.data.as_deref(), Some("成功"));
    assert_eq!(SUCCESS_MESSAGE, "成功");
    assert!(body.error.is_none());
}

#[test]
fn the_statement_inserts_by_position_and_skips_taken_keys() {
    assert!(UPSERT_STATEMENT.contains("INSERT INTO stock_day_all"));
    assert!(UPSERT_STATEMENT.contains("ON CONFLICT (trade_date, stock_code) DO NOTHING"));
    for n in 1..=11 {
        assert!(UPSERT_STATEMENT.contains(&format!("${}::", n)), "parameter {}", n);
    }
    assert!(!UPSERT_STATEMENT.contains("$12"));
}
