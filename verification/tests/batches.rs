use market_backend::batch::{assemble, ColumnarBatch};
use market_backend::record::{parse_row, TradeDate};
use std::collections::BTreeMap;

const DAY: TradeDate = TradeDate { year: 2024, month: 1, day: 2 };

fn row(fields: &[&str]) -> Vec<String> {
    fields.iter().map(|f| f.to_string()).collect()
}

fn stock(symbol: &str, volume: &str) -> Vec<String> {
    row(&[symbol, "name", volume, "2", "3.0", "4.0", "5.0", "6.0", "7.0", "8"])
}

fn report() -> Vec<Vec<String>> {
    vec![
        row(&["證券代號", "證券名稱", "成交股數"]),
        stock("2330", "1,000"),
        stock("2317", "N/A"),
        stock("0050", "30"),
        row(&[]),
        stock("2330", "99"),
    ]
}

fn lengths(batch: &ColumnarBatch) -> Vec<usize> {
    vec![
        batch.trade_dates().len(),
        batch.symbols().len(),
        batch.names().len(),
        batch.volumes().len(),
        batch.amounts().len(),
        batch.opens().len(),
        batch.highs().len(),
        batch.lows().len(),
        batch.closes().len(),
        batch.changes().len(),
        batch.transaction_counts().len(),
    ]
}

#[test]
fn a_new_batch_is_empty() {
    let batch = ColumnarBatch::new();
    assert!(batch.is_empty());
    assert_eq!(batch.len(), 0);
    assert_eq!(lengths(&batch), vec![0; 11]);
}

#[test]
fn a_pushed_record_enters_every_column() {
    let batch = ColumnarBatch::new()
        .push(parse_row(&stock("2330", "1,000"), DAY).unwrap())
        .push(parse_row(&stock("0050", "30"), DAY).unwrap());
    assert_eq!(batch.len(), 2);
    assert!(!batch.is_empty());
    assert_eq!(lengths(&batch), vec![2; 11]);
    assert_eq!(batch.symbols(), &vec!["2330".to_string(), "0050".to_string()]);
    assert_eq!(batch.volumes(), &vec![1000, 30]);
}

#[test]
fn only_readable_rows_enter_the_batch() {
    let batch = assemble(&report(), DAY);
    assert_eq!(batch.len(), 3);
    assert_eq!(lengths(&batch), vec![3; 11]);
    assert_eq!(
        batch.symbols(),
        &vec!["2330".to_string(), "0050".to_string(), "2330".to_string()]
    );
    assert_eq!(batch.names(), &vec!["name".to_string(); 3]);
    assert_eq!(batch.volumes(), &vec![1000, 30, 99]);
    assert_eq!(batch.amounts(), &vec![2, 2, 2]);
    assert_eq!(batch.transaction_counts(), &vec![8, 8, 8]);
    let opens: Vec<f64> = batch.opens().iter().map(|p| p.as_str().parse().unwrap()).collect();
    assert_eq!(opens, vec![3.0; 3]);
    let highs: Vec<f64> = batch.highs().iter().map(|p| p.as_str().parse().unwrap()).collect();
    assert_eq!(highs, vec![4.0; 3]);
    let lows: Vec<f64> = batch.lows().iter().map(|p| p.as_str().parse().unwrap()).collect();
    assert_eq!(lows, vec![5.0; 3]);
    let closes: Vec<f64> = batch.closes().iter().map(|p| p.as_str().parse().unwrap()).collect();
    assert_eq!(closes, vec![6.0; 3]);
    let changes: Vec<f64> = batch.changes().iter().map(|p| p.as_str().parse().unwrap()).collect();
    assert_eq!(changes, vec![7.0; 3]);
}

#[test]
fn every_row_of_the_batch_carries_the_day_of_the_report() {
    let batch = assemble(&report(), DAY);
    assert_eq!(batch.trade_dates(), &vec![DAY; 3]);
}

#[test]
fn a_report_without_a_readable_row_gives_an_empty_batch() {
    let rows = vec![row(&[]), row(&["a", "b"]), stock("2330", "N/A"), stock("2330", "")];
    let batch = assemble(&rows, DAY);
    assert!(batch.is_empty());
    assert_eq!(lengths(&batch), vec![0; 11]);
    assert!(assemble(&Vec::new(), DAY).is_empty());
}

#[test]
fn no_row_of_a_batch_lacks_a_symbol_or_holds_a_negative_quantity() {
    let count = |text: &str| {
        row(&["2330", "name", "1", "2", "3.0", "4.0", "5.0", "6.0", "-7.0", text])
    };
    let rows = vec![
        stock("2330", "-5"),
        stock("", "5"),
        stock("0050", "-0"),
        count("3000000000"),
        count("-1"),
        row(&["2317", "name", "1", "-2", "3.0", "4.0", "5.0", "6.0", "7.0", "8"]),
        stock("2454", "7"),
    ];
    let batch = assemble(&rows, DAY);
    assert_eq!(batch.len(), 4);
    assert_eq!(lengths(&batch), vec![4; 11]);
    assert!(batch.symbols().iter().all(|symbol| !symbol.is_empty()));
    assert!(batch.volumes().iter().all(|&volume| volume >= 0));
    assert!(batch.amounts().iter().all(|&amount| amount >= 0));
    assert!(batch.transaction_counts().iter().all(|&count| count >= 0));
    assert_eq!(batch.volumes(), &vec![0, 1, 1, 7]);
    assert_eq!(batch.transaction_counts(), &vec![8, 0, 0, 8]);
}

#[test]
fn a_rejected_row_leaves_its_neighbours_alone() {
    let with = vec![stock("1", "10"), stock("2", "bad"), stock("3", "30")];
    let without = vec![stock("1", "10"), stock("3", "30")];
    let a = assemble(&with, DAY);
    let b = assemble(&without, DAY);
    assert_eq!(a.symbols(), b.symbols());
    assert_eq!(a.volumes(), b.volumes());
    assert_eq!(lengths(&a), lengths(&b));
}

fn upsert(table: &mut BTreeMap<((i32, u32, u32), String), i64>, batch: &ColumnarBatch) {
    for i in 0..batch.len() {
        let day = batch.trade_dates()[i];
        let key = ((day.year, day.month, day.day), batch.symbols()[i].clone());
        table.entry(key).or_insert(batch.volumes()[i]);
    }
}

#[test]
fn a_report_written_twice_leaves_what_one_writing_leaves() {
    let mut once = BTreeMap::new();
    once.insert(((2024, 1, 2), "0050".to_string()), 7);
    let mut twice = once.clone();
    upsert(&mut once, &assemble(&report(), DAY));
    upsert(&mut twice, &assemble(&report(), DAY));
    upsert(&mut twice, &assemble(&report(), DAY));
    assert_eq!(once, twice);
    assert_eq!(once.len(), 2);
    assert_eq!(once[&((2024, 1, 2), "0050".to_string())], 7);
    assert_eq!(once[&((2024, 1, 2), "2330".to_string())], 1000);
}
