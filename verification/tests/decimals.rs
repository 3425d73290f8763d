use market_backend::decimal::{is_decimal, Decimal};

const TEXTS: [&str; 96] = [
    "600.0", "605.0", "598.0", "601.0", "1.0", "-1.5", "+1.5", "0", "-0", "+0", "1", "1.", ".5",
    "-.5", "+.5", "5.", "-5.", ".", "-.", "+.", "", "+", "-", "--1", "+-1", "-+1", "1e5", "1E5",
    "1e+5", "1e-5", "1E+5", "1E-5", "1.e5", ".5e5", "1.5e5", "1.5e", "1.5e+", "1.5e-", "e5", ".e5",
    "1e5.0", "1e5e5", "1ee5", "1.5.2", "1..5", "..5", "inf", "INF", "Inf", "iNf", "-inf", "+inf",
    "infinity", "INFINITY", "Infinity", "-infinity", "+Infinity", "infinit", "infinityy", "in", "nan",
    "NaN", "NAN", "-nan", "+nan", "nanx", "na", "N/A", "abc", "12a", "a12", " 1", "1 ", "1 2",
    "0x10", "1_000", "1f", "1d", "１２３", "٣", "1e٣", "台積電", "1e99999999999999999999",
    "0.000000000000000000000000000000000000000000001", "123456789012345678901234567890",
    ".123456789012345678901234567890", "00000.00000", "1e0000000005", "-1e-0", "+0.0e+0", "1E", "E1",
    "--", "++1", "1+", "1-",
];

#[test]
fn decimal_literals_are_those_that_parse_as_floats() {
    for text in TEXTS {
        let chars: Vec<char> = text.chars().collect();
        assert_eq!(is_decimal(&chars), text.parse::<f64>().is_ok(), "literal {:?}", text);
    }
}

#[test]
fn separators_are_dropped_before_the_grammar_is_applied() {
    for text in TEXTS {
        let mut with_separators = String::from(",");
        for c in text.chars() {
            with_separators.push(c);
            with_separators.push(',');
        }
        let parsed = Decimal::parse(&with_separators);
        assert_eq!(parsed.is_some(), text.parse::<f64>().is_ok(), "literal {:?}", text);
        if let Some(decimal) = parsed {
            assert_eq!(decimal.as_str(), text);
        }
    }
}

#[test]
fn a_price_keeps_its_value() {
    let price = Decimal::parse("1,234.50").expect("a price");
    assert_eq!(price.as_str(), "1234.50");
    assert_eq!(price.as_str().parse::<f64>().unwrap(), 1234.5);
    let change = Decimal::parse("-0.35").expect("a change");
    assert_eq!(change.as_str().parse::<f64>().unwrap(), -0.35);
}

#[test]
fn text_that_is_no_number_is_no_price() {
    assert!(Decimal::parse("N/A").is_none());
    assert!(Decimal::parse("").is_none());
    assert!(Decimal::parse(",").is_none());
    assert!(Decimal::parse("--").is_none());
    assert!(Decimal::parse("1.2.3").is_none());
}

#[test]
fn a_copy_holds_the_same_literal() {
    let price = Decimal::parse("598.0").expect("a price");
    assert_eq!(price.duplicate().as_str(), "598.0");
}
