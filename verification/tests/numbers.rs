use market_backend::numeric::{
    chars_of, parse_i64, read_i64, read_magnitude, read_unsigned, scan_digits, strip_separators,
};

fn chars(text: &str) -> Vec<char> {
    text.chars().collect()
}

#[test]
fn separators_are_stripped() {
    assert_eq!(strip_separators("1,234,567"), "1234567");
    assert_eq!(strip_separators(",,"), "");
    assert_eq!(strip_separators(""), "");
    assert_eq!(strip_separators("no separators"), "no separators");
    assert_eq!(strip_separators("台,積,電"), "台積電");
}

#[test]
fn thousands_separators_parse_to_the_plain_integer() {
    assert_eq!(parse_i64("1,234,567"), Some(1234567));
    assert_eq!(parse_i64("1234567"), Some(1234567));
    assert_eq!(parse_i64("15,000,000,000"), Some(15000000000));
}

#[test]
fn a_separator_may_stand_anywhere() {
    let plain = "1234567";
    for i in 0..=plain.len() {
        let mut text = String::from(plain);
        text.insert(i, ',');
        assert_eq!(parse_i64(&text), Some(1234567), "separator at {}", i);
    }
    assert_eq!(parse_i64("-,1"), Some(-1));
    assert_eq!(parse_i64("1,,2"), Some(12));
}

#[test]
fn integers_are_read_as_std_reads_them() {
    let cases = [
        "0", "-0", "+0", "7", "+7", "-7", "0007", "-0007", "9223372036854775807",
        "9223372036854775808", "-9223372036854775808", "-9223372036854775809",
        "+9223372036854775807", "99999999999999999999999999", "000000000000000000000000001", "",
        "+", "-", "--1", "+-1", "-+1", "1-", "1+", " 1", "1 ", "1.0", "1e3", "0x10", "1_000", "N/A",
        "１２３", "٣", "abc", "12a", "a12", "\u{0}", "1\n",
    ];
    for text in cases {
        assert_eq!(parse_i64(text), text.parse::<i64>().ok(), "reading {:?}", text);
    }
}

#[test]
fn the_bounds_of_64_bits_are_exact() {
    assert_eq!(parse_i64("9,223,372,036,854,775,807"), Some(i64::MAX));
    assert_eq!(parse_i64("-9,223,372,036,854,775,808"), Some(i64::MIN));
    assert_eq!(parse_i64("9,223,372,036,854,775,808"), None);
    assert_eq!(parse_i64("-9,223,372,036,854,775,809"), None);
}

#[test]
fn text_without_digits_is_no_integer() {
    assert_eq!(parse_i64(""), None);
    assert_eq!(parse_i64(","), None);
    assert_eq!(parse_i64("N/A"), None);
    assert_eq!(parse_i64("--"), None);
}

#[test]
fn characters_come_one_by_one() {
    assert_eq!(chars_of("a,台"), vec!['a', ',', '台']);
    assert_eq!(chars_of(""), Vec::<char>::new());
}

#[test]
fn read_i64_takes_a_sign_and_digits() {
    assert_eq!(read_i64(&chars("-12")), Some(-12));
    assert_eq!(read_i64(&chars("+12")), Some(12));
    assert_eq!(read_i64(&chars("1,2")), None);
    assert_eq!(read_i64(&chars("")), None);
}

#[test]
fn a_run_of_digits_ends_at_the_first_other_character() {
    let s = chars("ab123.45");
    assert_eq!(scan_digits(&s, 0), 0);
    assert_eq!(scan_digits(&s, 2), 5);
    assert_eq!(scan_digits(&s, 5), 5);
    assert_eq!(scan_digits(&s, 6), 8);
    assert_eq!(scan_digits(&s, 8), 8);
}

#[test]
fn a_magnitude_stays_within_its_limit() {
    assert_eq!(read_magnitude(&chars("x255"), 1, 255), Some(255));
    assert_eq!(read_magnitude(&chars("x256"), 1, 255), None);
    assert_eq!(read_magnitude(&chars("x"), 1, 255), None);
    assert_eq!(read_magnitude(&chars("18446744073709551615"), 0, u64::MAX), Some(u64::MAX));
    assert_eq!(read_magnitude(&chars("18446744073709551616"), 0, u64::MAX), None);
    assert_eq!(read_magnitude(&chars("0000000000000000000000000000017"), 0, 17), Some(17));
    assert_eq!(read_magnitude(&chars("12a"), 0, 1000), None);
}

#[test]
fn unsigned_numbers_are_read_as_std_reads_them() {
    let cases = [
        "0", "+0", "-0", "8080", "+8080", "-1", "65535", "65536", "0065535", "", "+", "-", "80 80",
        " 80", "8,080", "4294967295", "4294967296", "18446744073709551615", "18446744073709551616",
        "3e2", "٣",
    ];
    for text in cases {
        let s = chars(text);
        assert_eq!(
            read_unsigned(&s, u16::MAX as u64),
            text.parse::<u16>().ok().map(u64::from),
            "reading {:?} as u16",
            text
        );
        assert_eq!(
            read_unsigned(&s, u32::MAX as u64),
            text.parse::<u32>().ok().map(u64::from),
            "reading {:?} as u32",
            text
        );
        assert_eq!(read_unsigned(&s, u64::MAX), text.parse::<u64>().ok(), "reading {:?} as u64", text);
    }
}
