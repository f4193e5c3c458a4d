use discord_bot::text::{decimal_string, parse_u64, str_eq, strip_quotes};

#[test]
fn strip_quotes_removes_surrounding_quotes() {
    assert_eq!(strip_quotes("\"Rock\""), "Rock");
    assert_eq!(strip_quotes("\"1 + 2\""), "1 + 2");
    assert_eq!(strip_quotes("\"\""), "");
    assert_eq!(strip_quotes("x"), "");
    assert_eq!(strip_quotes(""), "");
    assert_eq!(strip_quotes("\"é€\""), "é€");
}

#[test]
fn str_eq_compares_characters() {
    assert!(str_eq("Rock", "Rock"));
    assert!(!str_eq("Rock", "rock"));
    assert!(!str_eq("Rock", "Rocks"));
    assert!(str_eq("", ""));
}

#[test]
fn parse_u64_reads_decimal_numbers() {
    assert_eq!(parse_u64("123"), Some(123));
    assert_eq!(parse_u64("+5"), Some(5));
    assert_eq!(parse_u64("007"), Some(7));
    assert_eq!(parse_u64("18446744073709551615"), Some(u64::MAX));
    assert_eq!(parse_u64("18446744073709551616"), None);
    assert_eq!(parse_u64("99999999999999999999999"), None);
    assert_eq!(parse_u64(""), None);
    assert_eq!(parse_u64("+"), None);
    assert_eq!(parse_u64("-1"), None);
    assert_eq!(parse_u64("12a"), None);
    assert_eq!(parse_u64(" 1"), None);
}

#[test]
fn parse_u64_agrees_with_std() {
    let samples = [
        "0", "1", "+0", "++1", "42", "-0", "1_000", "18446744073709551615",
        "18446744073709551616", "184467440737095516150", "", "+", "٣", "12 ",
    ];
    for s in samples.iter() {
        assert_eq!(parse_u64(s), s.parse::<u64>().ok(), "input {:?}", s);
    }
}

#[test]
fn decimal_string_writes_numbers() {
    assert_eq!(decimal_string(0), "0");
    assert_eq!(decimal_string(9), "9");
    assert_eq!(decimal_string(10), "10");
    assert_eq!(decimal_string(1234567890), "1234567890");
    assert_eq!(decimal_string(u64::MAX), "18446744073709551615");
}

#[test]
fn decimal_string_reads_back() {
    for n in [0u64, 1, 10, 99, 100, 123456789012345678, u64::MAX] {
        assert_eq!(parse_u64(&decimal_string(n)), Some(n));
        assert_eq!(decimal_string(n), n.to_string());
    }
}

#[test]
fn strip_quotes_undoes_quoting() {
    for s in ["", "a", "Rock", "1 + 1", "<@123>"] {
        let quoted = format!("\"{}\"", s);
        assert_eq!(strip_quotes(&quoted), s);
    }
}
