use af_postgres::port::{parse_u16, ParseIntErrorKind};
use af_postgres::text::push_decimal;

fn std_kind(s: &str) -> Result<u16, ParseIntErrorKind> {
    match s.parse::<u16>() {
        Ok(v) => Ok(v),
        Err(e) => match e.kind() {
            std::num::IntErrorKind::Empty => Err(ParseIntErrorKind::Empty),
            std::num::IntErrorKind::InvalidDigit => Err(ParseIntErrorKind::InvalidDigit),
            std::num::IntErrorKind::PosOverflow => Err(ParseIntErrorKind::PosOverflow),
            other => panic!("unexpected kind {:?}", other),
        },
    }
}

#[test]
fn parse_u16_reads_plain_ports() {
    assert_eq!(parse_u16("5432"), Ok(5432));
    assert_eq!(parse_u16("0"), Ok(0));
    assert_eq!(parse_u16("65535"), Ok(65535));
    assert_eq!(parse_u16("+80"), Ok(80));
    assert_eq!(parse_u16("000054"), Ok(54));
}

#[test]
fn parse_u16_errors() {
    assert_eq!(parse_u16(""), Err(ParseIntErrorKind::Empty));
    assert_eq!(parse_u16("+"), Err(ParseIntErrorKind::InvalidDigit));
    assert_eq!(parse_u16("-"), Err(ParseIntErrorKind::InvalidDigit));
    assert_eq!(parse_u16("-1"), Err(ParseIntErrorKind::InvalidDigit));
    assert_eq!(parse_u16(" 1"), Err(ParseIntErrorKind::InvalidDigit));
    assert_eq!(parse_u16("12a"), Err(ParseIntErrorKind::InvalidDigit));
    assert_eq!(parse_u16("65536"), Err(ParseIntErrorKind::PosOverflow));
    assert_eq!(parse_u16("99999a"), Err(ParseIntErrorKind::PosOverflow));
    assert_eq!(parse_u16("é"), Err(ParseIntErrorKind::InvalidDigit));
}

#[test]
fn parse_u16_agrees_with_std() {
    let cases = [
        "", "+", "-", "++1", "+-1", "0", "00", "+0", "1", "9", "10", "655", "6553", "65534", "65535",
        "65536", "65540", "70000", "100000", "0065535", "1 ", "1_000", "abc", "１", "+65535",
        "-0", "99999999999999999999", "5a", "a5", "12345x", "123456x",
    ];
    for c in cases.iter() {
        assert_eq!(parse_u16(c), std_kind(c), "input {:?}", c);
    }
    for n in (0u32..70000).step_by(7) {
        let s = n.to_string();
        assert_eq!(parse_u16(&s), std_kind(&s), "input {:?}", s);
    }
}

#[test]
fn parse_error_messages_match_std() {
    for (input, kind) in [
        ("", ParseIntErrorKind::Empty),
        ("x", ParseIntErrorKind::InvalidDigit),
        ("70000", ParseIntErrorKind::PosOverflow),
    ] {
        let e = input.parse::<u16>().unwrap_err();
        assert_eq!(kind.message(), e.to_string());
    }
}

#[test]
fn decimal_notation() {
    for n in [0usize, 1, 9, 10, 42, 100, 1234567, usize::MAX] {
        let mut s = String::from("n=");
        push_decimal(&mut s, n);
        assert_eq!(s, format!("n={}", n));
    }
}
