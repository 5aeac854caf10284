use arnak::escape::escape_xml;
use arnak::text::{i64_to_text, parse_u64, parse_unsigned, u64_to_text, IntParseError};

#[test]
fn parse_unsigned_reads_digits_and_plus() {
    assert_eq!(parse_unsigned("42", u64::MAX), Ok(42));
    assert_eq!(parse_unsigned("+7", u64::MAX), Ok(7));
    assert_eq!(parse_unsigned("0", u64::MAX), Ok(0));
    assert_eq!(parse_unsigned("18446744073709551615", u64::MAX), Ok(u64::MAX));
}

#[test]
fn parse_unsigned_errors_match_std() {
    assert_eq!(parse_unsigned("", u64::MAX), Err(IntParseError::Empty));
    assert_eq!(parse_unsigned("+", u64::MAX), Err(IntParseError::InvalidDigit));
    assert_eq!(parse_unsigned("12a", u64::MAX), Err(IntParseError::InvalidDigit));
    assert_eq!(parse_unsigned("-1", u64::MAX), Err(IntParseError::InvalidDigit));
    assert_eq!(parse_unsigned("18446744073709551616", u64::MAX), Err(IntParseError::PosOverflow));
    assert_eq!(parse_unsigned("4294967296", 4294967295), Err(IntParseError::PosOverflow));
    // overflow is met before the letter at the end
    assert_eq!(parse_unsigned("99999999999999999999x", u64::MAX), Err(IntParseError::PosOverflow));
    for (text, max) in [("", u64::MAX), ("x", u64::MAX), ("300", 255u64), ("-", u64::MAX)] {
        let ours = parse_unsigned(text, max);
        let std_kind = if max == 255 { text.parse::<u8>().map(u64::from).map_err(|e| e.to_string()) } else { text.parse::<u64>().map_err(|e| e.to_string()) };
        assert_eq!(ours.map_err(|e| e.message()), std_kind);
    }
}

#[test]
fn parse_u64_round_trips_decimal_text() {
    for n in [0u64, 1, 9, 10, 99, 12345, u64::MAX] {
        assert_eq!(u64_to_text(n), n.to_string());
        assert_eq!(parse_u64(&u64_to_text(n)), Some(n));
    }
    assert_eq!(parse_u64("abc"), None);
}

#[test]
fn signed_text_matches_to_string() {
    for n in [0i64, -1, 42, i64::MIN, i64::MAX] {
        assert_eq!(i64_to_text(n), n.to_string());
    }
}

#[test]
fn escape_xml_replaces_ampersands_only() {
    assert_eq!(escape_xml("Salt & Pepper"), "Salt &amp; Pepper");
    assert_eq!(escape_xml("&&"), "&amp;&amp;");
    assert_eq!(escape_xml("no entity here"), "no entity here");
    assert_eq!(escape_xml(""), "");
    assert_eq!(escape_xml("<a>&lt;</a>"), "<a>&amp;lt;</a>");
}

#[test]
fn escaping_is_undone_by_replacing_amp() {
    for s in ["Salt & Pepper", "&amp;", "&&amp;&", "", "plain", "a&b&c"] {
        assert_eq!(escape_xml(s).replace("&amp;", "&"), s);
    }
    assert_eq!(escape_xml("&amp;"), "&amp;amp;");
}
