use jiracli::input::parse_id;

#[test]
fn parse_id_reads_decimal_ids() {
    assert_eq!(parse_id("1"), Some(1));
    assert_eq!(parse_id("007"), Some(7));
    assert_eq!(parse_id("+12"), Some(12));
    assert_eq!(parse_id("4294967295"), Some(u32::MAX));
}

#[test]
fn parse_id_rejects_everything_else() {
    assert_eq!(parse_id(""), None);
    assert_eq!(parse_id("+"), None);
    assert_eq!(parse_id("-1"), None);
    assert_eq!(parse_id("abc"), None);
    assert_eq!(parse_id("12a"), None);
    assert_eq!(parse_id(" 1"), None);
    assert_eq!(parse_id("1\n"), None);
    assert_eq!(parse_id("4294967296"), None);
    assert_eq!(parse_id("99999999999x"), None);
}

#[test]
fn parse_id_agrees_with_std() {
    for s in ["0", "+0", "10", "00000000000000000001", "4294967295", "4294967296", "+-1", "1_000", "٣"] {
        assert_eq!(parse_id(s), s.parse::<u32>().ok(), "input {:?}", s);
    }
}
