use powerpack::text::{parse_u32, same_bytes, same_text};

#[test]
fn parse_u32_reads_decimal_numbers() {
    assert_eq!(parse_u32("0"), Some(0));
    assert_eq!(parse_u32("7"), Some(7));
    assert_eq!(parse_u32("2096"), Some(2096));
    assert_eq!(parse_u32("+12"), Some(12));
    assert_eq!(parse_u32("007"), Some(7));
    assert_eq!(parse_u32("4294967295"), Some(u32::MAX));
    assert_eq!(parse_u32("+4294967295"), Some(u32::MAX));
    assert_eq!(parse_u32("0000000000004294967295"), Some(u32::MAX));
}

#[test]
fn parse_u32_refuses_everything_else() {
    for text in [
        "", "+", "-", "-1", "-0", "++1", "+-1", "1+", " 1", "1 ", "1_000", "0x10", "1.0", "1e3",
        "4294967296", "4294967300", "42949672950", "99999999999999999999999", "١٢", "1²", "é",
        "12a", "a12", "１２",
    ] {
        assert_eq!(parse_u32(text), None, "{:?}", text);
    }
}

#[test]
fn parse_u32_agrees_with_the_standard_library() {
    for text in [
        "0", "1", "+1", "-1", "", "+", "10", "4294967295", "4294967296", "429496729", "042",
        "4294967294", "4294967290", "4294967289", "5000000000", "+0", "00", "3 ", "٣",
    ] {
        assert_eq!(parse_u32(text), text.parse::<u32>().ok(), "{:?}", text);
    }
    let mut n: u64 = 4_294_967_200;
    while n < 4_294_967_400 {
        let text = n.to_string();
        assert_eq!(parse_u32(&text), text.parse::<u32>().ok(), "{:?}", text);
        n += 1;
    }
}

#[test]
fn same_text_compares_characters() {
    assert!(same_text("", ""));
    assert!(same_text("alfred", "alfred"));
    assert!(same_text("⌘C", "⌘C"));
    assert!(!same_text("alfred", "Alfred"));
    assert!(!same_text("alfred", "alfre"));
    assert!(!same_text("", " "));
    assert!(!same_text("é", "e\u{301}"));
}

#[test]
fn same_bytes_compares_bytes() {
    assert!(same_bytes(b"", b""));
    assert!(same_bytes(b"abc", b"abc"));
    assert!(!same_bytes(b"abc", b"abd"));
    assert!(!same_bytes(b"abc", b"ab"));
    assert!(!same_bytes(b"", b"\0"));
}
