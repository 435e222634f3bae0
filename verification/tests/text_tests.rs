use aurelay_engine::text::{
    chars_of, contains, decimal_text, find_char, join, lossy_text, parse_u16, push_decimal,
    same_text, split_text, starts_with, text_of, Separator,
};

fn owned(parts: &[&str]) -> Vec<String> {
    parts.iter().map(|p| p.to_string()).collect()
}

#[test]
fn chars_and_text_go_both_ways() {
    let sample = "AuRelay ✓ 42";
    let chars = chars_of(sample);
    assert_eq!(chars, sample.chars().collect::<Vec<char>>());
    assert_eq!(text_of(&chars), sample);
    assert_eq!(text_of(&[]), "");
    assert_eq!(chars_of(""), Vec::<char>::new());
}

#[test]
fn same_text_compares_characters() {
    assert!(same_text("tcp", "tcp"));
    assert!(same_text("", ""));
    assert!(!same_text("tcp", "tcp_only"));
    assert!(!same_text("tcp", "TCP"));
    assert!(!same_text("abc", "abd"));
    assert!(same_text("héllo", "héllo"));
}

#[test]
fn starts_with_matches_a_prefix_only() {
    assert!(starts_with("AURELAY_RESPONSE;5000;tv", "AURELAY_RESPONSE"));
    assert!(starts_with("AURELAY_RESPONSE", "AURELAY_RESPONSE"));
    assert!(starts_with("anything", ""));
    assert!(!starts_with("AURELAY", "AURELAY_RESPONSE"));
    assert!(!starts_with(" AURELAY_RESPONSE", "AURELAY_RESPONSE"));
    assert!(!starts_with("", "a"));
}

#[test]
fn contains_finds_a_pattern_anywhere() {
    assert!(contains("alsa_output.pci.monitor", ".monitor"));
    assert!(contains("monitor", "monitor"));
    assert!(contains("abc", ""));
    assert!(contains("", ""));
    assert!(!contains("", "a"));
    assert!(!contains("abc", "abcd"));
    assert!(!contains("ababab", "abb"));
    assert!(contains("aab", "ab"));
    assert!(contains("größe", "öß"));
}

#[test]
fn contains_agrees_with_std() {
    let texts = ["", "a", "ab", "aab", "abab", "monitor of x", "x.monitor", "ünï"];
    let patterns = ["", "a", "b", "ab", "ba", "abb", "monitor", ".monitor", "ï"];
    for text in texts.iter() {
        for pattern in patterns.iter() {
            assert_eq!(contains(text, pattern), text.contains(pattern));
            assert_eq!(starts_with(text, pattern), text.starts_with(pattern));
        }
    }
}

#[test]
fn split_cuts_at_every_separator() {
    let semicolon = Separator::Char(';');
    assert_eq!(split_text("a;b;c", semicolon), owned(&["a", "b", "c"]));
    assert_eq!(split_text("abc", semicolon), owned(&["abc"]));
    assert_eq!(split_text("", semicolon), owned(&[""]));
    assert_eq!(split_text(";", semicolon), owned(&["", ""]));
    assert_eq!(split_text("a;;b;", semicolon), owned(&["a", "", "b", ""]));
    assert_eq!(split_text(";a", semicolon), owned(&["", "a"]));
}

#[test]
fn split_agrees_with_std() {
    let texts = ["", ".", "1.2.3.4", "..", "192.168.1.50", "a.b.", ".a.b", "no dots", "ä.ö"];
    for text in texts.iter() {
        let expected: Vec<String> = text.split('.').map(|p| p.to_string()).collect();
        assert_eq!(split_text(text, Separator::Char('.')), expected);
    }
}

#[test]
fn split_at_what_is_neither_letter_nor_number() {
    let parts = split_text("USB-Audio (rev 2)", Separator::NonAlphanumeric);
    assert_eq!(parts, owned(&["USB", "Audio", "", "rev", "2", ""]));
    let expected: Vec<String> =
        "Größe_9:x".split(|c: char| !c.is_alphanumeric()).map(|p| p.to_string()).collect();
    assert_eq!(split_text("Größe_9:x", Separator::NonAlphanumeric), expected);
    assert!(Separator::NonAlphanumeric.cuts_at(' '));
    assert!(Separator::NonAlphanumeric.cuts_at('-'));
    assert!(!Separator::NonAlphanumeric.cuts_at('a'));
    assert!(!Separator::NonAlphanumeric.cuts_at('7'));
    assert!(!Separator::NonAlphanumeric.cuts_at('ß'));
    assert!(Separator::Char(':').cuts_at(':'));
    assert!(!Separator::Char(':').cuts_at(';'));
}

#[test]
fn find_char_gives_the_first_position() {
    assert_eq!(find_char("host:5000", ':'), Some(4));
    assert_eq!(find_char("a:b:c", ':'), Some(1));
    assert_eq!(find_char(":x", ':'), Some(0));
    assert_eq!(find_char("host", ':'), None);
    assert_eq!(find_char("", ':'), None);
    assert_eq!(find_char("äö:x", ':'), Some(2));
}

#[test]
fn decimal_text_writes_numbers() {
    assert_eq!(decimal_text(0), "0");
    assert_eq!(decimal_text(7), "7");
    assert_eq!(decimal_text(10), "10");
    assert_eq!(decimal_text(5002), "5002");
    assert_eq!(decimal_text(65535), "65535");
    assert_eq!(decimal_text(u64::MAX), "18446744073709551615");
    for n in [1u64, 9, 11, 99, 100, 101, 1399, 1400, 44100, 1_000_000_007] {
        assert_eq!(decimal_text(n), n.to_string());
    }
}

#[test]
fn push_decimal_appends() {
    let mut text = String::from("Device ");
    push_decimal(&mut text, 12);
    assert_eq!(text, "Device 12");
    push_decimal(&mut text, 0);
    assert_eq!(text, "Device 120");
}

#[test]
fn parse_u16_reads_port_numbers() {
    assert_eq!(parse_u16("5000"), Some(5000));
    assert_eq!(parse_u16("0"), Some(0));
    assert_eq!(parse_u16("65535"), Some(65535));
    assert_eq!(parse_u16("+80"), Some(80));
    assert_eq!(parse_u16("00080"), Some(80));
    assert_eq!(parse_u16("0000000000000000000000065535"), Some(65535));
}

#[test]
fn parse_u16_rejects_what_is_no_port_number() {
    assert_eq!(parse_u16(""), None);
    assert_eq!(parse_u16("+"), None);
    assert_eq!(parse_u16("-1"), None);
    assert_eq!(parse_u16("-0"), None);
    assert_eq!(parse_u16("65536"), None);
    assert_eq!(parse_u16("99999999999999999999999"), None);
    assert_eq!(parse_u16("12a"), None);
    assert_eq!(parse_u16("a12"), None);
    assert_eq!(parse_u16(" 80"), None);
    assert_eq!(parse_u16("80 "), None);
    assert_eq!(parse_u16("++80"), None);
    assert_eq!(parse_u16("8+0"), None);
    assert_eq!(parse_u16("5_000"), None);
    assert_eq!(parse_u16("٣"), None);
}

#[test]
fn parse_u16_agrees_with_std() {
    let texts = [
        "", "0", "1", "+1", "-1", "+", "-", "65535", "65536", "655350", "070000", "0x10", "1e3",
        "12 ", "+0", "+65535", "+65536", "4294967296", "००",
    ];
    for text in texts.iter() {
        assert_eq!(parse_u16(text), text.parse::<u16>().ok());
    }
}

#[test]
fn join_puts_the_separator_between() {
    assert_eq!(join(&owned(&[]), "\n"), "");
    assert_eq!(join(&owned(&["a"]), "\n"), "a");
    assert_eq!(join(&owned(&["a", "b", "c"]), "\n"), "a\nb\nc");
    assert_eq!(join(&owned(&["", ""]), ", "), ", ");
    assert_eq!(join(&owned(&["1", "2"]), ""), "12");
}

#[test]
fn lossy_text_decodes_and_replaces() {
    assert_eq!(lossy_text(b"AURELAY_ACCEPT"), "AURELAY_ACCEPT");
    assert_eq!(lossy_text("Wohnzimmer ✓".as_bytes()), "Wohnzimmer ✓");
    assert_eq!(lossy_text(&[]), "");
    assert_eq!(lossy_text(&[0xff, 0x41]), "\u{fffd}A");
    assert_eq!(lossy_text(&[0x41, 0xc3]), "A\u{fffd}");
}
