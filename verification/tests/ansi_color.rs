use multi_logging::fmt::ansi_color::ANSI;
use multi_logging::util::errors::ParseErrorKind;

#[test]
fn test() {
    assert_eq!(
        "\x1b[1;4;5;7;38;255;128m".parse::<ANSI>().unwrap(),
        vec![1, 4, 5, 7, 38, 255, 128].into()
    );
    assert!("".parse::<ANSI>().is_err());
    assert!("\x1b[1111;1m".parse::<ANSI>().is_err());
    assert!("\x1b[1;256m".parse::<ANSI>().is_err())
}

#[test]
fn parse_gives_codes_in_order() {
    let a = ANSI::parse("\x1b[31;1m").unwrap();
    assert_eq!(a.codes().clone(), vec![31u8, 1]);
}

#[test]
fn parse_accepts_a_sequence_without_final_m() {
    assert_eq!(ANSI::parse("\x1b[32").unwrap().codes().clone(), vec![32u8]);
}

#[test]
fn parse_error_offsets() {
    let e = ANSI::parse("x[1m").err().unwrap();
    assert_eq!(e.kind(), ParseErrorKind::NotANSI);
    assert_eq!(e.offset(), 0);
    // A number above 255 is refused at its third digit.
    let e = ANSI::parse("\x1b[1;256m").err().unwrap();
    assert_eq!(e.offset(), 6);
    // A separator without a number is refused at the separator.
    let e = ANSI::parse("\x1b[1;m").err().unwrap();
    assert_eq!(e.offset(), 3);
    // Nothing may follow the final `m`.
    let e = ANSI::parse("\x1b[1mx").err().unwrap();
    assert_eq!(e.offset(), 3);
    // An unexpected character.
    let e = ANSI::parse("\x1b[1x").err().unwrap();
    assert_eq!(e.offset(), 3);
}

#[test]
fn as_string_renders_the_codes() {
    let a = ANSI::from_codes(vec![1, 4, 38, 255]);
    assert_eq!(a.as_string(), "\x1b[1;4;38;255m");
    assert_eq!(ANSI::from_codes(vec![]).as_string(), "");
}

#[test]
fn rendering_then_parsing_gives_the_codes_back() {
    for codes in [vec![0u8], vec![31, 1], vec![1, 4, 5, 7, 38, 255, 128], vec![9, 10, 99, 100, 200]] {
        let a = ANSI::from_codes(codes.clone());
        let b = ANSI::parse(&a.as_string()).unwrap();
        assert_eq!(b.codes().clone(), codes);
    }
}

#[test]
fn only_ascii_digits_are_digits() {
    // U+0131 shares its low byte with '1' but is no digit.
    let e = ANSI::parse("\x1b[\u{131}m").err().unwrap();
    assert_eq!(e.kind(), ParseErrorKind::NotANSI);
    assert_eq!(e.offset(), 1);
    let e = ANSI::parse("\x1b[3\u{130}m").err().unwrap();
    assert_eq!(e.offset(), 3);
    assert!(ANSI::parse("\x1b[\u{661}m").is_err());
}
