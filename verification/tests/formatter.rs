use multi_logging::fmt::color_console::ColorFormatter;
use multi_logging::fmt::default::{DefaultFormatter, LevelColor};
use multi_logging::fmt::parse::{
    default_pattern_tokens, standard_date_time_tokens, PatternCharacter, DEFAULT_PATTERN_STRING,
};
use multi_logging::util::dispatcher::set_global_format;
use multi_logging::util::errors::ParseErrorKind;
use multi_logging::util::level::Level;
use multi_logging::util::record::Record;

/// 2026-08-27 09:39:34.123456789 UTC, in nanoseconds since the Unix epoch.
const STAMP: u128 = 1_787_823_574_123_456_789;

fn record(level: Level) -> Record {
    Record::new(
        "app::net",
        Some("app::net::tcp"),
        Some("src/net/tcp.rs"),
        "some message.",
        "main",
        Some(42),
        STAMP,
        level,
        4321,
        "ThreadId(7)",
        String::new(),
        String::new(),
    )
}

fn bare_record() -> Record {
    Record::new("app", None, None, "bare", "main", None, STAMP, Level::Warn, 1, "ThreadId(1)", String::new(), String::new())
}

#[test]
fn default_pattern_renders_date_level_and_message() {
    let mut f = DefaultFormatter::with_default_pattern(STAMP);
    assert!(f.can_format());
    assert_eq!(f.format(&record(Level::Info), 0), "[2026-08-27 09:39:34] [INFO]: some message.");
}

#[test]
fn default_pattern_string_parses_to_default_tokens() {
    let p = DefaultFormatter::preprocess(DEFAULT_PATTERN_STRING).unwrap();
    assert_eq!(p, default_pattern_tokens());
    let mut f = DefaultFormatter::new(DEFAULT_PATTERN_STRING, STAMP).unwrap();
    let mut g = DefaultFormatter::with_default_pattern(STAMP);
    let r = record(Level::Error);
    assert_eq!(f.format(&r, 0), g.format(&r, 0));
}

#[test]
fn plus_expands_to_default_pattern() {
    let p = DefaultFormatter::preprocess("%+").unwrap();
    assert_eq!(p, default_pattern_tokens());
    let mut f = DefaultFormatter::new("<%+>", STAMP).unwrap();
    assert_eq!(f.format(&record(Level::Debug), 0), "<[2026-08-27 09:39:34] [DEBUG]: some message.>");
}

#[test]
fn sub_second_fields() {
    let mut f = DefaultFormatter::new("%e %f %F", STAMP).unwrap();
    assert_eq!(f.format(&record(Level::Info), 0), "123 456 789");
}

#[test]
fn twelve_hour_clock_and_short_year() {
    let mut f = DefaultFormatter::new("%y %I %p %l", STAMP).unwrap();
    assert_eq!(f.format(&record(Level::Trace), 0), "26 09 AM trace");
    // 21:39:34 in a UTC offset of +12:00.
    assert_eq!(f.format(&record(Level::Trace), 12 * 3600), "26 09 PM trace");
}

#[test]
fn offsets_shift_the_clock() {
    let mut f = DefaultFormatter::new("%H:%M %z", STAMP).unwrap();
    assert_eq!(f.format(&record(Level::Info), 0), "09:39 +00:00:00");
    assert_eq!(f.format(&record(Level::Info), -(5 * 3600 + 30 * 60)), "04:09 -05:30:00");
    assert_eq!(f.format(&record(Level::Info), 3600 + 61), "10:40 +01:01:01");
}

#[test]
fn unix_timestamp_and_record_fields() {
    let mut f = DefaultFormatter::new("%E|%n|%t|%P|%s|%g|%#|%@|%%|%v", STAMP).unwrap();
    assert_eq!(
        f.format(&record(Level::Info), 0),
        "1787823574|main|ThreadId(7)|4321|src/net/tcp.rs|tcp.rs|42|app::net::tcp|%|some message."
    );
}

#[test]
fn missing_source_information_renders_as_question_mark() {
    let mut f = DefaultFormatter::new("%s %# %@ %L", STAMP).unwrap();
    assert_eq!(f.format(&bare_record(), 0), "? ? ? WARN");
}

#[test]
fn elapsed_time_since_the_previous_record() {
    let mut f = DefaultFormatter::new("%i %u", STAMP - 1_500_000).unwrap();
    let r = record(Level::Info);
    assert_eq!(f.format(&r, 0), "001500 001500000");
    // The formatter remembers the time of the record it rendered last.
    assert_eq!(f.format(&r, 0), "000000 000000000");
    // An older record counts as no time elapsed.
    let mut g = DefaultFormatter::new("%u", STAMP + 10).unwrap();
    assert_eq!(g.format(&r, 0), "000000000");
}

#[test]
fn literal_text_passes_through() {
    let mut f = DefaultFormatter::new("plain text, no marks", STAMP).unwrap();
    assert_eq!(f.format(&record(Level::Info), 0), "plain text, no marks");
    // A '%' at the very end names no pattern character.
    let e = DefaultFormatter::new("100%", STAMP).err().unwrap();
    assert_eq!(e.kind(), ParseErrorKind::PatternNotFound);
    assert_eq!(e.offset(), 4);
}

#[test]
fn unknown_pattern_character_is_an_error() {
    let e = DefaultFormatter::new("ab%q", STAMP).err().unwrap();
    assert_eq!(e.kind(), ParseErrorKind::UnexpectedPattern('q'));
    assert_eq!(e.offset(), 3);
    let e = DefaultFormatter::preprocess("%\u{4e2d}").err().unwrap();
    assert_eq!(e.kind(), ParseErrorKind::UnexpectedPattern('\u{4e2d}'));
    assert_eq!(e.offset(), 1);
}

#[test]
fn preprocess_gives_literals_and_pattern_characters() {
    let p = DefaultFormatter::preprocess("a%%%v").unwrap();
    assert_eq!(
        p,
        vec![PatternCharacter::Literal('a'), PatternCharacter::Literal('%'), PatternCharacter::Message]
    );
}

#[test]
fn set_format_replaces_the_pattern_or_keeps_it() {
    let mut f = DefaultFormatter::with_default_pattern(STAMP);
    assert!(f.set_format("%q").is_err());
    assert_eq!(f.format(&record(Level::Info), 0), "[2026-08-27 09:39:34] [INFO]: some message.");
    assert!(f.set_format("%L-%v").is_ok());
    assert_eq!(f.format(&record(Level::Info), 0), "INFO-some message.");
}

#[test]
fn global_format_is_set_through_the_formatter() {
    let mut f = DefaultFormatter::with_default_pattern(STAMP);
    assert_eq!(set_global_format(&mut f, "%x").err().unwrap().offset(), 1);
    assert!(set_global_format(&mut f, "[%Y-%m-%d %H:%M:%S] [%L] %v").is_ok());
    assert_eq!(f.format(&record(Level::Warn), 0), "[2026-08-27 09:39:34] [WARN] some message.");
}

#[test]
fn patterns_the_formatter_cannot_render() {
    for p in ["%!", "%&", "x %! y"] {
        let f = DefaultFormatter::new(p, STAMP).unwrap();
        assert!(!f.can_format());
    }
    for p in ["%c", "%+", "%g"] {
        assert!(DefaultFormatter::new(p, STAMP).unwrap().can_format());
    }
    assert!(DefaultFormatter::new("%^%v%$", STAMP).unwrap().can_format());
}

#[test]
fn color_range_is_dropped_without_colours() {
    let mut f = DefaultFormatter::new("%^%L%$ %v", STAMP).unwrap();
    assert_eq!(f.format(&record(Level::Info), 0), "INFO some message.");
}

#[test]
fn colour_formatter_marks_the_colour_range() {
    let mut f = ColorFormatter::new("%^%L%$ %v", STAMP).unwrap();
    assert_eq!(f.format(&record(Level::Info), 0), "\x1b[32mINFO\x1b[0m some message.");
    assert_eq!(f.format(&record(Level::Error), 0), "\x1b[31;1mERROR\x1b[0m some message.");
    assert_eq!(f.format(&record(Level::Warn), 0), "\x1b[33;1mWARN\x1b[0m some message.");
    assert_eq!(f.format(&record(Level::Debug), 0), "\x1b[36mDEBUG\x1b[0m some message.");
    assert_eq!(f.format(&record(Level::Trace), 0), "\x1b[37mTRACE\x1b[0m some message.");
}

#[test]
fn colours_can_be_changed_per_level() {
    let mut f = ColorFormatter::new("%^%L%$", STAMP).unwrap();
    assert!(f.set_color(Level::Info, "\x1b[35;4m").is_ok());
    assert_eq!(f.format(&record(Level::Info), 0), "\x1b[35;4mINFO\x1b[0m");
    assert_eq!(f.format(&record(Level::Error), 0), "\x1b[31;1mERROR\x1b[0m");
    let e = f.set_color(Level::Info, "red").err().unwrap();
    assert_eq!(e.kind(), ParseErrorKind::NotANSI);
    assert_eq!(f.format(&record(Level::Info), 0), "\x1b[35;4mINFO\x1b[0m");
}

#[test]
fn colour_formatter_and_plain_formatter_convert() {
    let c = ColorFormatter::with_default_pattern(STAMP);
    let mut d: DefaultFormatter = c.into();
    assert_eq!(d.format(&record(Level::Info), 0), "[2026-08-27 09:39:34] [INFO]: some message.");
    let mut c2: ColorFormatter = d.into();
    assert!(c2.set_format("%^%v%$").is_ok());
    assert_eq!(c2.format(&record(Level::Info), 0), "\x1b[32msome message.\x1b[0m");
    let mut d2 = c2.into_inner();
    assert_eq!(d2.format(&record(Level::Info), 0), "some message.");
}

#[test]
fn level_colours_read_back_what_was_set() {
    let mut c = LevelColor::new();
    assert_eq!(c.get_color(Level::Error).codes().clone(), vec![31u8, 1]);
    assert_eq!(c.get_color(Level::Warn).codes().clone(), vec![33u8, 1]);
    assert_eq!(c.get_color(Level::Info).codes().clone(), vec![32u8]);
    assert_eq!(c.get_color(Level::Debug).codes().clone(), vec![36u8]);
    assert_eq!(c.get_color(Level::Trace).codes().clone(), vec![37u8]);
    assert!(c.set_color(Level::Debug, "\x1b[34;1m").is_ok());
    assert_eq!(c.get_color(Level::Debug).codes().clone(), vec![34u8, 1]);
    assert_eq!(c.get_color(Level::Info).codes().clone(), vec![32u8]);
    assert!(c.set_color(Level::Debug, "\x1b[34;999m").is_err());
    assert_eq!(c.get_color(Level::Debug).codes().clone(), vec![34u8, 1]);
}

#[test]
fn twelve_hour_clock_at_midnight_and_noon() {
    let midnight: u128 = 1_787_788_800_000_000_000; // 2026-08-27 00:00:00 UTC
    let r = Record::new("t", None, None, "m", "l", None, midnight, Level::Info, 1, "x", String::new(), String::new());
    let mut f = DefaultFormatter::new("%I %p", midnight).unwrap();
    assert_eq!(f.format(&r, 0), "12 AM");
    assert_eq!(f.format(&r, 12 * 3600), "12 PM");
    assert_eq!(f.format(&r, 13 * 3600), "01 PM");
}

#[test]
fn standard_date_time_expands() {
    let p = DefaultFormatter::preprocess("%c").unwrap();
    assert_eq!(p, standard_date_time_tokens());
    assert!(!p.contains(&PatternCharacter::StandardDateTime));
    let mut f = DefaultFormatter::new("<%c>", STAMP).unwrap();
    assert_eq!(f.format(&record(Level::Info), 0), "<2026-08-27 09:39:34>");
}

#[test]
fn function_name_is_not_implemented() {
    let f = DefaultFormatter::new("%!", STAMP).unwrap();
    assert_eq!(DefaultFormatter::preprocess("%!").unwrap(), vec![PatternCharacter::FuncName]);
    assert!(!f.can_format());
}

#[test]
fn short_file_name_is_the_last_path_part() {
    let mut f = DefaultFormatter::new("%g", STAMP).unwrap();
    for (path, short) in [("a/b/c.rs", "c.rs"), ("c.rs", "c.rs"), ("a\\b.rs", "b.rs"), ("dir/", "")] {
        let r = Record::new("t", None, Some(path), "m", "l", None, STAMP, Level::Info, 1, "x", String::new(), String::new());
        assert_eq!(f.format(&r, 0), short);
    }
    assert_eq!(f.format(&bare_record(), 0), "?");
}

#[test]
fn parsing_joined_patterns_joins_the_parses() {
    let pairs = [("[%L]", " %v"), ("%+", "%c"), ("a%%", "%%b"), ("", "%Y")];
    for (a, b) in pairs {
        let mut x = DefaultFormatter::preprocess(a).unwrap();
        let y = DefaultFormatter::preprocess(b).unwrap();
        x.extend(y);
        assert_eq!(DefaultFormatter::preprocess(&format!("{a}{b}")).unwrap(), x);
    }
    // "a%" alone does not parse, though "a%" + "%b" does.
    assert!(DefaultFormatter::preprocess("a%").is_err());
}
