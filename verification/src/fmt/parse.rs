//! Pattern strings: the characters that may follow `%` and what they stand for.

use crate::util::errors::{ParseError, ParseErrorKind};
use vstd::prelude::*;

verus! {

/// What a single character after `%` stands for.
///
/// | Pattern | Meaning |
/// |---|---|
/// | `%v` | the message text |
/// | `%n` | logger name |
/// | `%l` | level, lower case |
/// | `%L` | level, upper case |
/// | `%t` | thread ID |
/// | `%P` | process ID |
/// | `%@` | source location |
/// | `%s` | source file |
/// | `%g` | short source file: what follows the last `/` or `\` |
/// | `%#` | source line |
/// | `%!` | source function (not implemented) |
/// | `%Y` | four-digit year |
/// | `%y` | two-digit year |
/// | `%m` | month |
/// | `%d` | day |
/// | `%H` | hour, 24-hour clock |
/// | `%I` | hour, 12-hour clock (`01` to `12`) |
/// | `%M` | minute |
/// | `%S` | second |
/// | `%e` | millisecond |
/// | `%f` | microsecond |
/// | `%F` | nanosecond |
/// | `%p` | AM/PM |
/// | `%z` | UTC offset |
/// | `%E` | Unix timestamp |
/// | `%c` | standard date and time, `%Y-%m-%d %H:%M:%S` |
/// | `%i` | microseconds since the previous record |
/// | `%u` | nanoseconds since the previous record |
/// | `%^` / `%$` | start / end of the colour range |
/// | `%%` | a literal `%` |
/// | `%&` | all mapped diagnostic context (not implemented) |
/// | `%+` | the default pattern |
#[derive(Debug, Clone, Copy, PartialEq, Eq, Structural)]
pub enum PatternCharacter {
    /// No meaning; a pattern character that maps here is an error.
    Void,
    Message,
    LoggerName,
    LevelLower,
    LevelUpper,
    ThreadId,
    ProcessId,
    SourceLocation,
    SourceFile,
    SourceShortFile,
    Line,
    FuncName,
    Year4,
    Year2,
    Month,
    Day,
    Hour24,
    Hour12,
    Minute,
    Second,
    Millisecond,
    Microsecond,
    Nanosecond,
    AMPM,
    TimezoneOffset,
    UnixTimestamp,
    StandardDateTime,
    ElapsedMicroseconds,
    ElapsedNanoseconds,
    StartColorRange,
    StopColorRange,
    Literal(char),
    AllMappedDiagnosticContext,
    DefaultFormat,
}

/// What the character after a `%` stands for; `Void` for a character that stands for nothing.
pub open spec fn pattern_of(c: char) -> PatternCharacter {
    if c == 'v' { PatternCharacter::Message }
    else if c == 'n' { PatternCharacter::LoggerName }
    else if c == 'l' { PatternCharacter::LevelLower }
    else if c == 'L' { PatternCharacter::LevelUpper }
    else if c == 't' { PatternCharacter::ThreadId }
    else if c == 'P' { PatternCharacter::ProcessId }
    else if c == '@' { PatternCharacter::SourceLocation }
    else if c == 's' { PatternCharacter::SourceFile }
    else if c == 'g' { PatternCharacter::SourceShortFile }
    else if c == '#' { PatternCharacter::Line }
    else if c == '!' { PatternCharacter::FuncName }
    else if c == 'Y' { PatternCharacter::Year4 }
    else if c == 'y' { PatternCharacter::Year2 }
    else if c == 'm' { PatternCharacter::Month }
    else if c == 'd' { PatternCharacter::Day }
    else if c == 'H' { PatternCharacter::Hour24 }
    else if c == 'I' { PatternCharacter::Hour12 }
    else if c == 'M' { PatternCharacter::Minute }
    else if c == 'S' { PatternCharacter::Second }
    else if c == 'e' { PatternCharacter::Millisecond }
    else if c == 'f' { PatternCharacter::Microsecond }
    else if c == 'F' { PatternCharacter::Nanosecond }
    else if c == 'p' { PatternCharacter::AMPM }
    else if c == 'z' { PatternCharacter::TimezoneOffset }
    else if c == 'E' { PatternCharacter::UnixTimestamp }
    else if c == 'c' { PatternCharacter::StandardDateTime }
    else if c == 'i' { PatternCharacter::ElapsedMicroseconds }
    else if c == 'u' { PatternCharacter::ElapsedNanoseconds }
    else if c == '^' { PatternCharacter::StartColorRange }
    else if c == '$' { PatternCharacter::StopColorRange }
    else if c == '%' { PatternCharacter::Literal('%') }
    else if c == '&' { PatternCharacter::AllMappedDiagnosticContext }
    else if c == '+' { PatternCharacter::DefaultFormat }
    else { PatternCharacter::Void }
}

/// Looks up the character after a `%`.
pub fn pattern_char(c: char) -> (p: PatternCharacter)
    ensures
        p == pattern_of(c),
{
    match c {
        'v' => PatternCharacter::Message,
        'n' => PatternCharacter::LoggerName,
        'l' => PatternCharacter::LevelLower,
        'L' => PatternCharacter::LevelUpper,
        't' => PatternCharacter::ThreadId,
        'P' => PatternCharacter::ProcessId,
        '@' => PatternCharacter::SourceLocation,
        's' => PatternCharacter::SourceFile,
        'g' => PatternCharacter::SourceShortFile,
        '#' => PatternCharacter::Line,
        '!' => PatternCharacter::FuncName,
        'Y' => PatternCharacter::Year4,
        'y' => PatternCharacter::Year2,
        'm' => PatternCharacter::Month,
        'd' => PatternCharacter::Day,
        'H' => PatternCharacter::Hour24,
        'I' => PatternCharacter::Hour12,
        'M' => PatternCharacter::Minute,
        'S' => PatternCharacter::Second,
        'e' => PatternCharacter::Millisecond,
        'f' => PatternCharacter::Microsecond,
        'F' => PatternCharacter::Nanosecond,
        'p' => PatternCharacter::AMPM,
        'z' => PatternCharacter::TimezoneOffset,
        'E' => PatternCharacter::UnixTimestamp,
        'c' => PatternCharacter::StandardDateTime,
        'i' => PatternCharacter::ElapsedMicroseconds,
        'u' => PatternCharacter::ElapsedNanoseconds,
        '^' => PatternCharacter::StartColorRange,
        '$' => PatternCharacter::StopColorRange,
        '%' => PatternCharacter::Literal('%'),
        '&' => PatternCharacter::AllMappedDiagnosticContext,
        '+' => PatternCharacter::DefaultFormat,
        _ => PatternCharacter::Void,
    }
}

/// The default pattern string.
///
/// It renders as `[2026-08-27 09:39:34] [INFO]: some message.`; `%+` stands for it.
pub const DEFAULT_PATTERN_STRING: &'static str = "[%Y-%m-%d %H:%M:%S] [%L]: %v";

/// The pattern that the default pattern string parses to.
pub open spec fn default_pattern() -> Seq<PatternCharacter> {
    seq![
        PatternCharacter::Literal('['),
        PatternCharacter::Year4,
        PatternCharacter::Literal('-'),
        PatternCharacter::Month,
        PatternCharacter::Literal('-'),
        PatternCharacter::Day,
        PatternCharacter::Literal(' '),
        PatternCharacter::Hour24,
        PatternCharacter::Literal(':'),
        PatternCharacter::Minute,
        PatternCharacter::Literal(':'),
        PatternCharacter::Second,
        PatternCharacter::Literal(']'),
        PatternCharacter::Literal(' '),
        PatternCharacter::Literal('['),
        PatternCharacter::LevelUpper,
        PatternCharacter::Literal(']'),
        PatternCharacter::Literal(':'),
        PatternCharacter::Literal(' '),
        PatternCharacter::Message,
    ]
}

/// The standard date and time, `%Y-%m-%d %H:%M:%S`, that `%c` stands for.
pub open spec fn standard_date_time() -> Seq<PatternCharacter> {
    seq![
        PatternCharacter::Year4,
        PatternCharacter::Literal('-'),
        PatternCharacter::Month,
        PatternCharacter::Literal('-'),
        PatternCharacter::Day,
        PatternCharacter::Literal(' '),
        PatternCharacter::Hour24,
        PatternCharacter::Literal(':'),
        PatternCharacter::Minute,
        PatternCharacter::Literal(':'),
        PatternCharacter::Second,
    ]
}

/// Parses a pattern string from position `i` on. A `%` followed by a character stands for what
/// that character names (`%+` for the whole default pattern, `%c` for the standard date and
/// time); a character that names nothing is an error at its offset, and so is a `%` that ends
/// the string (at the offset where the pattern character was expected). Every other character
/// is literal.
pub open spec fn parse_pattern_from(s: Seq<char>, i: int, acc: Seq<PatternCharacter>) -> Result<
    Seq<PatternCharacter>,
    ParseError,
>
    decreases s.len() - i,
{
    if i < 0 || i >= s.len() {
        Ok(acc)
    } else if s[i] == '%' {
        if i + 1 >= s.len() {
            Err(ParseError { kind: ParseErrorKind::PatternNotFound, offset: (i + 1) as usize })
        } else {
            let p = pattern_of(s[i + 1]);
            if p == PatternCharacter::Void {
                Err(ParseError { kind: ParseErrorKind::UnexpectedPattern(s[i + 1]), offset: (i + 1) as usize })
            } else if p == PatternCharacter::DefaultFormat {
                parse_pattern_from(s, i + 2, acc + default_pattern())
            } else if p == PatternCharacter::StandardDateTime {
                parse_pattern_from(s, i + 2, acc + standard_date_time())
            } else {
                parse_pattern_from(s, i + 2, acc.push(p))
            }
        }
    } else {
        parse_pattern_from(s, i + 1, acc.push(PatternCharacter::Literal(s[i])))
    }
}

/// The pattern that a pattern string parses to, or the error found in it.
pub open spec fn parse_pattern(s: Seq<char>) -> Result<Seq<PatternCharacter>, ParseError> {
    parse_pattern_from(s, 0, Seq::empty())
}

/// The tokens of the default pattern.
pub fn default_pattern_tokens() -> (v: Vec<PatternCharacter>)
    ensures
        v@ == default_pattern(),
{
    let v = vec![
        PatternCharacter::Literal('['),
        PatternCharacter::Year4,
        PatternCharacter::Literal('-'),
        PatternCharacter::Month,
        PatternCharacter::Literal('-'),
        PatternCharacter::Day,
        PatternCharacter::Literal(' '),
        PatternCharacter::Hour24,
        PatternCharacter::Literal(':'),
        PatternCharacter::Minute,
        PatternCharacter::Literal(':'),
        PatternCharacter::Second,
        PatternCharacter::Literal(']'),
        PatternCharacter::Literal(' '),
        PatternCharacter::Literal('['),
        PatternCharacter::LevelUpper,
        PatternCharacter::Literal(']'),
        PatternCharacter::Literal(':'),
        PatternCharacter::Literal(' '),
        PatternCharacter::Message,
    ];
    proof {
        assert(v@ =~= default_pattern());
    }
    v
}

/// The tokens of the standard date and time.
pub fn standard_date_time_tokens() -> (v: Vec<PatternCharacter>)
    ensures
        v@ == standard_date_time(),
{
    let v = vec![
        PatternCharacter::Year4,
        PatternCharacter::Literal('-'),
        PatternCharacter::Month,
        PatternCharacter::Literal('-'),
        PatternCharacter::Day,
        PatternCharacter::Literal(' '),
        PatternCharacter::Hour24,
        PatternCharacter::Literal(':'),
        PatternCharacter::Minute,
        PatternCharacter::Literal(':'),
        PatternCharacter::Second,
    ];
    proof {
        assert(v@ =~= standard_date_time());
    }
    v
}

/// The default pattern string parses to the default pattern, so `%+` stands for exactly what
/// the default pattern string says.
pub proof fn lemma_default_pattern_string()
    ensures
        parse_pattern(DEFAULT_PATTERN_STRING@) == Ok::<Seq<PatternCharacter>, ParseError>(
            default_pattern(),
        ),
{
    reveal_strlit("[%Y-%m-%d %H:%M:%S] [%L]: %v");
    let s = DEFAULT_PATTERN_STRING@;
    let d = default_pattern();
    assert(s.len() == 28);
    assert(s[0] == '[');
    assert(s[1] == '%');
    assert(s[2] == 'Y');
    assert(s[3] == '-');
    assert(s[4] == '%');
    assert(s[5] == 'm');
    assert(s[6] == '-');
    assert(s[7] == '%');
    assert(s[8] == 'd');
    assert(s[9] == ' ');
    assert(s[10] == '%');
    assert(s[11] == 'H');
    assert(s[12] == ':');
    assert(s[13] == '%');
    assert(s[14] == 'M');
    assert(s[15] == ':');
    assert(s[16] == '%');
    assert(s[17] == 'S');
    assert(s[18] == ']');
    assert(s[19] == ' ');
    assert(s[20] == '[');
    assert(s[21] == '%');
    assert(s[22] == 'L');
    assert(s[23] == ']');
    assert(s[24] == ':');
    assert(s[25] == ' ');
    assert(s[26] == '%');
    assert(s[27] == 'v');
    assert(d.take(20) =~= d);
    assert(d.take(20) =~= d.take(19).push(d[19]));
    assert(parse_pattern_from(s, 26, d.take(19)) == parse_pattern_from(s, 28, d.take(20)));
    assert(d.take(19) =~= d.take(18).push(d[18]));
    assert(parse_pattern_from(s, 25, d.take(18)) == parse_pattern_from(s, 26, d.take(19)));
    assert(d.take(18) =~= d.take(17).push(d[17]));
    assert(parse_pattern_from(s, 24, d.take(17)) == parse_pattern_from(s, 25, d.take(18)));
    assert(d.take(17) =~= d.take(16).push(d[16]));
    assert(parse_pattern_from(s, 23, d.take(16)) == parse_pattern_from(s, 24, d.take(17)));
    assert(d.take(16) =~= d.take(15).push(d[15]));
    assert(parse_pattern_from(s, 21, d.take(15)) == parse_pattern_from(s, 23, d.take(16)));
    assert(d.take(15) =~= d.take(14).push(d[14]));
    assert(parse_pattern_from(s, 20, d.take(14)) == parse_pattern_from(s, 21, d.take(15)));
    assert(d.take(14) =~= d.take(13).push(d[13]));
    assert(parse_pattern_from(s, 19, d.take(13)) == parse_pattern_from(s, 20, d.take(14)));
    assert(d.take(13) =~= d.take(12).push(d[12]));
    assert(parse_pattern_from(s, 18, d.take(12)) == parse_pattern_from(s, 19, d.take(13)));
    assert(d.take(12) =~= d.take(11).push(d[11]));
    assert(parse_pattern_from(s, 16, d.take(11)) == parse_pattern_from(s, 18, d.take(12)));
    assert(d.take(11) =~= d.take(10).push(d[10]));
    assert(parse_pattern_from(s, 15, d.take(10)) == parse_pattern_from(s, 16, d.take(11)));
    assert(d.take(10) =~= d.take(9).push(d[9]));
    assert(parse_pattern_from(s, 13, d.take(9)) == parse_pattern_from(s, 15, d.take(10)));
    assert(d.take(9) =~= d.take(8).push(d[8]));
    assert(parse_pattern_from(s, 12, d.take(8)) == parse_pattern_from(s, 13, d.take(9)));
    assert(d.take(8) =~= d.take(7).push(d[7]));
    assert(parse_pattern_from(s, 10, d.take(7)) == parse_pattern_from(s, 12, d.take(8)));
    assert(d.take(7) =~= d.take(6).push(d[6]));
    assert(parse_pattern_from(s, 9, d.take(6)) == parse_pattern_from(s, 10, d.take(7)));
    assert(d.take(6) =~= d.take(5).push(d[5]));
    assert(parse_pattern_from(s, 7, d.take(5)) == parse_pattern_from(s, 9, d.take(6)));
    assert(d.take(5) =~= d.take(4).push(d[4]));
    assert(parse_pattern_from(s, 6, d.take(4)) == parse_pattern_from(s, 7, d.take(5)));
    assert(d.take(4) =~= d.take(3).push(d[3]));
    assert(parse_pattern_from(s, 4, d.take(3)) == parse_pattern_from(s, 6, d.take(4)));
    assert(d.take(3) =~= d.take(2).push(d[2]));
    assert(parse_pattern_from(s, 3, d.take(2)) == parse_pattern_from(s, 4, d.take(3)));
    assert(d.take(2) =~= d.take(1).push(d[1]));
    assert(parse_pattern_from(s, 1, d.take(1)) == parse_pattern_from(s, 3, d.take(2)));
    assert(d.take(1) =~= d.take(0).push(d[0]));
    assert(parse_pattern_from(s, 0, d.take(0)) == parse_pattern_from(s, 1, d.take(1)));
    assert(d.take(0) =~= Seq::<PatternCharacter>::empty());
}

} // verus!
