//! What each placeholder of a pattern renders, stated as decimal fields and texts.

use crate::fmt::date_time::DateTimeParts;
use crate::fmt::default::{rendered, token_text};
use crate::fmt::parse::{default_pattern, pattern_of, PatternCharacter};
use crate::util::level::Level;
use crate::util::record::Record;
use crate::util::text::{dec, digit_char, padded, padded_int};
use vstd::prelude::*;

verus! {

/// `n` as exactly two decimal digits.
pub open spec fn two_digits(n: nat) -> Seq<char> {
    seq![digit_char(n / 10), digit_char(n % 10)]
}

/// `n` as exactly three decimal digits.
pub open spec fn three_digits(n: nat) -> Seq<char> {
    seq![digit_char(n / 100), digit_char((n / 10) % 10), digit_char(n % 10)]
}

/// `n` as exactly four decimal digits.
pub open spec fn four_digits(n: nat) -> Seq<char> {
    seq![digit_char(n / 1000), digit_char((n / 100) % 10), digit_char((n / 10) % 10), digit_char(n % 10)]
}

proof fn lemma_dec_small(n: nat)
    requires
        n < 10000,
    ensures
        n < 10 ==> dec(n) == seq![digit_char(n)],
        10 <= n < 100 ==> dec(n) == seq![digit_char(n / 10), digit_char(n % 10)],
        100 <= n < 1000 ==> dec(n) == seq![digit_char(n / 100), digit_char((n / 10) % 10), digit_char(n % 10)],
        1000 <= n ==> dec(n) == seq![digit_char(n / 1000), digit_char((n / 100) % 10), digit_char((n / 10) % 10), digit_char(n % 10)],
    decreases n,
{
    reveal_with_fuel(dec, 4);
    if n >= 10 {
        lemma_dec_small(n / 10);
        assert(n / 10 / 10 == n / 100);
        assert(n / 10 / 100 == n / 1000);
        assert((n / 10 / 10) % 10 == (n / 100) % 10);
        assert(dec(n) =~= dec(n / 10).push(digit_char(n % 10)));
    }
}

proof fn lemma_zero()
    ensures
        digit_char(0) == '0',
{
}

/// A number below 100 padded to two places is its two digits.
pub proof fn lemma_padded_two(n: nat)
    requires
        n < 100,
    ensures
        padded(n, 2) == two_digits(n),
{
    lemma_dec_small(n);
    lemma_zero();
    if n < 10 {
        assert(padded(n, 2) =~= seq!['0'] + seq![digit_char(n)]);
        assert(n / 10 == 0);
    }
    assert(padded(n, 2) =~= two_digits(n));
}

/// A number below 1000 padded to three places is its three digits.
pub proof fn lemma_padded_three(n: nat)
    requires
        n < 1000,
    ensures
        padded(n, 3) == three_digits(n),
{
    lemma_dec_small(n);
    lemma_zero();
    if n < 10 {
        assert(padded(n, 3) =~= seq!['0', '0'] + seq![digit_char(n)]);
        assert(n / 100 == 0 && (n / 10) % 10 == 0);
    } else if n < 100 {
        assert(padded(n, 3) =~= seq!['0'] + seq![digit_char(n / 10), digit_char(n % 10)]);
        assert(n / 100 == 0 && (n / 10) % 10 == n / 10);
    }
    assert(padded(n, 3) =~= three_digits(n));
}

/// A number below 10000 padded to four places is its four digits.
pub proof fn lemma_padded_four(n: nat)
    requires
        n < 10000,
    ensures
        padded(n, 4) == four_digits(n),
{
    lemma_dec_small(n);
    lemma_zero();
    if n < 10 {
        assert(padded(n, 4) =~= seq!['0', '0', '0'] + seq![digit_char(n)]);
        assert(n / 1000 == 0 && (n / 100) % 10 == 0 && (n / 10) % 10 == 0);
    } else if n < 100 {
        assert(padded(n, 4) =~= seq!['0', '0'] + seq![digit_char(n / 10), digit_char(n % 10)]);
        assert(n / 1000 == 0 && (n / 100) % 10 == 0 && (n / 10) % 10 == n / 10);
    } else if n < 1000 {
        assert(padded(n, 4) =~= seq!['0'] + seq![digit_char(n / 100), digit_char((n / 10) % 10), digit_char(n % 10)]);
        assert(n / 1000 == 0 && (n / 100) % 10 == n / 100);
    }
    assert(padded(n, 4) =~= four_digits(n));
}

/// The upper-case name of a level, as the placeholder table gives it.
pub open spec fn upper_name(l: Level) -> Seq<char> {
    match l {
        Level::Error => seq!['E', 'R', 'R', 'O', 'R'],
        Level::Warn => seq!['W', 'A', 'R', 'N'],
        Level::Info => seq!['I', 'N', 'F', 'O'],
        Level::Debug => seq!['D', 'E', 'B', 'U', 'G'],
        Level::Trace => seq!['T', 'R', 'A', 'C', 'E'],
    }
}

/// The lower-case name of a level, as the placeholder table gives it.
pub open spec fn lower_name(l: Level) -> Seq<char> {
    match l {
        Level::Error => seq!['e', 'r', 'r', 'o', 'r'],
        Level::Warn => seq!['w', 'a', 'r', 'n'],
        Level::Info => seq!['i', 'n', 'f', 'o'],
        Level::Debug => seq!['d', 'e', 'b', 'u', 'g'],
        Level::Trace => seq!['t', 'r', 'a', 'c', 'e'],
    }
}

/// Whether the broken-down time has the ranges of a calendar date and a time of day, in a year
/// from 0 to 9999.
pub open spec fn plain_time(t: DateTimeParts) -> bool {
    &&& 0 <= t.year <= 9999
    &&& 1 <= t.month <= 12
    &&& 1 <= t.day <= 31
    &&& t.hour < 24
    &&& t.minute < 60
    &&& t.second < 60
    &&& t.millisecond < 1000
}

/// The date and time placeholders render fixed-width decimal fields: `%Y` the year in four
/// digits; `%m`, `%d`, `%H`, `%M` and `%S` the month, day, hour (24-hour clock), minute and
/// second in two digits; `%y` the year within its century and `%I` the hour on the 12-hour
/// clock (12 at midnight and noon) in two digits; `%e` the milliseconds, `%f` the microseconds
/// within the millisecond and `%F` the nanoseconds within the microsecond, in three digits;
/// `%p` `AM` before noon and `PM` from noon on.
#[verifier::spinoff_prover]
#[verifier::rlimit(40)]
pub proof fn lemma_time_placeholders(r: Record, t: DateTimeParts, e: nat, c: Option<Seq<u8>>)
    requires
        plain_time(t),
    ensures
        token_text(pattern_of('Y'), r, t, e, c) == four_digits(t.year as nat),
        token_text(pattern_of('m'), r, t, e, c) == two_digits(t.month as nat),
        token_text(pattern_of('d'), r, t, e, c) == two_digits(t.day as nat),
        token_text(pattern_of('H'), r, t, e, c) == two_digits(t.hour as nat),
        token_text(pattern_of('M'), r, t, e, c) == two_digits(t.minute as nat),
        token_text(pattern_of('S'), r, t, e, c) == two_digits(t.second as nat),
        token_text(pattern_of('y'), r, t, e, c) == two_digits((t.year % 100) as nat),
        token_text(pattern_of('I'), r, t, e, c) == two_digits(
            if t.hour == 0 || t.hour == 12 {
                12
            } else if t.hour > 12 {
                (t.hour - 12) as nat
            } else {
                t.hour as nat
            },
        ),
        token_text(pattern_of('e'), r, t, e, c) == three_digits(t.millisecond as nat),
        token_text(pattern_of('f'), r, t, e, c) == three_digits((t.microsecond % 1000) as nat),
        token_text(pattern_of('F'), r, t, e, c) == three_digits((t.nanosecond % 1000) as nat),
        token_text(pattern_of('p'), r, t, e, c) == (if t.hour < 12 {
            seq!['A', 'M']
        } else {
            seq!['P', 'M']
        }),
{
    assert(token_text(pattern_of('Y'), r, t, e, c) == four_digits(t.year as nat)) by {
        assert(pattern_of('Y') == PatternCharacter::Year4);
        lemma_padded_four(t.year as nat);
    }
    assert(token_text(pattern_of('m'), r, t, e, c) == two_digits(t.month as nat)) by {
        assert(pattern_of('m') == PatternCharacter::Month);
        lemma_padded_two(t.month as nat);
    }
    assert(token_text(pattern_of('d'), r, t, e, c) == two_digits(t.day as nat)) by {
        assert(pattern_of('d') == PatternCharacter::Day);
        lemma_padded_two(t.day as nat);
    }
    assert(token_text(pattern_of('H'), r, t, e, c) == two_digits(t.hour as nat)) by {
        assert(pattern_of('H') == PatternCharacter::Hour24);
        lemma_padded_two(t.hour as nat);
    }
    assert(token_text(pattern_of('M'), r, t, e, c) == two_digits(t.minute as nat)) by {
        assert(pattern_of('M') == PatternCharacter::Minute);
        lemma_padded_two(t.minute as nat);
    }
    assert(token_text(pattern_of('S'), r, t, e, c) == two_digits(t.second as nat)) by {
        assert(pattern_of('S') == PatternCharacter::Second);
        lemma_padded_two(t.second as nat);
    }
    assert(token_text(pattern_of('y'), r, t, e, c) == two_digits((t.year % 100) as nat)) by {
        assert(pattern_of('y') == PatternCharacter::Year2);
        lemma_padded_two((t.year % 100) as nat);
    }
    let h12: nat = if t.hour == 0 || t.hour == 12 {
        12
    } else if t.hour > 12 {
        (t.hour - 12) as nat
    } else {
        t.hour as nat
    };
    assert(token_text(pattern_of('I'), r, t, e, c) == two_digits(h12)) by {
        assert(pattern_of('I') == PatternCharacter::Hour12);
        lemma_padded_two(h12);
    }
    assert(token_text(pattern_of('e'), r, t, e, c) == three_digits(t.millisecond as nat)) by {
        assert(pattern_of('e') == PatternCharacter::Millisecond);
        lemma_padded_three(t.millisecond as nat);
    }
    assert(token_text(pattern_of('f'), r, t, e, c) == three_digits((t.microsecond % 1000) as nat)) by {
        assert(pattern_of('f') == PatternCharacter::Microsecond);
        lemma_padded_three((t.microsecond % 1000) as nat);
    }
    assert(token_text(pattern_of('F'), r, t, e, c) == three_digits((t.nanosecond % 1000) as nat)) by {
        assert(pattern_of('F') == PatternCharacter::Nanosecond);
        lemma_padded_three((t.nanosecond % 1000) as nat);
    }
    assert(pattern_of('p') == PatternCharacter::AMPM);
}

/// The placeholders of a record's parts: `%v` the message, `%n` the logger's name, `%t` the
/// thread, `%P` the process ID in decimal, `%L` and `%l` the level's name in upper and lower
/// case, `%s` the source file, `%@` the module path and `%#` the line in decimal (each `?` when
/// the record has none), and `%%` a `%`.
pub proof fn lemma_record_placeholders(r: Record, t: DateTimeParts, e: nat, c: Option<Seq<u8>>)
    ensures
        token_text(pattern_of('v'), r, t, e, c) == r.spec_log_detail(),
        token_text(pattern_of('n'), r, t, e, c) == r.spec_logger_name(),
        token_text(pattern_of('t'), r, t, e, c) == r.spec_thread_id(),
        token_text(pattern_of('P'), r, t, e, c) == dec(r.spec_process_id() as nat),
        token_text(pattern_of('L'), r, t, e, c) == upper_name(r.spec_level()),
        token_text(pattern_of('l'), r, t, e, c) == lower_name(r.spec_level()),
        token_text(pattern_of('s'), r, t, e, c) == (match r.spec_file() {
            Some(f) => f,
            None => seq!['?'],
        }),
        token_text(pattern_of('@'), r, t, e, c) == (match r.spec_module() {
            Some(m) => m,
            None => seq!['?'],
        }),
        token_text(pattern_of('#'), r, t, e, c) == (match r.spec_line() {
            Some(l) => dec(l as nat),
            None => seq!['?'],
        }),
        token_text(pattern_of('%'), r, t, e, c) == seq!['%'],
{
    reveal_strlit("ERROR");
    reveal_strlit("WARN");
    reveal_strlit("INFO");
    reveal_strlit("DEBUG");
    reveal_strlit("TRACE");
    reveal_strlit("error");
    reveal_strlit("warn");
    reveal_strlit("info");
    reveal_strlit("debug");
    reveal_strlit("trace");
    assert(token_text(pattern_of('L'), r, t, e, c) =~= upper_name(r.spec_level()));
    assert(token_text(pattern_of('l'), r, t, e, c) =~= lower_name(r.spec_level()));
}

proof fn lemma_rendered_step(
    p: Seq<PatternCharacter>,
    k: int,
    r: Record,
    t: DateTimeParts,
    e: nat,
    c: Option<Seq<u8>>,
)
    requires
        0 <= k < p.len(),
    ensures
        rendered(p.take(k + 1), r, t, e, c) == rendered(p.take(k), r, t, e, c) + token_text(p[k], r, t, e, c),
{
    assert(p.take(k + 1).drop_last() =~= p.take(k));
    assert(p.take(k + 1).last() == p[k]);
}

/// The date and time part of the default pattern's text.
pub open spec fn default_date_text(t: DateTimeParts) -> Seq<char> {
    seq!['['] + four_digits(t.year as nat) + seq!['-'] + two_digits(t.month as nat) + seq!['-']
        + two_digits(t.day as nat) + seq![' '] + two_digits(t.hour as nat) + seq![':'] + two_digits(
        t.minute as nat,
    ) + seq![':'] + two_digits(t.second as nat)
}

/// The level and message part of the default pattern's text.
pub open spec fn default_level_text(r: Record) -> Seq<char> {
    seq![']'] + seq![' '] + seq!['['] + upper_name(r.spec_level()) + seq![']'] + seq![':'] + seq![' ']
        + r.spec_log_detail()
}

/// The text of the default pattern, `[%Y-%m-%d %H:%M:%S] [%L]: %v`.
pub open spec fn default_text(r: Record, t: DateTimeParts) -> Seq<char> {
    default_date_text(t) + default_level_text(r)
}

#[verifier::spinoff_prover]
proof fn lemma_default_date_part(r: Record, t: DateTimeParts, e: nat, c: Option<Seq<u8>>)
    requires
        plain_time(t),
    ensures
        rendered(default_pattern().take(12), r, t, e, c) == default_date_text(t),
{
    let d = default_pattern().take(12);
    lemma_padded_four(t.year as nat);
    lemma_padded_two(t.month as nat);
    lemma_padded_two(t.day as nat);
    lemma_padded_two(t.hour as nat);
    lemma_padded_two(t.minute as nat);
    lemma_padded_two(t.second as nat);
    lemma_rendered_step(d, 0, r, t, e, c);
    lemma_rendered_step(d, 1, r, t, e, c);
    lemma_rendered_step(d, 2, r, t, e, c);
    lemma_rendered_step(d, 3, r, t, e, c);
    lemma_rendered_step(d, 4, r, t, e, c);
    lemma_rendered_step(d, 5, r, t, e, c);
    lemma_rendered_step(d, 6, r, t, e, c);
    lemma_rendered_step(d, 7, r, t, e, c);
    lemma_rendered_step(d, 8, r, t, e, c);
    lemma_rendered_step(d, 9, r, t, e, c);
    lemma_rendered_step(d, 10, r, t, e, c);
    lemma_rendered_step(d, 11, r, t, e, c);
    assert(d.take(0) =~= Seq::<PatternCharacter>::empty());
    assert(d.take(12) =~= d);
    assert(rendered(d, r, t, e, c) =~= default_date_text(t));
}

#[verifier::spinoff_prover]
proof fn lemma_default_level_part(r: Record, t: DateTimeParts, e: nat, c: Option<Seq<u8>>)
    ensures
        rendered(default_pattern().skip(12), r, t, e, c) == default_level_text(r),
{
    let d = default_pattern().skip(12);
    reveal_strlit("ERROR");
    reveal_strlit("WARN");
    reveal_strlit("INFO");
    reveal_strlit("DEBUG");
    reveal_strlit("TRACE");
    assert(token_text(PatternCharacter::LevelUpper, r, t, e, c) =~= upper_name(r.spec_level()));
    lemma_rendered_step(d, 0, r, t, e, c);
    lemma_rendered_step(d, 1, r, t, e, c);
    lemma_rendered_step(d, 2, r, t, e, c);
    lemma_rendered_step(d, 3, r, t, e, c);
    lemma_rendered_step(d, 4, r, t, e, c);
    lemma_rendered_step(d, 5, r, t, e, c);
    lemma_rendered_step(d, 6, r, t, e, c);
    lemma_rendered_step(d, 7, r, t, e, c);
    assert(d.take(0) =~= Seq::<PatternCharacter>::empty());
    assert(d.take(8) =~= d);
    assert(rendered(d, r, t, e, c) =~= default_level_text(r));
}

/// The default pattern renders as `[YYYY-MM-DD HH:MM:SS] [LEVEL]: message`, every date and
/// time field zero-padded to its width and the hour on the 24-hour clock, whatever the colour.
pub proof fn lemma_default_pattern_rendering(r: Record, t: DateTimeParts, e: nat, c: Option<Seq<u8>>)
    requires
        plain_time(t),
    ensures
        rendered(default_pattern(), r, t, e, c) == default_text(r, t),
{
    let d = default_pattern();
    lemma_default_date_part(r, t, e, c);
    lemma_default_level_part(r, t, e, c);
    crate::fmt::default::lemma_rendered_concat(d.take(12), d.skip(12), r, t, e, c);
    assert(d.take(12) + d.skip(12) =~= d);
}

/// `%z` renders the UTC offset as a sign and three two-digit fields, `+HH:MM:SS` or
/// `-HH:MM:SS`; the fields are the magnitudes of the offset's hours, minutes and seconds.
pub proof fn lemma_offset_placeholder(r: Record, t: DateTimeParts, e: nat, c: Option<Seq<u8>>)
    requires
        -25 <= t.offset_hours <= 25,
        -59 <= t.offset_minutes <= 59,
        -59 <= t.offset_seconds <= 59,
        (t.offset_hours >= 0 && t.offset_minutes >= 0 && t.offset_seconds >= 0) || (t.offset_hours
            <= 0 && t.offset_minutes <= 0 && t.offset_seconds <= 0),
    ensures
        token_text(pattern_of('z'), r, t, e, c) == (if t.offset_hours < 0 || t.offset_minutes < 0
            || t.offset_seconds < 0 {
            seq!['-']
        } else {
            seq!['+']
        }) + two_digits(abs(t.offset_hours as int)) + seq![':'] + two_digits(abs(t.offset_minutes as int))
            + seq![':'] + two_digits(abs(t.offset_seconds as int)),
{
    assert(pattern_of('z') == PatternCharacter::TimezoneOffset);
    lemma_padded_two(abs(t.offset_hours as int));
    lemma_padded_two(abs(t.offset_minutes as int));
    lemma_padded_two(abs(t.offset_seconds as int));
}

/// The magnitude of a number.
pub open spec fn abs(n: int) -> nat {
    if n < 0 {
        (-n) as nat
    } else {
        n as nat
    }
}

/// The colour range marks render, when the formatter colours, as the level's escape sequence
/// (`\x1b[` codes `m`) and the reset sequence `\x1b[0m`; without colours, as nothing.
pub proof fn lemma_color_placeholders(r: Record, t: DateTimeParts, e: nat, a: Seq<u8>)
    ensures
        token_text(pattern_of('^'), r, t, e, Some(a)) == crate::fmt::ansi_color::render_ansi(a),
        token_text(pattern_of('$'), r, t, e, Some(a)) == seq!['\x1b', '[', '0', 'm'],
        token_text(pattern_of('^'), r, t, e, None) == Seq::<char>::empty(),
        token_text(pattern_of('$'), r, t, e, None) == Seq::<char>::empty(),
{
    assert(pattern_of('^') == PatternCharacter::StartColorRange);
    assert(pattern_of('$') == PatternCharacter::StopColorRange);
}

} // verus!