//! The default formatter, and the rendering of a pattern for a record.

use crate::fmt::ansi_color::{render_ansi, ANSI};
use crate::fmt::date_time::{local_date_time, local_time_in_range, to_local_date_time, DateTimeParts};
use crate::fmt::parse::{
    default_pattern, default_pattern_tokens, lemma_default_pattern_string, parse_pattern,
    parse_pattern_from, pattern_char, pattern_of, standard_date_time_tokens, PatternCharacter,
    DEFAULT_PATTERN_STRING,
};
use crate::util::errors::{ParseError, ParseErrorKind};
use crate::util::level::{level_name_lower, level_name_upper, level_rank, Level};
use crate::util::record::Record;
use crate::util::text::{
    dec, dec_int, padded, padded_int, push_char, push_dec, push_dec_i64, push_padded,
    push_padded_i64, push_str, str_to_chars,
};
use vstd::prelude::*;

verus! {

/// The magnitude of a signed number.
pub open spec fn magnitude(n: int) -> nat {
    if n < 0 {
        (-n) as nat
    } else {
        n as nat
    }
}

/// The UTC offset as `+HH:MM:SS` or `-HH:MM:SS`.
pub open spec fn offset_text(t: DateTimeParts) -> Seq<char> {
    let negative = t.offset_hours < 0 || t.offset_minutes < 0 || t.offset_seconds < 0;
    (if negative { seq!['-'] } else { seq!['+'] }) + padded(magnitude(t.offset_hours as int), 2)
        + seq![':'] + padded(magnitude(t.offset_minutes as int), 2) + seq![':'] + padded(
        magnitude(t.offset_seconds as int),
        2,
    )
}

/// A text that may be absent, with `"?"` in its place.
pub open spec fn or_question(s: Option<Seq<char>>) -> Seq<char> {
    match s {
        Some(t) => t,
        None => seq!['?'],
    }
}

/// The time since the previous record, in nanoseconds; zero if the record is older.
pub open spec fn elapsed_since(time_stamp: int, last: int) -> nat {
    if time_stamp >= last {
        (time_stamp - last) as nat
    } else {
        0
    }
}

/// The escape sequence that ends a colour range.
pub open spec fn color_reset() -> Seq<char> {
    seq!['\x1b', '[', '0', 'm']
}

/// The hour on a 12-hour clock: 12 for midnight and noon, 1 to 11 otherwise.
pub open spec fn hour12(h: nat) -> nat {
    if h % 12 == 0 {
        12
    } else {
        h % 12
    }
}

/// Whether a character separates the parts of a path.
pub open spec fn is_path_separator(c: char) -> bool {
    c == '/' || c == '\\'
}

/// The last part of a path: what follows its last `/` or `\`.
pub open spec fn short_name(p: Seq<char>) -> Seq<char>
    decreases p.len(),
{
    if p.len() == 0 {
        p
    } else if is_path_separator(p.last()) {
        Seq::empty()
    } else {
        short_name(p.drop_last()).push(p.last())
    }
}

proof fn lemma_short_name(p: Seq<char>, j: int)
    requires
        0 <= j <= p.len(),
        forall|k: int| j <= k < p.len() ==> !is_path_separator(#[trigger] p[k]),
        j > 0 ==> is_path_separator(p[j - 1]),
    ensures
        short_name(p) == p.subrange(j, p.len() as int),
    decreases p.len(),
{
    if p.len() == j {
        assert(p.subrange(j, p.len() as int) =~= Seq::<char>::empty());
    } else {
        let q = p.drop_last();
        assert(!is_path_separator(p[p.len() - 1]));
        assert forall|k: int| j <= k < q.len() implies !is_path_separator(#[trigger] q[k]) by {
            assert(q[k] == p[k]);
        }
        if j > 0 {
            assert(q[j - 1] == p[j - 1]);
        }
        lemma_short_name(q, j);
        assert(p.subrange(j, p.len() as int) =~= q.subrange(j, q.len() as int).push(p.last()));
    }
}

/// Appends the last part of a path.
fn push_short_name(buf: &mut String, path: &str)
    ensures
        final(buf)@ == old(buf)@ + short_name(path@),
{
    let cs = str_to_chars(path);
    let mut j: usize = cs.len();
    while j > 0 && !(cs[j - 1] == '/' || cs[j - 1] == '\\')
        invariant
            j <= cs@.len(),
            forall|k: int| j <= k < cs@.len() ==> !is_path_separator(#[trigger] cs@[k]),
        decreases j,
    {
        j = j - 1;
    }
    proof {
        lemma_short_name(cs@, j as int);
    }
    let ghost start = buf@;
    let mut k: usize = j;
    while k < cs.len()
        invariant
            j <= k <= cs@.len(),
            buf@ == start + cs@.subrange(j as int, k as int),
        decreases cs.len() - k,
    {
        push_char(buf, cs[k]);
        proof {
            assert(cs@.subrange(j as int, k + 1) =~= cs@.subrange(j as int, k as int).push(cs@[k as int]));
        }
        k = k + 1;
    }
}

/// Whether the formatter can render a pattern character. The source function name and the
/// mapped diagnostic context are not implemented; `Void`, `StandardDateTime` and
/// `DefaultFormat` are never left by the parser (`%c` and `%+` are expanded).
pub open spec fn renderable(p: PatternCharacter) -> bool {
    !(p == PatternCharacter::Void || p == PatternCharacter::FuncName || p == PatternCharacter::StandardDateTime
        || p == PatternCharacter::AllMappedDiagnosticContext || p == PatternCharacter::DefaultFormat)
}

pub open spec fn all_renderable(pattern: Seq<PatternCharacter>) -> bool {
    forall|i: int| 0 <= i < pattern.len() ==> renderable(#[trigger] pattern[i])
}

/// The text of one pattern character for a record whose local time is `t`, `elapsed`
/// nanoseconds after the previous one. `color` is the escape sequence of the record's level
/// when the formatter colours its output, and `None` when it does not.
pub open spec fn token_text(
    p: PatternCharacter,
    r: Record,
    t: DateTimeParts,
    elapsed: nat,
    color: Option<Seq<u8>>,
) -> Seq<char> {
    match p {
        PatternCharacter::Message => r.spec_log_detail(),
        PatternCharacter::LoggerName => r.spec_logger_name(),
        PatternCharacter::LevelLower => level_name_lower(r.spec_level()),
        PatternCharacter::LevelUpper => level_name_upper(r.spec_level()),
        PatternCharacter::ThreadId => r.spec_thread_id(),
        PatternCharacter::ProcessId => dec(r.spec_process_id() as nat),
        PatternCharacter::SourceLocation => or_question(r.spec_module()),
        PatternCharacter::SourceFile => or_question(r.spec_file()),
        PatternCharacter::SourceShortFile => match r.spec_file() {
            Some(f) => short_name(f),
            None => seq!['?'],
        },
        PatternCharacter::Line => match r.spec_line() {
            Some(l) => dec(l as nat),
            None => seq!['?'],
        },
        PatternCharacter::Year4 => padded_int(t.year as int, 4),
        PatternCharacter::Year2 => padded((t.year as int % 100) as nat, 2),
        PatternCharacter::Month => padded(t.month as nat, 2),
        PatternCharacter::Day => padded(t.day as nat, 2),
        PatternCharacter::Hour24 => padded(t.hour as nat, 2),
        PatternCharacter::Hour12 => padded(hour12(t.hour as nat), 2),
        PatternCharacter::Minute => padded(t.minute as nat, 2),
        PatternCharacter::Second => padded(t.second as nat, 2),
        PatternCharacter::Millisecond => padded(t.millisecond as nat, 3),
        PatternCharacter::Microsecond => padded((t.microsecond % 1000) as nat, 3),
        PatternCharacter::Nanosecond => padded((t.nanosecond % 1000) as nat, 3),
        PatternCharacter::AMPM => if t.hour >= 12 { seq!['P', 'M'] } else { seq!['A', 'M'] },
        PatternCharacter::TimezoneOffset => offset_text(t),
        PatternCharacter::UnixTimestamp => dec_int(t.unix_timestamp as int),
        PatternCharacter::ElapsedMicroseconds => padded(elapsed / 1000, 6),
        PatternCharacter::ElapsedNanoseconds => padded(elapsed, 9),
        PatternCharacter::StartColorRange => match color {
            Some(c) => render_ansi(c),
            None => Seq::empty(),
        },
        PatternCharacter::StopColorRange => match color {
            Some(_) => color_reset(),
            None => Seq::empty(),
        },
        PatternCharacter::Literal(c) => seq![c],
        _ => Seq::empty(),
    }
}

/// The text of a pattern for a record: the texts of its characters, one after another.
pub open spec fn rendered(
    pattern: Seq<PatternCharacter>,
    r: Record,
    t: DateTimeParts,
    elapsed: nat,
    color: Option<Seq<u8>>,
) -> Seq<char>
    decreases pattern.len(),
{
    if pattern.len() == 0 {
        Seq::empty()
    } else {
        rendered(pattern.drop_last(), r, t, elapsed, color) + token_text(
            pattern.last(),
            r,
            t,
            elapsed,
            color,
        )
    }
}

/// Appends the text of one pattern character.
fn push_token(
    buf: &mut String,
    p: PatternCharacter,
    record: &Record,
    t: &DateTimeParts,
    elapsed: u128,
    color: Option<&ANSI>,
)
    requires
        renderable(p),
        1 <= t.month <= 12,
        1 <= t.day <= 31,
        t.hour < 24,
        t.minute < 60,
        t.second < 60,
    ensures
        final(buf)@ == old(buf)@ + token_text(
            p,
            *record,
            *t,
            elapsed as nat,
            match color {
                Some(c) => Some(c@),
                None => None,
            },
        ),
{
    match p {
        PatternCharacter::Message => push_str(buf, record.log_detail()),
        PatternCharacter::LoggerName => push_str(buf, record.logger_name()),
        PatternCharacter::LevelLower => push_str(buf, record.level().as_str_lower()),
        PatternCharacter::LevelUpper => push_str(buf, record.level().as_str()),
        PatternCharacter::ThreadId => push_str(buf, record.thread_id()),
        PatternCharacter::ProcessId => push_dec(buf, record.process_id() as u128),
        PatternCharacter::SourceLocation => match record.source_module() {
            Some(m) => push_str(buf, m),
            None => push_char(buf, '?'),
        },
        PatternCharacter::SourceFile => match record.file() {
            Some(f) => push_str(buf, f),
            None => push_char(buf, '?'),
        },
        PatternCharacter::SourceShortFile => match record.file() {
            Some(f) => push_short_name(buf, f),
            None => push_char(buf, '?'),
        },
        PatternCharacter::Line => match record.line() {
            Some(l) => push_dec(buf, l as u128),
            None => push_char(buf, '?'),
        },
        PatternCharacter::Year4 => push_padded_i64(buf, t.year as i64, 4),
        PatternCharacter::Year2 => {
            let y = t.year % 100;
            let y = if y < 0 { y + 100 } else { y };
            push_padded(buf, y as u128, 2);
        },
        PatternCharacter::Month => push_padded(buf, t.month as u128, 2),
        PatternCharacter::Day => push_padded(buf, t.day as u128, 2),
        PatternCharacter::Hour24 => push_padded(buf, t.hour as u128, 2),
        PatternCharacter::Hour12 => {
            let h = if t.hour % 12 == 0 { 12 } else { t.hour % 12 };
            push_padded(buf, h as u128, 2)
        },
        PatternCharacter::Minute => push_padded(buf, t.minute as u128, 2),
        PatternCharacter::Second => push_padded(buf, t.second as u128, 2),
        PatternCharacter::Millisecond => push_padded(buf, t.millisecond as u128, 3),
        PatternCharacter::Microsecond => push_padded(buf, (t.microsecond % 1000) as u128, 3),
        PatternCharacter::Nanosecond => push_padded(buf, (t.nanosecond % 1000) as u128, 3),
        PatternCharacter::AMPM => {
            if t.hour >= 12 {
                push_char(buf, 'P');
            } else {
                push_char(buf, 'A');
            }
            push_char(buf, 'M');
        },
        PatternCharacter::TimezoneOffset => {
            let negative = t.offset_hours < 0 || t.offset_minutes < 0 || t.offset_seconds < 0;
            push_char(buf, if negative { '-' } else { '+' });
            push_padded(buf, offset_magnitude(t.offset_hours) as u128, 2);
            push_char(buf, ':');
            push_padded(buf, offset_magnitude(t.offset_minutes) as u128, 2);
            push_char(buf, ':');
            push_padded(buf, offset_magnitude(t.offset_seconds) as u128, 2);
        },
        PatternCharacter::UnixTimestamp => push_dec_i64(buf, t.unix_timestamp),
        PatternCharacter::ElapsedMicroseconds => push_padded(buf, elapsed / 1000, 6),
        PatternCharacter::ElapsedNanoseconds => push_padded(buf, elapsed, 9),
        PatternCharacter::StartColorRange => match color {
            Some(c) => push_str(buf, c.as_string().as_str()),
            None => {},
        },
        PatternCharacter::StopColorRange => match color {
            Some(_) => push_str(buf, "\x1b[0m"),
            None => {},
        },
        PatternCharacter::Literal(c) => push_char(buf, c),
        _ => {},
    }
    proof {
        reveal_strlit("\x1b[0m");
        assert(final(buf)@ =~= old(buf)@ + token_text(
            p,
            *record,
            *t,
            elapsed as nat,
            match color {
                Some(c) => Some(c@),
                None => None,
            },
        ));
    }
}

/// The magnitude of an offset component.
fn offset_magnitude(x: i8) -> (r: u8)
    ensures
        r == magnitude(x as int),
{
    if x < 0 {
        (0i16 - x as i16) as u8
    } else {
        x as u8
    }
}

/// Renders a pattern for a record whose local date and time are `t`, `elapsed` nanoseconds
/// after the previous record. With `color`, the colour range is marked with that escape
/// sequence and a reset; without, colour range marks render as nothing.
pub fn render(
    pattern: &Vec<PatternCharacter>,
    record: &Record,
    t: &DateTimeParts,
    elapsed: u128,
    color: Option<&ANSI>,
) -> (s: String)
    requires
        all_renderable(pattern@),
        1 <= t.month <= 12,
        1 <= t.day <= 31,
        t.hour < 24,
        t.minute < 60,
        t.second < 60,
    ensures
        s@ == rendered(
            pattern@,
            *record,
            *t,
            elapsed as nat,
            match color {
                Some(c) => Some(c@),
                None => None,
            },
        ),
{
    let ghost c = match color {
        Some(c) => Some(c@),
        None => None,
    };
    let mut buf = String::new();
    let mut k: usize = 0;
    while k < pattern.len()
        invariant
            k <= pattern.len(),
            all_renderable(pattern@),
            1 <= t.month <= 12,
            1 <= t.day <= 31,
            t.hour < 24,
            t.minute < 60,
            t.second < 60,
            c == match color {
                Some(c) => Some(c@),
                None => None::<Seq<u8>>,
            },
            buf@ == rendered(pattern@.subrange(0, k as int), *record, *t, elapsed as nat, c),
        decreases pattern.len() - k,
    {
        assert(renderable(pattern@[k as int]));
        push_token(&mut buf, pattern[k], record, t, elapsed, color);
        proof {
            let sub = pattern@.subrange(0, k + 1);
            assert(sub.drop_last() =~= pattern@.subrange(0, k as int));
            assert(sub.last() == pattern@[k as int]);
        }
        k = k + 1;
    }
    proof {
        assert(pattern@.subrange(0, pattern@.len() as int) =~= pattern@);
    }
    buf
}

/// The text of two patterns one after the other is the text of the first followed by that of
/// the second.
pub proof fn lemma_rendered_concat(
    p1: Seq<PatternCharacter>,
    p2: Seq<PatternCharacter>,
    r: Record,
    t: DateTimeParts,
    elapsed: nat,
    color: Option<Seq<u8>>,
)
    ensures
        rendered(p1 + p2, r, t, elapsed, color) == rendered(p1, r, t, elapsed, color) + rendered(
            p2,
            r,
            t,
            elapsed,
            color,
        ),
    decreases p2.len(),
{
    if p2.len() == 0 {
        assert(p1 + p2 =~= p1);
        assert(rendered(p1, r, t, elapsed, color) + rendered(p2, r, t, elapsed, color) =~= rendered(
            p1,
            r,
            t,
            elapsed,
            color,
        ));
    } else {
        lemma_rendered_concat(p1, p2.drop_last(), r, t, elapsed, color);
        assert((p1 + p2).drop_last() =~= p1 + p2.drop_last());
        assert((p1 + p2).last() == p2.last());
        assert(rendered(p1 + p2, r, t, elapsed, color) =~= rendered(p1, r, t, elapsed, color)
            + rendered(p2, r, t, elapsed, color));
    }
}

/// A pattern of literal characters renders as those characters, whatever the record.
pub proof fn lemma_render_literal_pattern(
    s: Seq<char>,
    r: Record,
    t: DateTimeParts,
    elapsed: nat,
    color: Option<Seq<u8>>,
)
    ensures
        rendered(crate::fmt::parse_laws::literal_pattern(s), r, t, elapsed, color) == s,
    decreases s.len(),
{
    if s.len() == 0 {
        assert(rendered(Seq::empty(), r, t, elapsed, color) == Seq::<char>::empty());
    } else {
        let c = crate::util::text::char_at(s, 0);
        let head = seq![PatternCharacter::Literal(c)];
        let rest = crate::fmt::parse_laws::literal_pattern(s.drop_first());
        lemma_render_literal_pattern(s.drop_first(), r, t, elapsed, color);
        lemma_rendered_concat(head, rest, r, t, elapsed, color);
        assert(head.drop_last() =~= Seq::<PatternCharacter>::empty());
        assert(head.last() == PatternCharacter::Literal(c));
        assert(rendered(head.drop_last(), r, t, elapsed, color) == Seq::<char>::empty());
        assert(token_text(PatternCharacter::Literal(c), r, t, elapsed, color) == seq![c]);
        assert(rendered(head, r, t, elapsed, color) =~= seq![c]);
        assert(seq![c] + s.drop_first() =~= s);
    }
}

/// A pattern string without `%` is written out as it is.
pub proof fn lemma_plain_text_pattern(
    s: Seq<char>,
    r: Record,
    t: DateTimeParts,
    elapsed: nat,
    color: Option<Seq<u8>>,
)
    requires
        !s.contains('%'),
    ensures
        parse_pattern(s) matches Ok(p) && rendered(p, r, t, elapsed, color) == s,
{
    crate::fmt::parse_laws::lemma_parse_literal_text(s);
    lemma_render_literal_pattern(s, r, t, elapsed, color);
}

/// Whether a pattern marks a colour range (`%^` or `%$`).
pub open spec fn marks_color(p: Seq<PatternCharacter>) -> bool {
    exists|i: int|
        0 <= i < p.len() && (#[trigger] p[i] == PatternCharacter::StartColorRange || p[i]
            == PatternCharacter::StopColorRange)
}

/// Colouring changes nothing in the text of a pattern that marks no colour range: the colouring
/// formatter and the plain one render it alike.
pub proof fn lemma_uncolored_pattern_same(
    p: Seq<PatternCharacter>,
    r: Record,
    t: DateTimeParts,
    elapsed: nat,
    color: Seq<u8>,
)
    requires
        !marks_color(p),
    ensures
        rendered(p, r, t, elapsed, Some(color)) == rendered(p, r, t, elapsed, None),
    decreases p.len(),
{
    if p.len() > 0 {
        let q = p.drop_last();
        assert(!marks_color(q)) by {
            if marks_color(q) {
                let i = choose|i: int|
                    0 <= i < q.len() && (#[trigger] q[i] == PatternCharacter::StartColorRange || q[i]
                        == PatternCharacter::StopColorRange);
                assert(p[i] == q[i]);
            }
        }
        lemma_uncolored_pattern_same(q, r, t, elapsed, color);
        let last = p.last();
        assert(last != PatternCharacter::StartColorRange && last != PatternCharacter::StopColorRange) by {
            assert(p[p.len() - 1] == last);
        }
    }
}

/// The escape sequences of the default colours of the levels, `Error` first.
pub open spec fn default_level_colors() -> Seq<Seq<u8>> {
    seq![seq![31u8, 1u8], seq![33u8, 1u8], seq![32u8], seq![36u8], seq![37u8]]
}

/// The colour of each level, as shown on a terminal.
pub struct LevelColor {
    error: ANSI,
    warn: ANSI,
    info: ANSI,
    debug: ANSI,
    trace: ANSI,
}

impl LevelColor {
    /// The codes of each level's colour, `Error` first.
    pub closed spec fn spec_colors(&self) -> Seq<Seq<u8>> {
        seq![self.error@, self.warn@, self.info@, self.debug@, self.trace@]
    }

    /// The default colours.
    pub fn new() -> (c: Self)
        ensures
            c.spec_colors() == default_level_colors(),
    {
        let c = LevelColor {
            error: ANSI::from_codes(vec![31u8, 1u8]),
            warn: ANSI::from_codes(vec![33u8, 1u8]),
            info: ANSI::from_codes(vec![32u8]),
            debug: ANSI::from_codes(vec![36u8]),
            trace: ANSI::from_codes(vec![37u8]),
        };
        proof {
            assert(c.error@ =~= seq![31u8, 1u8]);
            assert(c.warn@ =~= seq![33u8, 1u8]);
            assert(c.info@ =~= seq![32u8]);
            assert(c.debug@ =~= seq![36u8]);
            assert(c.trace@ =~= seq![37u8]);
            assert(c.spec_colors() =~= default_level_colors());
        }
        c
    }

    /// Sets the colour of a level from an escape sequence such as `"\x1b[31;1m"`; on a parse
    /// error the colours are unchanged.
    pub fn set_color(&mut self, level: Level, color: &str) -> (r: Result<(), ParseError>)
        ensures
            match crate::fmt::ansi_color::parse_ansi(color@) {
                Ok(codes) => r is Ok && final(self).spec_colors() == old(self).spec_colors().update(
                    level_rank(level) - 1,
                    codes,
                ),
                Err(e) => r == Err::<(), ParseError>(e) && final(self).spec_colors() == old(self).spec_colors(),
            },
    {
        let ansi = ANSI::parse(color)?;
        let ghost before = self.spec_colors();
        let ghost codes = ansi@;
        match level {
            Level::Error => self.error = ansi,
            Level::Warn => self.warn = ansi,
            Level::Info => self.info = ansi,
            Level::Debug => self.debug = ansi,
            Level::Trace => self.trace = ansi,
        }
        proof {
            assert(self.spec_colors() =~= before.update(level_rank(level) - 1, codes));
        }
        Ok(())
    }

    /// The colour of a level.
    pub fn get_color(&self, level: Level) -> (c: &ANSI)
        ensures
            c@ == self.spec_colors()[level_rank(level) - 1],
    {
        match level {
            Level::Error => &self.error,
            Level::Warn => &self.warn,
            Level::Info => &self.info,
            Level::Debug => &self.debug,
            Level::Trace => &self.trace,
        }
    }
}

/// After a level's colour is set, that level reads back the new codes and every other level
/// reads back the colour it had.
pub proof fn lemma_set_color_then_get(
    before: LevelColor,
    after: LevelColor,
    level: Level,
    codes: Seq<u8>,
    other: Level,
)
    requires
        after.spec_colors() == before.spec_colors().update(level_rank(level) - 1, codes),
    ensures
        after.spec_colors()[level_rank(level) - 1] == codes,
        other != level ==> after.spec_colors()[level_rank(other) - 1] == before.spec_colors()[level_rank(other) - 1],
{
    assert(before.spec_colors().len() == 5);
}

/// The formatter that renders a record by its pattern, without colours.
///
/// The pattern characters it knows are listed at [`PatternCharacter`].
pub struct DefaultFormatter {
    pub(crate) pattern: Vec<PatternCharacter>,
    pub(crate) last_parse: u128,
    pub(crate) color: LevelColor,
}

impl DefaultFormatter {
    /// The parsed pattern.
    pub closed spec fn spec_pattern(&self) -> Seq<PatternCharacter> {
        self.pattern@
    }

    /// When the formatter last rendered a record (or was made), in nanoseconds since the Unix epoch.
    pub closed spec fn spec_last_parse(&self) -> u128 {
        self.last_parse
    }

    pub closed spec fn spec_colors(&self) -> Seq<Seq<u8>> {
        self.color.spec_colors()
    }

    /// A formatter for a pattern string, made at `now` (nanoseconds since the Unix epoch).
    pub fn new(pattern: &str, now: u128) -> (r: Result<Self, ParseError>)
        ensures
            match parse_pattern(pattern@) {
                Ok(p) => r matches Ok(f) && f.spec_pattern() == p && f.spec_last_parse() == now
                    && f.spec_colors() == default_level_colors(),
                Err(e) => r == Err::<Self, ParseError>(e),
            },
    {
        let pattern = Self::preprocess(pattern)?;
        Ok(DefaultFormatter { pattern, last_parse: now, color: LevelColor::new() })
    }

    /// A formatter for the default pattern, made at `now`.
    pub fn with_default_pattern(now: u128) -> (f: Self)
        ensures
            f.spec_pattern() == default_pattern(),
            f.spec_last_parse() == now,
            f.spec_colors() == default_level_colors(),
    {
        DefaultFormatter { pattern: default_pattern_tokens(), last_parse: now, color: LevelColor::new() }
    }

    /// Parses a pattern string; see [`parse_pattern`].
    pub fn preprocess(pattern: &str) -> (r: Result<Vec<PatternCharacter>, ParseError>)
        ensures
            match r {
                Ok(v) => parse_pattern(pattern@) == Ok::<Seq<PatternCharacter>, ParseError>(v@),
                Err(e) => parse_pattern(pattern@) == Err::<Seq<PatternCharacter>, ParseError>(e),
            },
    {
        let s = str_to_chars(pattern);
        let mut res: Vec<PatternCharacter> = Vec::new();
        let mut i: usize = 0;
        while i < s.len()
            invariant
                i <= s.len(),
                s@ == pattern@,
                parse_pattern(s@) == parse_pattern_from(s@, i as int, res@),
            decreases s.len() - i,
        {
            let ch = s[i];
            if ch == '%' {
                if i + 1 >= s.len() {
                    return Err(ParseError::new(ParseErrorKind::PatternNotFound, i + 1));
                }
                let ch_ne = s[i + 1];
                let p = pattern_char(ch_ne);
                if p == PatternCharacter::Void {
                    return Err(ParseError::new(ParseErrorKind::UnexpectedPattern(ch_ne), i + 1));
                } else if p == PatternCharacter::DefaultFormat {
                    let mut d = default_pattern_tokens();
                    res.append(&mut d);
                } else if p == PatternCharacter::StandardDateTime {
                    let mut d = standard_date_time_tokens();
                    res.append(&mut d);
                } else {
                    res.push(p);
                }
                i = i + 2;
            } else {
                res.push(PatternCharacter::Literal(ch));
                i = i + 1;
            }
        }
        Ok(res)
    }

    /// Replaces the pattern by a parsed pattern string; on a parse error the pattern is unchanged.
    pub fn set_format(&mut self, pattern: &str) -> (r: Result<(), ParseError>)
        ensures
            match parse_pattern(pattern@) {
                Ok(p) => r is Ok && final(self).spec_pattern() == p,
                Err(e) => r == Err::<(), ParseError>(e) && final(self).spec_pattern() == old(self).spec_pattern(),
            },
            final(self).spec_last_parse() == old(self).spec_last_parse(),
            final(self).spec_colors() == old(self).spec_colors(),
    {
        let p = Self::preprocess(pattern)?;
        self.pattern = p;
        Ok(())
    }

    /// Sets the colour of a level; see [`LevelColor::set_color`].
    pub fn set_color(&mut self, level: Level, color: &str) -> (r: Result<(), ParseError>)
        ensures
            match crate::fmt::ansi_color::parse_ansi(color@) {
                Ok(codes) => r is Ok && final(self).spec_colors() == old(self).spec_colors().update(
                    level_rank(level) - 1,
                    codes,
                ),
                Err(e) => r == Err::<(), ParseError>(e) && final(self).spec_colors() == old(self).spec_colors(),
            },
            final(self).spec_pattern() == old(self).spec_pattern(),
            final(self).spec_last_parse() == old(self).spec_last_parse(),
    {
        self.color.set_color(level, color)
    }

    /// Whether every character of the pattern can be rendered.
    pub fn can_format(&self) -> (b: bool)
        ensures
            b == all_renderable(self.spec_pattern()),
    {
        let mut k: usize = 0;
        while k < self.pattern.len()
            invariant
                k <= self.pattern.len(),
                forall|i: int| 0 <= i < k ==> renderable(#[trigger] self.pattern@[i]),
            decreases self.pattern.len() - k,
        {
            let p = self.pattern[k];
            if p == PatternCharacter::Void || p == PatternCharacter::FuncName
                || p == PatternCharacter::StandardDateTime || p
                == PatternCharacter::AllMappedDiagnosticContext || p
                == PatternCharacter::DefaultFormat {
                return false;
            }
            k = k + 1;
        }
        true
    }

    /// Renders a record, its time stamp taken in the UTC offset `offset_seconds`, and remembers
    /// the record's time as the time of the last rendering. With `colored`, the colour range is
    /// marked with the colour of the record's level.
    pub(crate) fn format_with(&mut self, record: &Record, offset_seconds: i32, colored: bool) -> (s: String)
        requires
            all_renderable(old(self).spec_pattern()),
            local_time_in_range(record.spec_time_stamp() as int, offset_seconds as int),
        ensures
            s@ == rendered(
                old(self).spec_pattern(),
                *record,
                local_date_time(record.spec_time_stamp() as int, offset_seconds as int),
                elapsed_since(record.spec_time_stamp() as int, old(self).spec_last_parse() as int),
                if colored {
                    Some(old(self).spec_colors()[level_rank(record.spec_level()) - 1])
                } else {
                    None
                },
            ),
            final(self).spec_pattern() == old(self).spec_pattern(),
            final(self).spec_colors() == old(self).spec_colors(),
            final(self).spec_last_parse() == record.spec_time_stamp(),
    {
        let t = to_local_date_time(record.time_stamp_nano(), offset_seconds);
        let now = record.time_stamp_nano();
        let elapsed = if now >= self.last_parse { now - self.last_parse } else { 0 };
        let s = if colored {
            let c = self.color.get_color(record.level());
            render(&self.pattern, record, &t, elapsed, Some(c))
        } else {
            render(&self.pattern, record, &t, elapsed, None)
        };
        self.last_parse = now;
        s
    }

    /// Renders a record, its time stamp taken in the UTC offset `offset_seconds` (the local
    /// offset of the machine), and remembers the record's time as the time of the last
    /// rendering. Colour range marks render as nothing.
    pub fn format(&mut self, record: &Record, offset_seconds: i32) -> (s: String)
        requires
            all_renderable(old(self).spec_pattern()),
            local_time_in_range(record.spec_time_stamp() as int, offset_seconds as int),
        ensures
            s@ == rendered(
                old(self).spec_pattern(),
                *record,
                local_date_time(record.spec_time_stamp() as int, offset_seconds as int),
                elapsed_since(record.spec_time_stamp() as int, old(self).spec_last_parse() as int),
                None,
            ),
            final(self).spec_pattern() == old(self).spec_pattern(),
            final(self).spec_colors() == old(self).spec_colors(),
            final(self).spec_last_parse() == record.spec_time_stamp(),
    {
        self.format_with(record, offset_seconds, false)
    }
}

} // verus!
