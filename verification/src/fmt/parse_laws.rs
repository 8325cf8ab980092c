//! Facts about what the pattern parser produces.

use crate::fmt::parse::{
    default_pattern, parse_pattern, parse_pattern_from, pattern_of, standard_date_time, PatternCharacter,
};
use crate::util::errors::ParseError;
use crate::util::text::char_at;
use vstd::prelude::*;

verus! {

/// Whether the parser can produce a pattern character.
pub open spec fn produced_by_parser(c: PatternCharacter) -> bool {
    c != PatternCharacter::Void && c != PatternCharacter::DefaultFormat && c
        != PatternCharacter::StandardDateTime
}

/// Whether a pattern holds only characters that the parser can produce: no `Void`, and no
/// unexpanded `DefaultFormat` or `StandardDateTime`.
pub open spec fn parsed_form(p: Seq<PatternCharacter>) -> bool {
    forall|k: int| 0 <= k < p.len() ==> produced_by_parser(#[trigger] p[k])
}

proof fn lemma_parsed_form_append(acc: Seq<PatternCharacter>, more: Seq<PatternCharacter>)
    requires
        parsed_form(acc),
        parsed_form(more),
    ensures
        parsed_form(acc + more),
{
    let next = acc + more;
    assert forall|k: int| 0 <= k < next.len() implies produced_by_parser(#[trigger] next[k]) by {
        if k < acc.len() {
            assert(next[k] == acc[k]);
        } else {
            assert(next[k] == more[k - acc.len()]);
        }
    }
}

proof fn lemma_parsed_form_push(acc: Seq<PatternCharacter>, x: PatternCharacter)
    requires
        parsed_form(acc),
        produced_by_parser(x),
    ensures
        parsed_form(acc.push(x)),
{
    let next = acc.push(x);
    assert forall|k: int| 0 <= k < next.len() implies produced_by_parser(#[trigger] next[k]) by {
        if k < acc.len() {
            assert(next[k] == acc[k]);
        }
    }
}

proof fn lemma_parse_from_parsed_form(s: Seq<char>, i: int, acc: Seq<PatternCharacter>)
    requires
        parsed_form(acc),
    ensures
        parse_pattern_from(s, i, acc) matches Ok(p) ==> parsed_form(p),
    decreases s.len() - i,
{
    if i < 0 || i >= s.len() {
    } else if s[i] == '%' && i + 1 >= s.len() {
    } else if s[i] == '%' {
        let p = pattern_of(s[i + 1]);
        if p == PatternCharacter::Void {
        } else if p == PatternCharacter::DefaultFormat {
            lemma_parsed_form_append(acc, default_pattern());
            lemma_parse_from_parsed_form(s, i + 2, acc + default_pattern());
        } else if p == PatternCharacter::StandardDateTime {
            lemma_parsed_form_append(acc, standard_date_time());
            lemma_parse_from_parsed_form(s, i + 2, acc + standard_date_time());
        } else {
            lemma_parsed_form_push(acc, p);
            lemma_parse_from_parsed_form(s, i + 2, acc.push(p));
        }
    } else {
        let c = char_at(s, i);
        lemma_parsed_form_push(acc, PatternCharacter::Literal(c));
        lemma_parse_from_parsed_form(s, i + 1, acc.push(PatternCharacter::Literal(c)));
    }
}

/// A parsed pattern holds no `Void`, no `DefaultFormat` and no `StandardDateTime`: `%+` is always
/// expanded into the default pattern and `%c` into the standard date and time.
pub proof fn lemma_parsed_pattern_form(s: Seq<char>)
    ensures
        parse_pattern(s) matches Ok(p) ==> parsed_form(p),
{
    lemma_parse_from_parsed_form(s, 0, Seq::empty());
}

/// The literal pattern of a text: each character stands for itself.
pub open spec fn literal_pattern(s: Seq<char>) -> Seq<PatternCharacter>
    decreases s.len(),
{
    if s.len() == 0 {
        Seq::empty()
    } else {
        seq![PatternCharacter::Literal(s[0])] + literal_pattern(s.drop_first())
    }
}

proof fn lemma_push_then_concat(acc: Seq<PatternCharacter>, x: PatternCharacter, r: Seq<PatternCharacter>)
    ensures
        acc.push(x) + r == acc + (seq![x] + r),
{
    assert(acc.push(x) + r =~= acc + (seq![x] + r));
}

proof fn lemma_parse_from_literal(s: Seq<char>, i: int, acc: Seq<PatternCharacter>)
    requires
        0 <= i <= s.len(),
        !s.contains('%'),
    ensures
        parse_pattern_from(s, i, acc) == Ok::<Seq<PatternCharacter>, ParseError>(
            acc + literal_pattern(s.subrange(i, s.len() as int)),
        ),
    decreases s.len() - i,
{
    let t = s.subrange(i, s.len() as int);
    if i == s.len() {
        assert(t.len() == 0);
        assert(acc + literal_pattern(t) =~= acc);
    } else {
        assert(s[i] != '%') by {
            if s[i] == '%' {
                assert(s.contains('%'));
            }
        }
        let c = char_at(s, i);
        lemma_parse_from_literal(s, i + 1, acc.push(PatternCharacter::Literal(c)));
        assert(t[0] == c);
        assert(t.drop_first() =~= s.subrange(i + 1, s.len() as int));
        lemma_push_then_concat(acc, PatternCharacter::Literal(c), literal_pattern(s.subrange(i + 1, s.len() as int)));
        assert(literal_pattern(t) == seq![PatternCharacter::Literal(c)] + literal_pattern(t.drop_first()));
    }
}

/// A pattern string without `%` parses to its characters, each standing for itself.
pub proof fn lemma_parse_literal_text(s: Seq<char>)
    requires
        !s.contains('%'),
    ensures
        parse_pattern(s) == Ok::<Seq<PatternCharacter>, ParseError>(literal_pattern(s)),
{
    lemma_parse_from_literal(s, 0, Seq::empty());
    assert(s.subrange(0, s.len() as int) =~= s);
    assert(Seq::<PatternCharacter>::empty() + literal_pattern(s) =~= literal_pattern(s));
}

/// What the parser gives from position `i` with `acc` already parsed: `acc` followed by what it
/// gives from `i` with nothing parsed before.
proof fn lemma_parse_acc(s: Seq<char>, i: int, acc: Seq<PatternCharacter>)
    ensures
        parse_pattern_from(s, i, acc) == (match parse_pattern_from(s, i, Seq::empty()) {
            Ok(r) => Ok::<Seq<PatternCharacter>, ParseError>(acc + r),
            Err(e) => Err(e),
        }),
    decreases s.len() - i,
{
    let e = Seq::<PatternCharacter>::empty();
    if i < 0 || i >= s.len() {
        assert(acc + e =~= acc);
    } else if s[i] == '%' && i + 1 >= s.len() {
    } else if s[i] == '%' {
        let p = pattern_of(s[i + 1]);
        if p == PatternCharacter::Void {
        } else {
            let x = if p == PatternCharacter::DefaultFormat {
                default_pattern()
            } else if p == PatternCharacter::StandardDateTime {
                standard_date_time()
            } else {
                seq![p]
            };
            assert(acc + x =~= (if p == PatternCharacter::DefaultFormat || p == PatternCharacter::StandardDateTime {
                acc + x
            } else {
                acc.push(p)
            }));
            assert(e + x =~= x);
            assert(e + x =~= (if p == PatternCharacter::DefaultFormat || p == PatternCharacter::StandardDateTime {
                e + x
            } else {
                e.push(p)
            }));
            assert(parse_pattern_from(s, i, acc) == parse_pattern_from(s, i + 2, acc + x));
            assert(parse_pattern_from(s, i, e) == parse_pattern_from(s, i + 2, x));
            lemma_parse_acc(s, i + 2, acc + x);
            lemma_parse_acc(s, i + 2, x);
            if let Ok(r) = parse_pattern_from(s, i + 2, e) {
                assert((acc + x) + r =~= acc + (x + r));
            }
        }
    } else {
        let c = char_at(s, i);
        let x = seq![PatternCharacter::Literal(c)];
        assert(acc.push(PatternCharacter::Literal(c)) =~= acc + x);
        assert(e.push(PatternCharacter::Literal(c)) =~= x);
        lemma_parse_acc(s, i + 1, acc + x);
        lemma_parse_acc(s, i + 1, x);
        if let Ok(r) = parse_pattern_from(s, i + 1, e) {
            assert((acc + x) + r =~= acc + (x + r));
        }
    }
}

/// Parsing the tail `b` of `a + b` from a position in `b` succeeds as parsing `b` alone does.
proof fn lemma_parse_in_tail(a: Seq<char>, b: Seq<char>, j: int, acc: Seq<PatternCharacter>)
    requires
        0 <= j,
    ensures
        parse_pattern_from(b, j, acc) is Ok ==> parse_pattern_from(a + b, a.len() + j, acc)
            == parse_pattern_from(b, j, acc),
    decreases b.len() - j,
{
    let s = a + b;
    let i = a.len() + j;
    if j >= b.len() {
    } else {
        assert(s[i] == b[j]);
        if b[j] == '%' && j + 1 < b.len() {
            assert(s[i + 1] == b[j + 1]);
            let p = pattern_of(b[j + 1]);
            if p == PatternCharacter::DefaultFormat {
                lemma_parse_in_tail(a, b, j + 2, acc + default_pattern());
            } else if p == PatternCharacter::StandardDateTime {
                lemma_parse_in_tail(a, b, j + 2, acc + standard_date_time());
            } else if p != PatternCharacter::Void {
                lemma_parse_in_tail(a, b, j + 2, acc.push(p));
            }
        } else if b[j] != '%' {
            let c = char_at(b, j);
            assert(s[i] == c);
            lemma_parse_in_tail(a, b, j + 1, acc.push(PatternCharacter::Literal(c)));
            assert(parse_pattern_from(b, j, acc) == parse_pattern_from(b, j + 1, acc.push(PatternCharacter::Literal(c))));
            assert(parse_pattern_from(s, i, acc) == parse_pattern_from(s, i + 1, acc.push(PatternCharacter::Literal(c))));
        }
    }
}

/// Parsing the head `a` of `a + b` goes as parsing `a` alone does, when that succeeds.
proof fn lemma_parse_in_head(a: Seq<char>, b: Seq<char>, i: int, acc: Seq<PatternCharacter>)
    requires
        0 <= i <= a.len(),
    ensures
        parse_pattern_from(a, i, acc) matches Ok(x) ==> parse_pattern_from(a + b, i, acc)
            == parse_pattern_from(a + b, a.len() as int, x),
    decreases a.len() - i,
{
    let s = a + b;
    if i == a.len() {
    } else {
        assert(s[i] == a[i]);
        if a[i] == '%' && i + 1 < a.len() {
            assert(s[i + 1] == a[i + 1]);
            let p = pattern_of(a[i + 1]);
            if p == PatternCharacter::DefaultFormat {
                lemma_parse_in_head(a, b, i + 2, acc + default_pattern());
            } else if p == PatternCharacter::StandardDateTime {
                lemma_parse_in_head(a, b, i + 2, acc + standard_date_time());
            } else if p != PatternCharacter::Void {
                lemma_parse_in_head(a, b, i + 2, acc.push(p));
            }
        } else if a[i] != '%' {
            let c = char_at(a, i);
            assert(s[i] == c);
            lemma_parse_in_head(a, b, i + 1, acc.push(PatternCharacter::Literal(c)));
            assert(parse_pattern_from(a, i, acc) == parse_pattern_from(a, i + 1, acc.push(PatternCharacter::Literal(c))));
            assert(parse_pattern_from(s, i, acc) == parse_pattern_from(s, i + 1, acc.push(PatternCharacter::Literal(c))));
        }
    }
}

/// Two pattern strings that parse give, one after the other, the two patterns one after the
/// other. (A string that ends in a lone `%` does not parse.)
pub proof fn lemma_parse_concat(a: Seq<char>, b: Seq<char>)
    requires
        parse_pattern(a) is Ok,
        parse_pattern(b) is Ok,
    ensures
        parse_pattern(a + b) == Ok::<Seq<PatternCharacter>, ParseError>(
            parse_pattern(a)->Ok_0 + parse_pattern(b)->Ok_0,
        ),
{
    let x = parse_pattern(a)->Ok_0;
    let y = parse_pattern(b)->Ok_0;
    lemma_parse_in_head(a, b, 0, Seq::empty());
    lemma_parse_acc(b, 0, x);
    lemma_parse_in_tail(a, b, 0, x);
}

/// What each character after a `%` stands for, as the placeholder table documents it; every
/// other character stands for nothing.
pub proof fn lemma_pattern_table(c: char)
    ensures
        pattern_of('v') == PatternCharacter::Message,
        pattern_of('n') == PatternCharacter::LoggerName,
        pattern_of('l') == PatternCharacter::LevelLower,
        pattern_of('L') == PatternCharacter::LevelUpper,
        pattern_of('t') == PatternCharacter::ThreadId,
        pattern_of('P') == PatternCharacter::ProcessId,
        pattern_of('@') == PatternCharacter::SourceLocation,
        pattern_of('s') == PatternCharacter::SourceFile,
        pattern_of('g') == PatternCharacter::SourceShortFile,
        pattern_of('#') == PatternCharacter::Line,
        pattern_of('!') == PatternCharacter::FuncName,
        pattern_of('Y') == PatternCharacter::Year4,
        pattern_of('y') == PatternCharacter::Year2,
        pattern_of('m') == PatternCharacter::Month,
        pattern_of('d') == PatternCharacter::Day,
        pattern_of('H') == PatternCharacter::Hour24,
        pattern_of('I') == PatternCharacter::Hour12,
        pattern_of('M') == PatternCharacter::Minute,
        pattern_of('S') == PatternCharacter::Second,
        pattern_of('e') == PatternCharacter::Millisecond,
        pattern_of('f') == PatternCharacter::Microsecond,
        pattern_of('F') == PatternCharacter::Nanosecond,
        pattern_of('p') == PatternCharacter::AMPM,
        pattern_of('z') == PatternCharacter::TimezoneOffset,
        pattern_of('E') == PatternCharacter::UnixTimestamp,
        pattern_of('c') == PatternCharacter::StandardDateTime,
        pattern_of('i') == PatternCharacter::ElapsedMicroseconds,
        pattern_of('u') == PatternCharacter::ElapsedNanoseconds,
        pattern_of('^') == PatternCharacter::StartColorRange,
        pattern_of('$') == PatternCharacter::StopColorRange,
        pattern_of('%') == PatternCharacter::Literal('%'),
        pattern_of('&') == PatternCharacter::AllMappedDiagnosticContext,
        pattern_of('+') == PatternCharacter::DefaultFormat,
        !"vnlLtP@sg#!YymdHIMSefFpzEciu^$%&+"@.contains(c) ==> pattern_of(c) == PatternCharacter::Void,
{
    reveal_strlit("vnlLtP@sg#!YymdHIMSefFpzEciu^$%&+");
    if !"vnlLtP@sg#!YymdHIMSefFpzEciu^$%&+"@.contains(c) {
        let t = "vnlLtP@sg#!YymdHIMSefFpzEciu^$%&+"@;
        assert(t[0] == 'v' && t[1] == 'n' && t[2] == 'l' && t[3] == 'L' && t[4] == 't');
        assert(t[5] == 'P' && t[6] == '@' && t[7] == 's' && t[8] == 'g' && t[9] == '#');
        assert(t[10] == '!' && t[11] == 'Y' && t[12] == 'y' && t[13] == 'm' && t[14] == 'd');
        assert(t[15] == 'H' && t[16] == 'I' && t[17] == 'M' && t[18] == 'S' && t[19] == 'e');
        assert(t[20] == 'f' && t[21] == 'F' && t[22] == 'p' && t[23] == 'z' && t[24] == 'E');
        assert(t[25] == 'c' && t[26] == 'i' && t[27] == 'u' && t[28] == '^' && t[29] == '$');
        assert(t[30] == '%' && t[31] == '&' && t[32] == '+');
        assert(c != 'v' && c != 'n' && c != 'l' && c != 'L' && c != 't' && c != 'P' && c != '@'
            && c != 's' && c != 'g' && c != '#' && c != '!' && c != 'Y' && c != 'y' && c != 'm'
            && c != 'd' && c != 'H' && c != 'I' && c != 'M' && c != 'S' && c != 'e' && c != 'f'
            && c != 'F' && c != 'p' && c != 'z' && c != 'E' && c != 'c' && c != 'i' && c != 'u'
            && c != '^' && c != '$' && c != '%' && c != '&' && c != '+');
    }
}

/// A `%` followed by a character that stands for a single pattern character parses to that
/// pattern character alone; `%+` and `%c` parse to the default pattern and the standard date
/// and time; any other character is an error at its offset.
pub proof fn lemma_parse_single(c: char)
    ensures
        parse_pattern(seq!['%', c]) == (if pattern_of(c) == PatternCharacter::Void {
            Err::<Seq<PatternCharacter>, ParseError>(ParseError { kind: crate::util::errors::ParseErrorKind::UnexpectedPattern(c), offset: 1 })
        } else if pattern_of(c) == PatternCharacter::DefaultFormat {
            Ok(default_pattern())
        } else if pattern_of(c) == PatternCharacter::StandardDateTime {
            Ok(standard_date_time())
        } else {
            Ok(seq![pattern_of(c)])
        }),
{
    let s = seq!['%', c];
    let e = Seq::<PatternCharacter>::empty();
    assert(s[0] == '%' && s[1] == c);
    assert(e + default_pattern() =~= default_pattern());
    assert(e + standard_date_time() =~= standard_date_time());
    assert(e.push(pattern_of(c)) =~= seq![pattern_of(c)]);
    let p = pattern_of(c);
    if p == PatternCharacter::Void {
        assert(parse_pattern(s) == parse_pattern_from(s, 0, e));
    } else if p == PatternCharacter::DefaultFormat {
        assert(parse_pattern_from(s, 0, e) == parse_pattern_from(s, 2, e + default_pattern()));
    } else if p == PatternCharacter::StandardDateTime {
        assert(parse_pattern_from(s, 0, e) == parse_pattern_from(s, 2, e + standard_date_time()));
    } else {
        assert(parse_pattern_from(s, 0, e) == parse_pattern_from(s, 2, e.push(p)));
    }
}

} // verus!
