//! ANSI "select graphic rendition" escape sequences, such as `"\x1b[31;1m"`.

use crate::util::errors::{ParseError, ParseErrorKind};
use crate::fmt::render_laws::{lemma_padded_three, lemma_padded_two};
use crate::util::text::{dec, digit_char, padded, push_char, push_dec, str_to_chars};
use vstd::prelude::*;

verus! {

/// Whether `c` is a decimal digit, `'0'`..=`'9'`.
pub open spec fn is_code_digit(c: char) -> bool {
    '0' <= c <= '9'
}

/// The value of a digit character.
pub open spec fn code_digit(c: char) -> int {
    c as int - 48
}

pub open spec fn not_ansi(offset: int) -> ParseError {
    ParseError { kind: ParseErrorKind::NotANSI, offset: offset as usize }
}

/// Reads the number that starts at `i`: one to three digits, at most 255. On success gives the
/// number and the position after it; an error names `offset` when no digit stands at `i`, and
/// the third digit when the number would exceed 255.
pub open spec fn parse_number(s: Seq<char>, i: int, offset: int) -> Result<(u8, int), ParseError> {
    if !(0 <= i < s.len() && is_code_digit(s[i])) {
        Err(not_ansi(offset))
    } else if !(i + 1 < s.len() && is_code_digit(s[i + 1])) {
        Ok((code_digit(s[i]) as u8, i + 1))
    } else if !(i + 2 < s.len() && is_code_digit(s[i + 2])) {
        Ok((((10 * code_digit(s[i]) + code_digit(s[i + 1])) as u8), i + 2))
    } else {
        let v = 100 * code_digit(s[i]) + 10 * code_digit(s[i + 1]) + code_digit(s[i + 2]);
        if v > 255 {
            Err(not_ansi(i + 2))
        } else {
            Ok((v as u8, i + 3))
        }
    }
}

/// Parses the codes from position `i` on, after the leading escape character: each `'['` or
/// `';'` is followed by a number; an `'m'` must be the last character; the text may also end
/// without one.
pub open spec fn parse_codes(s: Seq<char>, i: int, acc: Seq<u8>) -> Result<Seq<u8>, ParseError>
    decreases s.len() - i,
{
    if i < 0 || i >= s.len() {
        Ok(acc)
    } else if s[i] == '[' || s[i] == ';' {
        match parse_number(s, i + 1, i) {
            Err(e) => Err(e),
            Ok((n, j)) => parse_codes(s, j, acc.push(n)),
        }
    } else if s[i] == 'm' {
        if i + 1 < s.len() {
            Err(not_ansi(i))
        } else {
            Ok(acc)
        }
    } else {
        Err(not_ansi(i))
    }
}

/// The codes of an escape sequence: it must start with the escape character `'\x1b'`.
pub open spec fn parse_ansi(s: Seq<char>) -> Result<Seq<u8>, ParseError> {
    if s.len() > 0 && s[0] == '\x1b' {
        parse_codes(s, 1, Seq::empty())
    } else {
        Err(not_ansi(0))
    }
}

/// `";n"` for each code of `a`, in order.
pub open spec fn render_rest(a: Seq<u8>) -> Seq<char>
    decreases a.len(),
{
    if a.len() == 0 {
        Seq::empty()
    } else {
        seq![';'] + dec(a[0] as nat) + render_rest(a.drop_first())
    }
}

proof fn lemma_render_rest_push(a: Seq<u8>, x: u8)
    ensures
        render_rest(a.push(x)) == render_rest(a) + seq![';'] + dec(x as nat),
    decreases a.len(),
{
    if a.len() == 0 {
        assert(a.push(x).drop_first() =~= Seq::<u8>::empty());
        assert(render_rest(a.push(x).drop_first()) == Seq::<char>::empty());
        assert(a.push(x)[0] == x);
        assert(render_rest(a) == Seq::<char>::empty());
        assert(render_rest(a.push(x)) =~= render_rest(a) + seq![';'] + dec(x as nat));
    } else {
        lemma_render_rest_push(a.drop_first(), x);
        assert(a.push(x).drop_first() =~= a.drop_first().push(x));
        assert(a.push(x)[0] == a[0]);
        assert(render_rest(a.push(x)) == seq![';'] + dec(a[0] as nat) + render_rest(a.drop_first().push(x)));
        assert(render_rest(a) == seq![';'] + dec(a[0] as nat) + render_rest(a.drop_first()));
        assert(render_rest(a.push(x)) =~= render_rest(a) + seq![';'] + dec(x as nat));
    }
}

proof fn lemma_digit_char(d: nat)
    requires
        d < 10,
    ensures
        is_code_digit(digit_char(d)),
        code_digit(digit_char(d)) == d,
{
}

proof fn lemma_dec_byte(n: nat)
    requires
        n <= 255,
    ensures
        n < 10 ==> dec(n) == seq![digit_char(n)],
        10 <= n < 100 ==> dec(n) == seq![digit_char(n / 10), digit_char(n % 10)],
        100 <= n ==> dec(n) == seq![digit_char(n / 100), digit_char((n / 10) % 10), digit_char(n % 10)],
{
    reveal_with_fuel(dec, 3);
    if 10 <= n < 100 {
        assert(dec(n / 10) == seq![digit_char(n / 10)]);
        assert(dec(n) =~= seq![digit_char(n / 10), digit_char(n % 10)]);
    } else if 100 <= n {
        assert(n / 10 / 10 == n / 100);
        assert(dec(n / 10 / 10) == seq![digit_char(n / 100)]);
        assert(dec(n / 10) =~= seq![digit_char(n / 100), digit_char((n / 10) % 10)]);
        assert(dec(n) =~= seq![digit_char(n / 100), digit_char((n / 10) % 10), digit_char(n % 10)]);
    }
}

/// A number written by the renderer is read back by the parser.
proof fn lemma_parse_dec(s: Seq<char>, i: int, offset: int, n: u8)
    requires
        0 <= i,
        i + dec(n as nat).len() <= s.len(),
        s.subrange(i, i + dec(n as nat).len()) == dec(n as nat),
        i + dec(n as nat).len() < s.len() ==> !is_code_digit(s[i + dec(n as nat).len()]),
    ensures
        parse_number(s, i, offset) == Ok::<(u8, int), ParseError>((n, i + dec(n as nat).len())),
{
    let m = n as nat;
    lemma_dec_byte(m);
    let d = dec(m);
    assert(forall|k: int| 0 <= k < d.len() ==> s[i + k] == #[trigger] d[k]) by {
        assert forall|k: int| 0 <= k < d.len() implies s[i + k] == #[trigger] d[k] by {
            assert(s.subrange(i, i + d.len())[k] == s[i + k]);
        }
    }
    if m < 10 {
        lemma_digit_char(m);
        assert(s[i] == d[0]);
    } else if m < 100 {
        lemma_digit_char(m / 10);
        lemma_digit_char(m % 10);
        assert(s[i] == d[0]);
        assert(s[i + 1] == d[1]);
    } else {
        lemma_digit_char(m / 100);
        lemma_digit_char((m / 10) % 10);
        lemma_digit_char(m % 10);
        assert(s[i] == d[0]);
        assert(s[i + 1] == d[1]);
        assert(s[i + 2] == d[2]);
        assert(100 * (m / 100) + 10 * ((m / 10) % 10) + m % 10 == m);
    }
}

proof fn lemma_parse_rest(s: Seq<char>, i: int, r: Seq<u8>, acc: Seq<u8>)
    requires
        0 <= i <= s.len(),
        s.subrange(i, s.len() as int) == render_rest(r) + seq!['m'],
    ensures
        parse_codes(s, i, acc) == Ok::<Seq<u8>, ParseError>(acc + r),
    decreases r.len(),
{
    if r.len() == 0 {
        assert(s.subrange(i, s.len() as int)[0] == 'm');
        assert(acc + r =~= acc);
    } else {
        let t = s.subrange(i, s.len() as int);
        let d = dec(r[0] as nat);
        let tail = render_rest(r.drop_first()) + seq!['m'];
        assert(t =~= seq![';'] + d + tail);
        assert(t[0] == ';');
        assert(s[i] == ';');
        crate::util::text::lemma_dec_len_pos(r[0] as nat);
        let j = i + 1 + d.len();
        assert(s.subrange(i + 1, j) =~= d) by {
            assert forall|k: int| 0 <= k < d.len() implies s.subrange(i + 1, j)[k] == d[k] by {
                assert(t[1 + k] == d[k]);
            }
        }
        assert(s.subrange(j, s.len() as int) =~= tail) by {
            assert forall|k: int| 0 <= k < tail.len() implies s.subrange(j, s.len() as int)[k] == tail[k] by {
                assert(t[1 + d.len() + k] == tail[k]);
            }
        }
        assert(tail[0] == ';' || tail[0] == 'm');
        assert(s[j] == tail[0]);
        lemma_parse_dec(s, i + 1, i, r[0]);
        lemma_parse_rest(s, j, r.drop_first(), acc.push(r[0]));
        assert(acc.push(r[0]) + r.drop_first() =~= acc + r);
    }
}

/// A code of at most 255 written with `w` digits, one to three, is read as its value whatever
/// its leading zeros (`"1"`, `"01"` and `"001"` are all 1), and the reading stops right after
/// those digits.
pub proof fn lemma_parse_number_padded(s: Seq<char>, i: int, offset: int, n: u8, w: nat)
    requires
        0 <= i,
        1 <= w <= 3,
        dec(n as nat).len() <= w,
        i + w <= s.len(),
        s.subrange(i, i + w) == padded(n as nat, w),
        i + w < s.len() ==> !is_code_digit(s[i + w]),
    ensures
        parse_number(s, i, offset) == Ok::<(u8, int), ParseError>((n, i + w)),
{
    let m = n as nat;
    lemma_dec_byte(m);
    lemma_digit_char(m / 100);
    lemma_digit_char((m / 10) % 10);
    lemma_digit_char(m % 10);
    assert(forall|k: int| 0 <= k < w ==> s[i + k] == #[trigger] padded(m, w)[k]) by {
        assert forall|k: int| 0 <= k < w implies s[i + k] == #[trigger] padded(m, w)[k] by {
            assert(s.subrange(i, i + w)[k] == s[i + k]);
        }
    }
    if w == 1 {
        assert(m < 10);
        lemma_digit_char(m);
        assert(padded(m, 1)[0] == digit_char(m));
    } else if w == 2 {
        assert(m < 100);
        lemma_padded_two(m);
        lemma_digit_char(m / 10);
        assert(s[i] == digit_char(m / 10));
        assert(s[i + 1] == digit_char(m % 10));
    } else {
        lemma_padded_three(m);
        assert(s[i] == digit_char(m / 100));
        assert(s[i + 1] == digit_char((m / 10) % 10));
        assert(s[i + 2] == digit_char(m % 10));
        assert(100 * (m / 100) + 10 * ((m / 10) % 10) + m % 10 == m);
    }
}

/// An escape sequence of one code written with leading zeros, such as `"\x1b[01m"`, has that
/// code.
pub proof fn lemma_parse_padded_code(n: u8, w: nat)
    requires
        1 <= w <= 3,
        dec(n as nat).len() <= w,
    ensures
        parse_ansi(seq!['\x1b', '['] + padded(n as nat, w) + seq!['m']) == Ok::<Seq<u8>, ParseError>(
            seq![n],
        ),
{
    let s = seq!['\x1b', '['] + padded(n as nat, w) + seq!['m'];
    assert(padded(n as nat, w).len() == w) by {
        if dec(n as nat).len() < w {
        }
    }
    assert(s.subrange(2, 2 + w as int) =~= padded(n as nat, w));
    assert(s[2 + w as int] == 'm');
    lemma_parse_number_padded(s, 2, 1, n, w);
    assert(s[1] == '[');
    assert(parse_codes(s, 2 + w as int, seq![n]) == Ok::<Seq<u8>, ParseError>(seq![n]));
    assert(Seq::<u8>::empty().push(n) =~= seq![n]);
}

/// Reading back the text of a non-empty escape sequence gives the same codes.
pub proof fn lemma_ansi_roundtrip(a: Seq<u8>)
    requires
        a.len() > 0,
    ensures
        parse_ansi(render_ansi(a)) == Ok::<Seq<u8>, ParseError>(a),
{
    let s = render_ansi(a);
    let d = dec(a[0] as nat);
    let tail = render_rest(a.drop_first()) + seq!['m'];
    assert(s =~= seq!['\x1b', '['] + d + tail);
    crate::util::text::lemma_dec_len_pos(a[0] as nat);
    let j: int = 2 + d.len() as int;
    assert(s.subrange(2, j) =~= d) by {
        assert forall|k: int| 0 <= k < d.len() implies s.subrange(2, j)[k] == d[k] by {
            assert(s[2 + k] == d[k]);
        }
    }
    assert(s.subrange(j, s.len() as int) =~= tail) by {
        assert forall|k: int| 0 <= k < tail.len() implies s.subrange(j, s.len() as int)[k] == tail[k] by {
            assert(s[j + k] == tail[k]);
        }
    }
    assert(tail[0] == ';' || tail[0] == 'm');
    assert(s[j] == tail[0]);
    assert(s[0] == '\x1b');
    assert(s[1] == '[');
    lemma_parse_dec(s, 2, 1, a[0]);
    lemma_parse_rest(s, j, a.drop_first(), seq![a[0]]);
    assert(seq![a[0]] + a.drop_first() =~= a);
}

/// The escape sequence of a list of codes: `"\x1b[a;b;...m"`, or nothing for no codes.
pub open spec fn render_ansi(a: Seq<u8>) -> Seq<char> {
    if a.len() == 0 {
        Seq::empty()
    } else {
        seq!['\x1b', '['] + dec(a[0] as nat) + render_rest(a.drop_first()) + seq!['m']
    }
}

/// An ANSI escape sequence, held as the list of its numeric codes.
#[derive(Debug, Clone, PartialEq, Eq, Default)]
#[allow(clippy::upper_case_acronyms)]
pub struct ANSI(Vec<u8>);

impl View for ANSI {
    type V = Seq<u8>;

    closed spec fn view(&self) -> Seq<u8> {
        self.0@
    }
}

impl ANSI {
    /// The sequence with the given codes.
    pub fn from_codes(codes: Vec<u8>) -> (a: Self)
        ensures
            a@ == codes@,
    {
        ANSI(codes)
    }

    /// The codes of the sequence.
    pub fn codes(&self) -> (c: &Vec<u8>)
        ensures
            c@ == self@,
    {
        &self.0
    }

    /// Reads the number at `i`, for the separator at `offset`.
    fn parse_num(s: &Vec<char>, i: usize, offset: usize) -> (r: Result<(u8, usize), ParseError>)
        requires
            offset < s.len(),
            i == offset + 1,
        ensures
            match r {
                Ok((n, j)) => parse_number(s@, i as int, offset as int) == Ok::<(u8, int), ParseError>((n, j as int)),
                Err(e) => parse_number(s@, i as int, offset as int) == Err::<(u8, int), ParseError>(e),
            },
    {
        let len = s.len();
        if !(i < len && Self::is_number(s[i])) {
            return Err(ParseError::new(ParseErrorKind::NotANSI, offset));
        }
        let mut res: u8 = Self::digit_value(s[i]);
        if !(i + 1 < len && Self::is_number(s[i + 1])) {
            return Ok((res, i + 1));
        }
        res = res * 10 + Self::digit_value(s[i + 1]);
        if !(i + 2 < len && Self::is_number(s[i + 2])) {
            return Ok((res, i + 2));
        }
        let d = Self::digit_value(s[i + 2]);
        if res > 25 || (res == 25 && d > 5) {
            return Err(ParseError::new(ParseErrorKind::NotANSI, i + 2));
        }
        res = res * 10 + d;
        Ok((res, i + 3))
    }

    fn is_number(c: char) -> (b: bool)
        ensures
            b == is_code_digit(c),
    {
        '0' <= c && c <= '9'
    }

    fn digit_value(c: char) -> (d: u8)
        requires
            is_code_digit(c),
        ensures
            d == code_digit(c),
            d < 10,
    {
        (c as u32 - 48) as u8
    }

    /// Parses an escape sequence such as `"\x1b[1;31m"` into its codes.
    pub fn parse(text: &str) -> (r: Result<Self, ParseError>)
        ensures
            match r {
                Ok(a) => parse_ansi(text@) == Ok::<Seq<u8>, ParseError>(a@),
                Err(e) => parse_ansi(text@) == Err::<Seq<u8>, ParseError>(e),
            },
    {
        let s = str_to_chars(text);
        if !(s.len() > 0 && s[0] == '\x1b') {
            return Err(ParseError::new(ParseErrorKind::NotANSI, 0));
        }
        let mut res: Vec<u8> = Vec::new();
        let mut i: usize = 1;
        while i < s.len()
            invariant_except_break
                1 <= i <= s.len(),
                s@ == text@,
                s@.len() > 0 && s@[0] == '\x1b',
                parse_ansi(s@) == parse_codes(s@, i as int, res@),
            ensures
                parse_ansi(s@) == Ok::<Seq<u8>, ParseError>(res@),
            decreases s.len() - i,
        {
            let c = s[i];
            if c == '[' || c == ';' {
                match Self::parse_num(&s, i + 1, i) {
                    Ok((n, j)) => {
                        res.push(n);
                        i = j;
                    },
                    Err(e) => {
                        return Err(e);
                    },
                }
            } else if c == 'm' {
                if i + 1 < s.len() {
                    return Err(ParseError::new(ParseErrorKind::NotANSI, i));
                }
                break;
            } else {
                return Err(ParseError::new(ParseErrorKind::NotANSI, i));
            }
        }
        Ok(ANSI(res))
    }

    /// The escape sequence as text: `"\x1b[a;b;...m"`, or the empty string for no codes.
    pub fn as_string(&self) -> (s: String)
        ensures
            s@ == render_ansi(self@),
    {
        let mut s = String::new();
        if self.0.len() == 0 {
            return s;
        }
        push_char(&mut s, '\x1b');
        push_char(&mut s, '[');
        push_dec(&mut s, self.0[0] as u128);
        let mut k: usize = 1;
        while k < self.0.len()
            invariant
                1 <= k <= self.0.len(),
                s@ == seq!['\x1b', '['] + dec(self.0@[0] as nat) + render_rest(self.0@.subrange(1, k as int)),
            decreases self.0.len() - k,
        {
            push_char(&mut s, ';');
            push_dec(&mut s, self.0[k] as u128);
            proof {
                lemma_render_rest_push(self.0@.subrange(1, k as int), self.0@[k as int]);
                assert(self.0@.subrange(1, k + 1) =~= self.0@.subrange(1, k as int).push(self.0@[k as int]));
            }
            k = k + 1;
        }
        push_char(&mut s, 'm');
        proof {
            assert(self.0@.subrange(1, self.0@.len() as int) =~= self.0@.drop_first());
        }
        s
    }
}

impl From<Vec<u8>> for ANSI {
    fn from(value: Vec<u8>) -> (a: Self)
        ensures
            a@ == value@,
    {
        ANSI(value)
    }
}

impl vstd::std_specs::convert::FromSpecImpl<Vec<u8>> for ANSI {
    open spec fn obeys_from_spec() -> bool {
        true
    }

    closed spec fn from_spec(v: Vec<u8>) -> Self {
        ANSI(v)
    }
}

impl std::str::FromStr for ANSI {
    type Err = ParseError;

    fn from_str(s: &str) -> (r: Result<Self, Self::Err>)
        ensures
            match r {
                Ok(a) => parse_ansi(s@) == Ok::<Seq<u8>, ParseError>(a@),
                Err(e) => parse_ansi(s@) == Err::<Seq<u8>, ParseError>(e),
            },
    {
        Self::parse(s)
    }
}

} // verus!
