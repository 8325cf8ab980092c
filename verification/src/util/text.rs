//! Character-level helpers shared by the parsers and renderers.
use vstd::prelude::*;
use vstd::std_specs::iter::IteratorSpec;

verus! {

/// Appends one character to a `String` (`String::push`).
#[verifier::external_body]
pub(crate) fn push_char(s: &mut String, c: char)
    ensures
        final(s)@ == old(s)@.push(c),
{
    s.push(c)
}

/// Collects the characters of a string slice, in order.
pub fn str_to_chars(s: &str) -> (v: Vec<char>)
    ensures
        v@ == s@,
{
    let mut v: Vec<char> = Vec::new();
    let mut it = s.chars();
    loop
        invariant
            it.remaining() == s@.skip(v.len() as int),
            v@ == s@.take(v.len() as int),
            v.len() <= s@.len(),
        ensures
            v@ == s@,
        decreases s@.len() - v.len(),
    {
        match it.next() {
            Some(c) => {
                v.push(c);
            }
            None => {
                return v;
            }
        }
    }
}


/// Appends a string slice to a `String`.
pub fn push_str(s: &mut String, t: &str)
    ensures
        final(s)@ == old(s)@ + t@,
{
    s.append(t);
}

/// The character at a position of a sequence, as a value of the `char` type.
pub proof fn char_at(s: Seq<char>, i: int) -> (c: char)
    requires
        0 <= i < s.len(),
    ensures
        c == s[i],
{
    s[i]
}

/// The character of a decimal digit.
pub open spec fn digit_char(d: nat) -> char
    recommends
        d < 10,
{
    (d + 48) as char
}

/// The decimal rendering of a natural number, without leading zeros.
pub open spec fn dec(n: nat) -> Seq<char>
    decreases n,
{
    if n < 10 {
        seq![digit_char(n)]
    } else {
        dec(n / 10).push(digit_char(n % 10))
    }
}

/// `n` in decimal, padded on the left with `'0'` to at least `width` characters.
pub open spec fn padded(n: nat, width: nat) -> Seq<char> {
    let d = dec(n);
    if d.len() < width {
        Seq::new((width - d.len()) as nat, |_i: int| '0') + d
    } else {
        d
    }
}

/// A signed number in decimal: a `'-'` before the magnitude of a negative one.
pub open spec fn dec_int(n: int) -> Seq<char> {
    if n < 0 {
        seq!['-'] + dec((-n) as nat)
    } else {
        dec(n as nat)
    }
}

/// A signed number whose magnitude is padded to `width` digits.
pub open spec fn padded_int(n: int, width: nat) -> Seq<char> {
    if n < 0 {
        seq!['-'] + padded((-n) as nat, width)
    } else {
        padded(n as nat, width)
    }
}

/// Every number has at least one decimal digit.
pub proof fn lemma_dec_len_pos(n: nat)
    ensures
        dec(n).len() >= 1,
    decreases n,
{
    if n >= 10 {
        lemma_dec_len_pos(n / 10);
    }
}

fn digit(d: u128) -> (c: char)
    requires
        d < 10,
    ensures
        c == digit_char(d as nat),
{
    if d == 0 { '0' } else if d == 1 { '1' } else if d == 2 { '2' } else if d == 3 { '3' }
    else if d == 4 { '4' } else if d == 5 { '5' } else if d == 6 { '6' } else if d == 7 { '7' }
    else if d == 8 { '8' } else { '9' }
}

/// Appends `n` in decimal.
pub fn push_dec(s: &mut String, n: u128)
    ensures
        final(s)@ == old(s)@ + dec(n as nat),
    decreases n,
{
    if n >= 10 {
        push_dec(s, n / 10);
    }
    push_char(s, digit(n % 10));
    proof {
        assert(final(s)@ == old(s)@ + dec(n as nat));
    }
}

/// Appends `n` in decimal, padded with `'0'` to at least `width` characters.
pub fn push_padded(s: &mut String, n: u128, width: usize)
    ensures
        final(s)@ == old(s)@ + padded(n as nat, width as nat),
{
    let ghost d = dec(n as nat);
    let mut len: u128 = 1;
    let mut m = n;
    // count the digits of n
    while m >= 10
        invariant
            1 <= len,
            m <= n,
            len - 1 <= n - m,
            dec(n as nat).len() == dec(m as nat).len() + len - 1,
        decreases m,
    {
        m = m / 10;
        len = len + 1;
    }
    let ghost start = s@;
    let mut k = len;
    while k < width as u128
        invariant
            len <= k <= width || (k == len && len >= width),
            s@ == start + Seq::new((k - len) as nat, |_i: int| '0'),
        decreases width - k,
    {
        push_char(s, '0');
        k = k + 1;
        proof {
            assert(s@ =~= start + Seq::new((k - len) as nat, |_i: int| '0'));
        }
    }
    push_dec(s, n);
    proof {
        assert(dec(n as nat).len() == len);
        if len < width {
            assert(s@ =~= start + padded(n as nat, width as nat));
        } else {
            assert(Seq::new((k - len) as nat, |_i: int| '0') =~= Seq::<char>::empty());
            assert(s@ =~= start + padded(n as nat, width as nat));
        }
    }
}

/// Appends `n` in decimal, with a `'-'` before a negative number.
pub fn push_dec_i64(s: &mut String, n: i64)
    ensures
        final(s)@ == old(s)@ + dec_int(n as int),
{
    if n < 0 {
        push_char(s, '-');
        let m: u128 = (0i128 - n as i128) as u128;
        push_dec(s, m);
        proof {
            assert(final(s)@ =~= old(s)@ + dec_int(n as int));
        }
    } else {
        push_dec(s, n as u128);
    }
}

/// Appends `n` padded to `width` digits, with a `'-'` before a negative number.
pub fn push_padded_i64(s: &mut String, n: i64, width: usize)
    ensures
        final(s)@ == old(s)@ + padded_int(n as int, width as nat),
{
    if n < 0 {
        push_char(s, '-');
        let m: u128 = (0i128 - n as i128) as u128;
        push_padded(s, m, width);
        proof {
            assert(final(s)@ =~= old(s)@ + padded_int(n as int, width as nat));
        }
    } else {
        push_padded(s, n as u128, width);
    }
}

} // verus!
