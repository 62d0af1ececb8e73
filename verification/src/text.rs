//! Text helpers: blank detection, decimal rendering and character replacement.

use vstd::prelude::*;

verus! {

/// `String::push`: appends the character to the end of the string.
pub assume_specification[ String::push ](s: &mut String, c: char)
    ensures
        final(s)@ == old(s)@.push(c),
;

/// The characters with the Unicode property `White_Space`.
pub open spec fn is_whitespace(c: char) -> bool {
    let u = c as u32;
    ||| 0x09 <= u <= 0x0D
    ||| u == 0x20
    ||| u == 0x85
    ||| u == 0xA0
    ||| u == 0x1680
    ||| 0x2000 <= u <= 0x200A
    ||| u == 0x2028
    ||| u == 0x2029
    ||| u == 0x202F
    ||| u == 0x205F
    ||| u == 0x3000
}

/// A text is blank when it holds nothing but whitespace; the empty text is blank.
pub open spec fn is_blank(s: Seq<char>) -> bool {
    forall|i: int| 0 <= i < s.len() ==> is_whitespace(#[trigger] s[i])
}

/// Whether a character is whitespace.
pub fn whitespace(c: char) -> (b: bool)
    ensures
        b == is_whitespace(c),
{
    let u: u32 = c as u32;
    (0x09 <= u && u <= 0x0D) || u == 0x20 || u == 0x85 || u == 0xA0 || u == 0x1680 || (0x2000 <= u
        && u <= 0x200A) || u == 0x2028 || u == 0x2029 || u == 0x202F || u == 0x205F || u == 0x3000
}

/// Whether a text holds nothing but whitespace.
pub fn blank(s: &str) -> (b: bool)
    ensures
        b == is_blank(s@),
{
    for c in it: s.chars()
        invariant
            it.seq() == s@,
            forall|i: int| 0 <= i < it.index() ==> is_whitespace(#[trigger] s@[i]),
    {
        if !whitespace(c) {
            return false;
        }
    }
    true
}

/// The character of one decimal digit.
pub open spec fn digit(d: nat) -> char {
    if d == 0 {
        '0'
    } else if d == 1 {
        '1'
    } else if d == 2 {
        '2'
    } else if d == 3 {
        '3'
    } else if d == 4 {
        '4'
    } else if d == 5 {
        '5'
    } else if d == 6 {
        '6'
    } else if d == 7 {
        '7'
    } else if d == 8 {
        '8'
    } else {
        '9'
    }
}

/// The decimal numeral of a natural number, without sign or padding.
pub open spec fn decimal(n: nat) -> Seq<char>
    decreases n,
{
    if n < 10 {
        seq![digit(n)]
    } else {
        decimal(n / 10).push(digit(n % 10))
    }
}

/// The decimal numeral of an integer, with `-` in front of a negative one.
pub open spec fn signed_decimal(i: int) -> Seq<char> {
    if i < 0 {
        seq!['-'] + decimal((-i) as nat)
    } else {
        decimal(i as nat)
    }
}

fn digit_char(d: u8) -> (c: char)
    requires
        d < 10,
    ensures
        c == digit(d as nat),
{
    if d == 0 {
        '0'
    } else if d == 1 {
        '1'
    } else if d == 2 {
        '2'
    } else if d == 3 {
        '3'
    } else if d == 4 {
        '4'
    } else if d == 5 {
        '5'
    } else if d == 6 {
        '6'
    } else if d == 7 {
        '7'
    } else if d == 8 {
        '8'
    } else {
        '9'
    }
}

/// Appends the decimal numeral of `n` to `out`.
pub fn push_decimal(out: &mut String, n: u128)
    ensures
        final(out)@ == old(out)@ + decimal(n as nat),
    decreases n,
{
    if n < 10 {
        out.push(digit_char(n as u8));
    } else {
        push_decimal(out, n / 10);
        out.push(digit_char((n % 10) as u8));
    }
}

/// Appends the decimal numeral of `i` to `out`, with its sign where it is negative.
pub fn push_signed_decimal(out: &mut String, i: i64)
    ensures
        final(out)@ == old(out)@ + signed_decimal(i as int),
{
    if i < 0 {
        out.push('-');
        let magnitude: u128 = (-(i as i128)) as u128;
        push_decimal(out, magnitude);
    } else {
        push_decimal(out, i as u128);
    }
}

/// `s` with `_` for each space and, where `hyphens_too` is set, for each hyphen.
pub open spec fn with_underscores(s: Seq<char>, hyphens_too: bool) -> Seq<char> {
    Seq::new(
        s.len(),
        |i: int|
            if s[i] == ' ' || (hyphens_too && s[i] == '-') {
                '_'
            } else {
                s[i]
            },
    )
}

/// Appends `s` to `out`, writing `_` for each space and, where `hyphens_too`
/// is set, for each hyphen.
pub fn push_underscored(out: &mut String, s: &str, hyphens_too: bool)
    ensures
        final(out)@ == old(out)@ + with_underscores(s@, hyphens_too),
{
    let ghost before = out@;
    for c in it: s.chars()
        invariant
            it.seq() == s@,
            out@ == before + with_underscores(s@, hyphens_too).take(it.index() as int),
    {
        if c == ' ' || (hyphens_too && c == '-') {
            out.push('_');
        } else {
            out.push(c);
        }
    }
    assert(with_underscores(s@, hyphens_too).take(s@.len() as int) == with_underscores(
        s@,
        hyphens_too,
    ));
}

} // verus!
