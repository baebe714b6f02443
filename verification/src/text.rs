//! Text building blocks: digits, decimal numbers, lines.

use vstd::prelude::*;

verus! {

/// `String::push` of the standard library: the string afterwards is the
/// string before with `c` at its end.
pub assume_specification[ String::push ](s: &mut String, c: char)
    ensures
        final(s)@ == old(s)@.push(c),
;

/// The character that writes the decimal digit `d`.
pub open spec fn digit_char(d: int) -> char {
    (48 + d) as char
}

/// The lower-case character that writes the hexadecimal digit `d`.
pub open spec fn hex_char(d: int) -> char {
    if d < 10 {
        (48 + d) as char
    } else {
        (87 + d) as char
    }
}

/// Whether `c` is a hexadecimal digit of either case.
pub open spec fn is_hex_digit(c: char) -> bool {
    ('0' <= c && c <= '9') || ('a' <= c && c <= 'f') || ('A' <= c && c <= 'F')
}

/// The number that the hexadecimal digit `c` writes.
pub open spec fn hex_value(c: char) -> int
    recommends
        is_hex_digit(c),
{
    if '0' <= c && c <= '9' {
        c as int - 48
    } else if 'a' <= c && c <= 'f' {
        c as int - 87
    } else {
        c as int - 55
    }
}

/// `c` with an upper-case ASCII letter turned into its lower-case form.
pub open spec fn lower(c: char) -> char {
    if 'A' <= c && c <= 'Z' {
        (c as int + 32) as char
    } else {
        c
    }
}

/// `text` with every upper-case ASCII letter turned into its lower-case form.
pub open spec fn lower_text(text: Seq<char>) -> Seq<char> {
    Seq::new(text.len(), |i: int| lower(text[i]))
}

/// The two lower-case hexadecimal digits of a byte.
pub open spec fn hex_pair(v: u8) -> Seq<char> {
    seq![hex_char(v as int / 16), hex_char(v as int % 16)]
}

/// The decimal form of `n`, without leading zeros.
pub open spec fn decimal(n: nat) -> Seq<char>
    decreases n,
{
    if n < 10 {
        seq![digit_char(n as int)]
    } else {
        decimal(n / 10).push(digit_char((n % 10) as int))
    }
}

/// The number that a text of decimal digits writes.
pub open spec fn decimal_value(digits: Seq<char>) -> nat
    decreases digits.len(),
{
    if digits.len() == 0 {
        0
    } else {
        (decimal_value(digits.drop_last()) * 10 + (digits.last() as int - 48)) as nat
    }
}

/// Whether every character of `digits` is a decimal digit.
pub open spec fn all_decimal(digits: Seq<char>) -> bool {
    forall|i: int| 0 <= i < digits.len() ==> '0' <= #[trigger] digits[i] && digits[i] <= '9'
}

/// The characters of a text, as a vector.
pub fn chars_of(s: &str) -> (v: Vec<char>)
    ensures
        v@ == s@,
{
    let mut v: Vec<char> = Vec::new();
    for c in it: s.chars()
        invariant
            it.seq() == s@,
            v@ == s@.take(it.index()),
    {
        v.push(c);
    }
    v
}

/// Whether two texts hold the same characters.
pub fn same_text(a: &str, b: &str) -> (r: bool)
    ensures
        r == (a@ == b@),
{
    let x = String::from_str(a);
    let y = String::from_str(b);
    x == y
}

/// Appends the two hexadecimal digits of `v`.
pub fn push_hex_pair(out: &mut String, v: u8)
    ensures
        final(out)@ == old(out)@ + hex_pair(v),
{
    let hi: u8 = v / 16;
    let lo: u8 = v % 16;
    out.push(hex_digit(hi));
    out.push(hex_digit(lo));
}

/// The lower-case hexadecimal digit for a number below sixteen.
pub fn hex_digit(d: u8) -> (c: char)
    requires
        d < 16,
    ensures
        c == hex_char(d as int),
{
    if d < 10 {
        (48 + d) as char
    } else {
        (87 + d) as char
    }
}

/// The number that a hexadecimal digit writes, `None` for any other character.
pub fn hex_digit_value(c: char) -> (r: Option<u8>)
    ensures
        r is Some <==> is_hex_digit(c),
        r matches Some(v) ==> v == hex_value(c) && v < 16,
{
    if c >= '0' && c <= '9' {
        Some((c as u32 - 48) as u8)
    } else if c >= 'a' && c <= 'f' {
        Some((c as u32 - 87) as u8)
    } else if c >= 'A' && c <= 'F' {
        Some((c as u32 - 55) as u8)
    } else {
        None
    }
}

/// Appends the decimal form of `n`.
pub fn push_decimal(out: &mut String, n: u8)
    ensures
        final(out)@ == old(out)@ + decimal(n as nat),
{
    reveal_with_fuel(decimal, 3);
    if n >= 100 {
        out.push((48 + n / 100) as char);
    }
    if n >= 10 {
        out.push((48 + (n / 10) % 10) as char);
    }
    out.push((48 + n % 10) as char);
}

/// The lines of a text: what stands between its line breaks. A text with
/// `n` line breaks has `n + 1` lines, the last of them empty where the text
/// ends in a line break.
pub open spec fn lines_of(text: Seq<char>) -> Seq<Seq<char>>
    decreases text.len(),
{
    if text.len() == 0 {
        seq![Seq::<char>::empty()]
    } else {
        let before = lines_of(text.drop_last());
        if text.last() == '\n' {
            before.push(Seq::<char>::empty())
        } else {
            before.update(before.len() - 1, before.last().push(text.last()))
        }
    }
}

/// The lines put together again, a line break between two.
pub open spec fn joined(lines: Seq<Seq<char>>) -> Seq<char>
    decreases lines.len(),
{
    if lines.len() == 0 {
        Seq::<char>::empty()
    } else if lines.len() == 1 {
        lines[0]
    } else {
        joined(lines.drop_last()) + seq!['\n'] + lines.last()
    }
}

/// The lines of a text hold no line break, and put together again they are
/// the text.
pub proof fn lemma_lines_of(text: Seq<char>)
    ensures
        lines_of(text).len() >= 1,
        joined(lines_of(text)) == text,
        forall|i: int, j: int|
            0 <= i < lines_of(text).len() && 0 <= j < lines_of(text)[i].len()
                ==> lines_of(text)[i][j] != '\n',
    decreases text.len(),
{
    if text.len() > 0 {
        let head = text.drop_last();
        let before = lines_of(head);
        let lines = lines_of(text);
        lemma_lines_of(head);
        if text.last() == '\n' {
            assert(lines.drop_last() =~= before);
        } else if lines.len() > 1 {
            assert(lines.drop_last() =~= before.drop_last());
            assert(joined(lines) =~= joined(before).push(text.last()));
        }
    }
}

/// Splits a text at its line breaks.
pub fn split_lines(text: &str) -> (lines: Vec<String>)
    ensures
        lines.deep_view() == lines_of(text@),
        lines.len() >= 1,
        joined(lines.deep_view()) == text@,
{
    let mut lines: Vec<String> = Vec::new();
    let mut current = String::new();
    for c in it: text.chars()
        invariant
            it.seq() == text@,
            lines.deep_view().push(current@) == lines_of(text@.take(it.index())),
    {
        let ghost k = it.index();
        assert(text@.take(k + 1).drop_last() == text@.take(k));
        if c == '\n' {
            lines.push(current);
            current = String::new();
        } else {
            current.push(c);
        }
    }
    assert(text@.take(text@.len() as int) == text@);
    lines.push(current);
    proof {
        lemma_lines_of(text@);
    }
    lines
}

} // verus!
