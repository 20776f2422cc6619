//! Text: numbers in decimal, padding, joining, letter case and searching.

use vstd::prelude::*;

verus! {

/// `String::push` appends one character to the end of the string.
pub assume_specification[ String::push ](s: &mut String, c: char)
    ensures
        final(s)@ == old(s)@.push(c),
;

/// `String::pop` takes the last character off and returns it; an empty string stays as it is and
/// gives `None`.
pub assume_specification[ String::pop ](s: &mut String) -> (r: Option<char>)
    ensures
        old(s)@.len() == 0 ==> r is None && final(s)@ == old(s)@,
        old(s)@.len() > 0 ==> r == Some(old(s)@.last()) && final(s)@ == old(s)@.drop_last(),
;

/// The character of the digit `d`.
pub open spec fn digit_char(d: int) -> char {
    (48 + d) as char
}

/// The decimal digits of `n`, most significant first, without leading zeros.
pub open spec fn decimal_text(n: nat) -> Seq<char>
    decreases n,
{
    if n < 10 {
        seq![digit_char(n as int)]
    } else {
        decimal_text(n / 10).push(digit_char((n % 10) as int))
    }
}

/// Writes `n` in decimal.
pub fn decimal(n: u64) -> (r: String)
    ensures
        r@ == decimal_text(n as nat),
    decreases n,
{
    let mut text = if n < 10 {
        String::new()
    } else {
        decimal(n / 10)
    };
    text.push((48 + (n % 10) as u8) as char);
    text
}

/// `n` in decimal with a leading zero where it has one digit only.
pub open spec fn two_digit_text(n: nat) -> Seq<char> {
    if n < 10 {
        seq!['0'] + decimal_text(n)
    } else {
        decimal_text(n)
    }
}

/// Writes `n` with at least two digits.
pub fn two_digits(n: u64) -> (r: String)
    ensures
        r@ == two_digit_text(n as nat),
{
    if n < 10 {
        let mut text = String::new();
        text.push('0');
        text.append(decimal(n).as_str());
        assert(text@ =~= two_digit_text(n as nat));
        text
    } else {
        decimal(n)
    }
}

/// A time in seconds as days, hours, minutes and seconds.
pub open spec fn uptime_text(seconds: u64) -> Seq<char> {
    two_digit_text((seconds / 86400) as nat) + "d "@ + two_digit_text(
        (seconds % 86400 / 3600) as nat,
    ) + "h "@ + two_digit_text((seconds % 3600 / 60) as nat) + "m "@ + two_digit_text(
        (seconds % 60) as nat,
    ) + "s"@
}

/// Writes a time in seconds as days, hours, minutes and seconds.
pub fn uptime(seconds: u64) -> (r: String)
    ensures
        r@ == uptime_text(seconds),
{
    let mut text = two_digits(seconds / 86400);
    text.append("d ");
    text.append(two_digits(seconds % 86400 / 3600).as_str());
    text.append("h ");
    text.append(two_digits(seconds % 3600 / 60).as_str());
    text.append("m ");
    text.append(two_digits(seconds % 60).as_str());
    text.append("s");
    text
}

/// `text` with spaces in front, `width` characters long unless it is longer by itself.
pub open spec fn padded(text: Seq<char>, width: nat) -> Seq<char> {
    if text.len() >= width {
        text
    } else {
        Seq::new((width - text.len()) as nat, |i: int| ' ') + text
    }
}

/// Pads `text` with spaces in front to `width` characters.
pub fn pad_left(text: &str, width: usize) -> (r: String)
    ensures
        r@ == padded(text@, width as nat),
{
    let len: usize = text.unicode_len();
    let mut out = String::new();
    let mut n: usize = len;
    while n < width
        invariant
            len == text@.len(),
            len <= n,
            len <= width ==> n <= width,
            len > width ==> n == len,
            out@ == Seq::new((n - len) as nat, |i: int| ' '),
        decreases width - n,
    {
        out.push(' ');
        n += 1;
        assert(out@ =~= Seq::new((n - len) as nat, |i: int| ' '));
    }
    out.append(text);
    assert(out@ =~= padded(text@, width as nat));
    out
}

/// `parts` one after the other, with `separator` between any two.
pub open spec fn joined(parts: Seq<String>, separator: Seq<char>) -> Seq<char>
    decreases parts.len(),
{
    if parts.len() == 0 {
        seq![]
    } else if parts.len() == 1 {
        parts[0]@
    } else {
        joined(parts.drop_last(), separator) + separator + parts.last()@
    }
}

/// Joins `parts` with `separator` between any two.
pub fn join(parts: &Vec<String>, separator: &str) -> (r: String)
    ensures
        r@ == joined(parts@, separator@),
{
    let mut text = String::new();
    let mut i: usize = 0;
    while i < parts.len()
        invariant
            i <= parts.len(),
            text@ == joined(parts@.take(i as int), separator@),
        decreases parts.len() - i,
    {
        if i > 0 {
            text.append(separator);
        }
        text.append(parts[i].as_str());
        i += 1;
        proof {
            assert(parts@.take(i as int).drop_last() =~= parts@.take(i - 1));
            assert(text@ =~= joined(parts@.take(i as int), separator@));
        }
    }
    assert(parts@.take(i as int) =~= parts@);
    text
}

/// `part` stands somewhere in `text`.
pub open spec fn contains_text(text: Seq<char>, part: Seq<char>) -> bool {
    exists|i: int|
        0 <= i <= text.len() - part.len() && #[trigger] text.subrange(i, i + part.len()) == part
}

/// `str::contains` with a string as the pattern: whether the pattern matches a piece of the text.
#[verifier::external_body]
pub(crate) fn has_part(text: &str, part: &str) -> (r: bool)
    ensures
        r == contains_text(text@, part@),
{
    text.contains(part)
}

/// What `str::to_lowercase` makes of a text, by the rules of Unicode.
pub uninterp spec fn lowercase(text: Seq<char>) -> Seq<char>;

/// The lower case of an ASCII character.
pub open spec fn ascii_lower(c: char) -> char {
    if 'A' <= c && c <= 'Z' {
        (c as u32 + 32) as char
    } else {
        c
    }
}

/// Every character of `text` is ASCII.
pub open spec fn all_ascii(text: Seq<char>) -> bool {
    forall|i: int| 0 <= i < text.len() ==> (#[trigger] text[i] as u32) < 128
}

/// `str::to_lowercase`: the text in lower case. In an ASCII text only the letters A to Z change,
/// each to its small letter.
#[verifier::external_body]
pub(crate) fn to_lowercase(text: &str) -> (r: String)
    ensures
        r@ == lowercase(text@),
        all_ascii(text@) ==> r@ == text@.map_values(|c: char| ascii_lower(c)),
{
    text.to_lowercase()
}

/// `c` is one of the digits 0 to 9.
pub open spec fn is_digit(c: char) -> bool {
    '0' <= c && c <= '9'
}

/// Every character of `text` is a digit.
pub open spec fn all_digits(text: Seq<char>) -> bool {
    forall|i: int| 0 <= i < text.len() ==> is_digit(#[trigger] text[i])
}

/// The number that the digits of `text` write.
pub open spec fn digits_value(text: Seq<char>) -> int
    decreases text.len(),
{
    if text.len() == 0 {
        0
    } else {
        digits_value(text.drop_last()) * 10 + (text.last() as int - 48)
    }
}

/// `text` without a plus sign in front of something.
pub open spec fn unsigned_part(text: Seq<char>) -> Seq<char> {
    if text.len() > 1 && text[0] == '+' {
        text.skip(1)
    } else {
        text
    }
}

/// The `u32` that `text` writes: digits, at least one, perhaps after a plus sign, of a value that
/// fits.
pub open spec fn parsed_u32(text: Seq<char>) -> Option<u32> {
    let digits = unsigned_part(text);
    if digits.len() > 0 && all_digits(digits) && digits_value(digits) <= u32::MAX {
        Some(digits_value(digits) as u32)
    } else {
        None
    }
}

/// Reads a `u32` written in decimal.
pub fn parse_u32(text: &str) -> (r: Option<u32>)
    ensures
        r == parsed_u32(text@),
{
    let len: usize = text.unicode_len();
    let start: usize = if len > 1 && text.get_char(0) == '+' {
        1
    } else {
        0
    };
    let ghost digits = unsigned_part(text@);
    if len == start {
        return None;
    }
    let mut value: u64 = 0;
    let mut i: usize = start;
    let mut fits: bool = true;
    while i < len
        invariant
            len == text@.len(),
            start <= i <= len,
            digits == unsigned_part(text@),
            digits =~= text@.skip(start as int),
            all_digits(digits.take(i - start)),
            fits ==> value <= u32::MAX && value == digits_value(digits.take(i - start)),
            !fits ==> digits_value(digits.take(i - start)) > u32::MAX,
        decreases len - i,
    {
        let c: char = text.get_char(i);
        let ghost done = digits.take(i - start);
        let ghost next = digits.take(i + 1 - start);
        assert(next.drop_last() =~= done);
        assert(next.last() == c);
        if c < '0' || c > '9' {
            proof {
                assert(digits[i - start] == c);
                assert(!all_digits(digits));
            }
            return None;
        }
        proof {
            assert forall|k: int| 0 <= k < next.len() implies is_digit(#[trigger] next[k]) by {
                if k < done.len() {
                    assert(next[k] == done[k]);
                }
            }
        }
        if fits {
            value = value * 10 + (c as u64 - 48);
            fits = value <= u32::MAX as u64;
        }
        i += 1;
    }
    assert(digits.take(len - start) =~= digits);
    if fits {
        Some(value as u32)
    } else {
        None
    }
}

} // verus!
