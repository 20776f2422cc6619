//! What holds of the texts, said of their characters.

use vstd::prelude::*;
use crate::laws;
use crate::process;
use crate::text;

verus! {

// Numbers

/// A number in decimal: its last character is the digit of the ones, and what stands before it is
/// the number without them. A number below ten is that one digit.
pub proof fn law_decimal_ends_with_the_ones(n: nat)
    ensures
        ({
            let t = text::decimal_text(n);
            &&& t.len() >= 1
            &&& t[t.len() - 1] as int == '0' as int + n % 10
            &&& n < 10 ==> t.len() == 1
            &&& n >= 10 ==> t.subrange(0, t.len() - 1) == text::decimal_text(n / 10)
        }),
{
    let t = text::decimal_text(n);
    if n >= 10 {
        assert(t.subrange(0, t.len() - 1) =~= text::decimal_text(n / 10));
    }
}

/// Numbers that differ are written differently.
pub proof fn law_decimals_differ(a: nat, b: nat)
    requires
        a != b,
    ensures
        text::decimal_text(a) != text::decimal_text(b),
{
    laws::lemma_decimal_is_read_back(a);
    laws::lemma_decimal_is_read_back(b);
}

/// With two digits or more: below ten a zero and the digit, from ten on the number as it is.
pub proof fn law_two_digits_fill_up(n: nat)
    ensures
        ({
            let t = text::two_digit_text(n);
            &&& t.len() >= 2
            &&& n < 10 ==> t.len() == 2 && t[0] == '0' && t[1] as int == '0' as int + n
            &&& n >= 10 ==> t == text::decimal_text(n)
        }),
{
    if n >= 10 {
        law_decimal_ends_with_the_ones(n / 10);
    }
}

/// So many days, hours, minutes and seconds, added up to seconds, are written as just those.
pub proof fn law_uptime_names_its_parts(
    days: nat,
    hours: nat,
    minutes: nat,
    secs: nat,
    uptime: u64,
)
    requires
        hours < 24,
        minutes < 60,
        secs < 60,
        uptime == ((days * 24 + hours) * 60 + minutes) * 60 + secs,
    ensures
        text::uptime_text(uptime) == text::two_digit_text(days) + "d "@
            + text::two_digit_text(hours) + "h "@ + text::two_digit_text(minutes) + "m "@
            + text::two_digit_text(secs) + "s"@,
{
    let u = uptime as int;
    assert(u == days * 86400 + (hours * 3600 + minutes * 60 + secs));
    assert(u / 86400 == days && u % 86400 == hours * 3600 + minutes * 60 + secs);
    assert(u % 86400 / 3600 == hours);
    assert(u == (days * 24 + hours) * 3600 + (minutes * 60 + secs));
    assert(u % 3600 == minutes * 60 + secs);
    assert(u % 3600 / 60 == minutes);
    assert(u % 60 == secs);
}

/// A process id is written as a signed number of 32 bits: in decimal below two to the 31st, and
/// from there on with a minus sign and what is missing to two to the 32nd.
pub proof fn law_pid_is_written_signed(pid: u32)
    ensures
        ({
            let t = process::pid_text_spec(pid);
            &&& pid <= i32::MAX ==> t == text::decimal_text(pid as nat)
            &&& pid > i32::MAX ==> t.len() > 0 && t[0] == '-' && t.subrange(1, t.len() as int)
                == text::decimal_text((u32::MAX - pid + 1) as nat)
        }),
{
    let t = process::pid_text_spec(pid);
    if pid > i32::MAX {
        assert(t.subrange(1, t.len() as int) =~= text::decimal_text((u32::MAX - pid + 1) as nat));
    }
}

/// Process ids that differ are written differently.
pub proof fn law_pid_texts_differ(a: u32, b: u32)
    requires
        a != b,
    ensures
        process::pid_text_spec(a) != process::pid_text_spec(b),
{
    law_pid_is_written_signed(a);
    law_pid_is_written_signed(b);
    if a <= i32::MAX && b <= i32::MAX {
        law_decimals_differ(a as nat, b as nat);
    } else if a > i32::MAX && b > i32::MAX {
        law_decimals_differ((u32::MAX - a + 1) as nat, (u32::MAX - b + 1) as nat);
    } else {
        let n = if a <= i32::MAX {
            a as nat
        } else {
            b as nat
        };
        laws::lemma_decimal_is_read_back(n);
        assert(text::is_digit(text::decimal_text(n)[0]));
    }
}

/// A digit put behind a text that reads as a number makes ten times that number and the digit; it
/// reads as nothing where that does not fit in 32 bits.
pub proof fn law_a_digit_more_reads_as_ten_times(t: Seq<char>, n: u32, digit: char)
    requires
        text::parsed_u32(t) == Some(n),
        '0' <= digit && digit <= '9',
    ensures
        text::parsed_u32(t.push(digit)) == (if n * 10 + (digit as int - '0' as int) <= u32::MAX {
            Some((n * 10 + (digit as int - '0' as int)) as u32)
        } else {
            None
        }),
{
    let longer = t.push(digit);
    let digits = text::unsigned_part(t);
    assert(text::unsigned_part(longer) =~= digits.push(digit));
    lemma_digits_pushed(digits, digit);
    lemma_digits_are_positive(digits);
}

proof fn lemma_digits_pushed(digits: Seq<char>, digit: char)
    requires
        text::is_digit(digit),
    ensures
        text::all_digits(digits) <==> text::all_digits(digits.push(digit)),
        text::digits_value(digits.push(digit)) == text::digits_value(digits) * 10 + (digit as int
            - 48),
{
    let longer = digits.push(digit);
    assert(longer.drop_last() =~= digits);
    if text::all_digits(longer) {
        assert forall|i: int| 0 <= i < digits.len() implies text::is_digit(
            #[trigger] digits[i],
        ) by {
            assert(longer[i] == digits[i]);
        }
    }
}

proof fn lemma_digits_are_positive(digits: Seq<char>)
    requires
        text::all_digits(digits),
    ensures
        text::digits_value(digits) >= 0,
    decreases digits.len(),
{
    if digits.len() > 0 {
        assert(text::is_digit(digits[digits.len() - 1]));
        assert forall|i: int| 0 <= i < digits.drop_last().len() implies text::is_digit(
            #[trigger] digits.drop_last()[i],
        ) by {
            assert(text::is_digit(digits[i]));
        }
        lemma_digits_are_positive(digits.drop_last());
    }
}

/// What reads as nothing reads as nothing with a digit more, but for an empty text and a plus sign
/// alone: with a digit they read as that digit.
pub proof fn law_a_digit_more_mends_nothing(t: Seq<char>, digit: char)
    requires
        text::parsed_u32(t) is None,
        '0' <= digit && digit <= '9',
    ensures
        t.len() == 0 || t == seq!['+'] ==> text::parsed_u32(t.push(digit)) == Some(
            (digit as int - '0' as int) as u32,
        ),
        t.len() > 0 && t != seq!['+'] ==> text::parsed_u32(t.push(digit)) is None,
{
    let longer = t.push(digit);
    reveal_with_fuel(text::digits_value, 2);
    if t.len() == 0 || t == seq!['+'] {
        let one = seq![digit];
        assert(text::unsigned_part(longer) =~= one);
        assert(one.drop_last() =~= Seq::<char>::empty());
        assert(text::all_digits(one));
    } else {
        let digits = text::unsigned_part(t);
        if t.len() == 1 && t[0] == '+' {
            assert(t =~= seq!['+']);
        }
        assert(text::unsigned_part(longer) =~= digits.push(digit));
        lemma_digits_pushed(digits, digit);
        if text::all_digits(digits) {
            lemma_digits_are_positive(digits);
        }
    }
}

/// A text with anything but digits in it, a plus sign in front excepted, reads as no number.
pub proof fn law_only_digits_read_as_numbers(t: Seq<char>, i: int)
    requires
        0 <= i < t.len(),
        t[i] < '0' || t[i] > '9',
        i > 0 || t[i] != '+' || t.len() == 1,
    ensures
        text::parsed_u32(t) is None,
{
    let digits = text::unsigned_part(t);
    if t.len() > 1 && t[0] == '+' {
        assert(digits[i - 1] == t[i]);
        assert(!text::is_digit(digits[i - 1]));
    } else {
        assert(!text::is_digit(digits[i]));
    }
}

/// An empty text reads as no number.
pub proof fn law_nothing_reads_as_nothing()
    ensures
        text::parsed_u32(Seq::<char>::empty()) is None,
{
}

// Padding and joining

/// Padding puts spaces in front, as many as are missing, and leaves the text as it is.
pub proof fn law_padding_is_spaces_in_front(t: Seq<char>, width: nat)
    ensures
        ({
            let r = text::padded(t, width);
            let front = r.len() - t.len();
            &&& r.len() == (if t.len() >= width {
                t.len()
            } else {
                width
            })
            &&& forall|i: int| 0 <= i < front ==> #[trigger] r[i] == ' '
            &&& forall|i: int| 0 <= i < t.len() ==> #[trigger] t[i] == r[front + i]
        }),
{
}

/// Nothing joined is nothing, and one text joined is that text.
pub proof fn law_joining_one_adds_nothing(parts: Seq<String>, separator: Seq<char>)
    requires
        parts.len() <= 1,
    ensures
        parts.len() == 0 ==> text::joined(parts, separator).len() == 0,
        parts.len() == 1 ==> text::joined(parts, separator) == parts[0]@,
{
}

/// Two lists joined one behind the other are what each is joined, with the separator between.
pub proof fn law_joining_puts_the_separator_between(
    first: Seq<String>,
    second: Seq<String>,
    separator: Seq<char>,
)
    requires
        first.len() > 0,
        second.len() > 0,
    ensures
        text::joined(first + second, separator) == text::joined(first, separator) + separator
            + text::joined(second, separator),
    decreases second.len(),
{
    let all = first + second;
    assert(all.drop_last() =~= first + second.drop_last());
    assert(all.last() == second.last());
    if second.len() == 1 {
        assert(all.drop_last() =~= first);
        assert(text::joined(all, separator) == text::joined(first, separator) + separator
            + second[0]@);
    } else {
        law_joining_puts_the_separator_between(first, second.drop_last(), separator);
        let a = text::joined(first, separator);
        let b = text::joined(second.drop_last(), separator);
        assert((a + separator + b) + separator + second.last()@ =~= a + separator + (b + separator
            + second.last()@));
    }
}

// Finding a text in another

/// A text stands in another wherever it stands there: at the start, at the end or between.
pub proof fn law_a_part_is_found_anywhere(before: Seq<char>, part: Seq<char>, behind: Seq<char>)
    ensures
        text::contains_text(before + part + behind, part),
{
    let whole = before + part + behind;
    let i = before.len() as int;
    assert(whole.subrange(i, i + part.len()) =~= part);
}

/// A text that is found in another stands there, with something or nothing before it and behind.
pub proof fn law_what_is_found_is_there(whole: Seq<char>, part: Seq<char>)
    requires
        text::contains_text(whole, part),
    ensures
        exists|before: Seq<char>, behind: Seq<char>|
            whole == #[trigger] (before + part + behind),
{
    let i = choose|i: int|
        0 <= i <= whole.len() - part.len() && #[trigger] whole.subrange(i, i + part.len()) == part;
    let before = whole.subrange(0, i);
    let behind = whole.subrange(i + part.len(), whole.len() as int);
    assert(whole =~= before + part + behind);
}

} // verus!
