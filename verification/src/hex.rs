//! Hexadecimal numbers on the command line.

use crate::text::chars_of;
use vstd::prelude::*;

verus! {

/// Why a text is no 16-bit hexadecimal number.
pub const EMPTY_MESSAGE: &'static str = "cannot parse integer from empty string";

pub const INVALID_DIGIT_MESSAGE: &'static str = "invalid digit found in string";

pub const TOO_LARGE_MESSAGE: &'static str = "number too large to fit in target type";

/// The value of a hexadecimal digit, in either case.
pub open spec fn digit_value(c: char) -> Option<nat> {
    if '0' <= c <= '9' {
        Some((c as nat - '0' as nat) as nat)
    } else if 'a' <= c <= 'f' {
        Some((c as nat - 'a' as nat + 10) as nat)
    } else if 'A' <= c <= 'F' {
        Some((c as nat - 'A' as nat + 10) as nat)
    } else {
        None
    }
}

/// Whether a text consists of hexadecimal digits only.
pub open spec fn all_digits(text: Seq<char>) -> bool {
    forall|i: int| 0 <= i < text.len() ==> digit_value(#[trigger] text[i]) is Some
}

/// The number that a text of digits writes, most significant digit first.
pub open spec fn hex_value(digits: Seq<char>) -> nat
    decreases digits.len(),
{
    if digits.len() == 0 {
        0
    } else {
        16 * hex_value(digits.drop_last()) + digit_value(digits.last()).unwrap()
    }
}

/// A text without the prefix `0x`, where it has it.
pub open spec fn without_prefix(text: Seq<char>) -> Seq<char> {
    if text.len() >= 2 && text[0] == '0' && text[1] == 'x' {
        text.skip(2)
    } else {
        text
    }
}

/// A text without a leading `+`, where something follows it.
pub open spec fn without_sign(text: Seq<char>) -> Seq<char> {
    if text.len() >= 2 && text[0] == '+' {
        text.skip(1)
    } else {
        text
    }
}

/// Whether the digits that a text starts with already write a number that is
/// too large.
pub open spec fn starts_too_large(text: Seq<char>) -> bool {
    exists|n: int|
        0 <= n <= text.len() && all_digits(#[trigger] text.take(n)) && hex_value(text.take(n))
            > u16::MAX
}

/// The number that a text writes, or why it writes none: `0x` and a `+` may
/// stand before the digits.
pub open spec fn parsed_hex(text: Seq<char>) -> Result<u16, Seq<char>> {
    let number = without_prefix(text);
    let digits = without_sign(number);
    if number.len() == 0 {
        Err(EMPTY_MESSAGE@)
    } else if starts_too_large(digits) {
        Err(TOO_LARGE_MESSAGE@)
    } else if !all_digits(digits) {
        Err(INVALID_DIGIT_MESSAGE@)
    } else {
        Ok(hex_value(digits) as u16)
    }
}

/// The value of a hexadecimal digit.
fn digit(c: char) -> (value: Option<u32>)
    ensures
        match value {
            Some(v) => digit_value(c) == Some(v as nat) && v < 16,
            None => digit_value(c) is None,
        },
{
    if '0' <= c && c <= '9' {
        Some(c as u32 - '0' as u32)
    } else if 'a' <= c && c <= 'f' {
        Some(c as u32 - 'a' as u32 + 10)
    } else if 'A' <= c && c <= 'F' {
        Some(c as u32 - 'A' as u32 + 10)
    } else {
        None
    }
}

/// Parses a 16-bit hexadecimal number, with or without the prefix `0x`.
pub fn parse_hex_u16(s: &str) -> (result: Result<u16, String>)
    ensures
        match result {
            Ok(value) => parsed_hex(s@) == Ok::<u16, Seq<char>>(value) && hex_value(
                without_sign(without_prefix(s@)),
            ) == value,
            Err(message) => parsed_hex(s@) == Err::<u16, Seq<char>>(message@),
        },
{
    let chars = chars_of(s);
    let mut start: usize = if chars.len() >= 2 && chars[0] == '0' && chars[1] == 'x' {
        2
    } else {
        0
    };
    let ghost number = without_prefix(s@);
    assert(number =~= s@.skip(start as int));
    if start == chars.len() {
        return Err(EMPTY_MESSAGE.to_string());
    }
    if chars.len() - start >= 2 && chars[start] == '+' {
        start += 1;
    }
    let ghost digits = without_sign(number);
    assert(digits =~= s@.skip(start as int));

    let mut value: u32 = 0;
    let mut i: usize = start;
    assert(digits.take(0) =~= Seq::empty());
    while i < chars.len()
        invariant
            start <= i <= chars.len(),
            chars@ == s@,
            digits == s@.skip(start as int),
            number == without_prefix(s@),
            digits == without_sign(number),
            number.len() > 0,
            all_digits(digits.take(i - start)),
            value == hex_value(digits.take(i - start)),
            value <= u16::MAX,
        decreases chars.len() - i,
    {
        let ghost seen = digits.take(i - start);
        let ghost next = digits.take(i + 1 - start);
        assert(next.drop_last() =~= seen);
        assert(next.last() == chars@[i as int]);
        match digit(chars[i]) {
            None => {
                proof {
                    assert(digit_value(digits[i - start]) is None);
                    lemma_prefix_bound(digits, i - start);
                }
                return Err(INVALID_DIGIT_MESSAGE.to_string());
            },
            Some(d) => {
                value = 16 * value + d;
                i += 1;
                assert(all_digits(next)) by {
                    assert forall|k: int| 0 <= k < next.len() implies digit_value(
                        #[trigger] next[k],
                    ) is Some by {
                        if k < seen.len() {
                            assert(next[k] == seen[k]);
                        }
                    }
                }
                if value > 0xffff {
                    assert(starts_too_large(digits));
                    return Err(TOO_LARGE_MESSAGE.to_string());
                }
            },
        }
    }
    proof {
        assert(digits.take(i - start) =~= digits);
        assert forall|n: int| 0 <= n <= digits.len() implies hex_value(#[trigger] digits.take(n))
            <= u16::MAX by {
            lemma_hex_value_grows(digits, n, digits.len() as int);
        }
    }
    Ok(value as u16)
}

/// The number that a prefix writes is at most the one that a longer prefix
/// writes.
pub(crate) proof fn lemma_hex_value_grows(digits: Seq<char>, n: int, m: int)
    requires
        0 <= n <= m <= digits.len(),
        all_digits(digits.take(m)),
    ensures
        hex_value(digits.take(n)) <= hex_value(digits.take(m)),
    decreases m - n,
{
    if n < m {
        let shorter = digits.take(m - 1);
        assert(digits.take(m).drop_last() =~= shorter);
        assert forall|k: int| 0 <= k < shorter.len() implies digit_value(
            #[trigger] shorter[k],
        ) is Some by {
            assert(shorter[k] == digits.take(m)[k]);
        }
        lemma_hex_value_grows(digits, n, m - 1);
        assert(digit_value(digits.take(m)[m - 1]) is Some);
    }
}

/// Where the digits before the first other character write no number that is
/// too large, no prefix of digits does.
pub(crate) proof fn lemma_prefix_bound(text: Seq<char>, bad: int)
    requires
        0 <= bad < text.len(),
        digit_value(text[bad]) is None,
        all_digits(text.take(bad)),
        hex_value(text.take(bad)) <= u16::MAX,
    ensures
        !starts_too_large(text),
        !all_digits(text),
{
    assert forall|n: int| 0 <= n <= text.len() && all_digits(#[trigger] text.take(n)) implies
        hex_value(text.take(n)) <= u16::MAX by {
        if n > bad {
            assert(text.take(n)[bad] == text[bad]);
        } else {
            lemma_hex_value_grows(text, n, bad);
        }
    }
}

/// The prefix may be left out: it changes nothing, unless what follows it
/// starts with the prefix once more.
pub proof fn law_prefix_is_optional(text: Seq<char>)
    requires
        without_prefix(text) == text,
    ensures
        parsed_hex(seq!['0', 'x'] + text) == parsed_hex(text),
{
    assert((seq!['0', 'x'] + text).skip(2) =~= text);
}

/// One to four digits always write a number, and it fits.
pub proof fn law_short_number(digits: Seq<char>)
    requires
        1 <= digits.len() <= 4,
        all_digits(digits),
    ensures
        hex_value(digits) <= u16::MAX,
        parsed_hex(digits) == Ok::<u16, Seq<char>>(hex_value(digits) as u16),
{
    assert(digit_value('x') is None);
    assert(digit_value('+') is None);
    if digits.len() >= 2 {
        assert(digit_value(digits[1]) is Some);
    }
    assert(digit_value(digits[0]) is Some);
    assert forall|n: int| 0 <= n <= digits.len() implies hex_value(#[trigger] digits.take(n))
        <= u16::MAX by {
        lemma_short_value(digits, n);
    }
    assert(digits.take(digits.len() as int) =~= digits);
}

/// The power of sixteen that bounds a number of `n` digits.
spec fn bound(n: nat) -> nat
    decreases n,
{
    if n == 0 {
        1
    } else {
        16 * bound((n - 1) as nat)
    }
}

proof fn lemma_short_value(digits: Seq<char>, n: int)
    requires
        0 <= n <= digits.len() <= 4,
        all_digits(digits),
    ensures
        hex_value(digits.take(n)) < bound(n as nat),
        hex_value(digits.take(n)) <= u16::MAX,
    decreases n,
{
    reveal_with_fuel(bound, 5);
    if n > 0 {
        lemma_short_value(digits, n - 1);
        assert(digits.take(n).drop_last() =~= digits.take(n - 1));
        assert(digit_value(digits[n - 1]) is Some);
        assert(bound(n as nat) <= 0x1_0000) by {
            assert(n == 1 || n == 2 || n == 3 || n == 4);
        }
    }
}

/// The lower-case digit of a value below sixteen.
pub open spec fn digit_char(value: nat) -> char {
    if value < 10 {
        ('0' as nat + value) as char
    } else {
        ('a' as nat + (value - 10)) as char
    }
}

/// A 16-bit number in four lower-case digits.
pub open spec fn written_hex(value: u16) -> Seq<char> {
    seq![
        digit_char(value as nat / 4096),
        digit_char(value as nat / 256 % 16),
        digit_char(value as nat / 16 % 16),
        digit_char(value as nat % 16),
    ]
}

/// Every 16-bit number can be written, and is read back as it was.
pub proof fn law_written_is_read_back(value: u16)
    ensures
        parsed_hex(written_hex(value)) == Ok::<u16, Seq<char>>(value),
{
    let digits = written_hex(value);
    assert forall|v: nat| v < 16 implies digit_value(#[trigger] digit_char(v)) == Some(v) by {
    }
    assert(all_digits(digits));
    law_short_number(digits);
    reveal_with_fuel(hex_value, 5);
    assert(digits.drop_last() =~= digits.take(3));
    assert(digits.take(3).drop_last() =~= digits.take(2));
    assert(digits.take(2).drop_last() =~= digits.take(1));
    assert(digits.take(1).drop_last() =~= Seq::empty());
}

} // verus!
