//! What holds of every text that [`parse_hex_u16`](crate::hex::parse_hex_u16)
//! is given.

use crate::big_endian::lemma_shift;
use crate::hex::{
    all_digits, digit_value, hex_value, lemma_hex_value_grows, lemma_prefix_bound, parsed_hex,
    starts_too_large, without_prefix, without_sign,
};
use vstd::arithmetic::power::pow;
use vstd::prelude::*;

verus! {

/// Whether `c` is the hexadecimal digit of `value`, in either case.
pub open spec fn is_digit_of(c: char, value: int) -> bool {
    0 <= value < 16 && (c == "0123456789abcdef"@[value] || c == "0123456789ABCDEF"@[value])
}

/// Whether `c` is a hexadecimal digit.
pub open spec fn is_digit(c: char) -> bool {
    exists|value: int| is_digit_of(c, value)
}

/// Whether the digits write `value`: each of them stands for the multiples of
/// sixteen to the power of its distance from the last.
pub open spec fn writes(digits: Seq<char>, value: nat) -> bool {
    &&& digits.len() > 0
    &&& value < pow(16, digits.len())
    &&& forall|i: int|
        0 <= i < digits.len() ==> is_digit_of(
            #[trigger] digits[i],
            value as int / pow(16, (digits.len() - 1 - i) as nat) % 16,
        )
}

/// Whether a text may stand before the digits.
pub open spec fn is_lead(text: Seq<char>) -> bool {
    text == ""@ || text == "0x"@ || text == "+"@ || text == "0x+"@
}

/// The digits are `0` to `9` and `a` to `f`, in either case, and count up from
/// zero.
pub proof fn law_digits(c: char, value: nat)
    ensures
        digit_value(c) == Some(value) <==> is_digit_of(c, value as int),
{
    reveal_strlit("0123456789abcdef");
    reveal_strlit("0123456789ABCDEF");
}

/// A text of digits writes its value.
pub proof fn law_hex_value(digits: Seq<char>)
    requires
        digits.len() > 0,
        forall|i: int| 0 <= i < digits.len() ==> is_digit(#[trigger] digits[i]),
    ensures
        writes(digits, hex_value(digits)),
{
    assert(all_digits(digits)) by {
        assert forall|i: int| 0 <= i < digits.len() implies digit_value(
            #[trigger] digits[i],
        ) is Some by {
            assert(is_digit(digits[i]));
            let v = choose|v: int| is_digit_of(digits[i], v);
            law_digits(digits[i], v as nat);
        }
    }
    lemma_digits_write(digits);
}

proof fn lemma_digits_write(digits: Seq<char>)
    requires
        digits.len() > 0,
        all_digits(digits),
    ensures
        writes(digits, hex_value(digits)),
    decreases digits.len(),
{
    let shorter = digits.drop_last();
    let value = hex_value(digits);
    let high = hex_value(shorter);
    let last = digit_value(digits.last()).unwrap();
    assert(digit_value(digits[digits.len() - 1]) is Some);
    law_digits(digits.last(), last);
    assert(value as int / 16 == high);
    assert(value as int % 16 == last);
    lemma_shift(value, 16, shorter.len());
    lemma_shift(value, 16, 0);
    assert forall|i: int| 0 <= i < shorter.len() implies digit_value(
        #[trigger] shorter[i],
    ) is Some by {
        assert(shorter[i] == digits[i]);
    }
    if shorter.len() > 0 {
        lemma_digits_write(shorter);
    } else {
        assert(high == 0);
    }
    assert(16 * (high + 1) <= 16 * pow(16, shorter.len()));
    assert forall|i: int| 0 <= i < digits.len() implies is_digit_of(
        #[trigger] digits[i],
        value as int / pow(16, (digits.len() - 1 - i) as nat) % 16,
    ) by {
        if i < shorter.len() {
            assert(shorter[i] == digits[i]);
            lemma_shift(value, 16, (shorter.len() - 1 - i) as nat);
        }
    }
}

/// Digits write one value only.
pub proof fn law_value_is_unique(digits: Seq<char>, value: nat)
    requires
        writes(digits, value),
    ensures
        all_digits(digits),
        hex_value(digits) == value,
    decreases digits.len(),
{
    let shorter = digits.drop_last();
    let n = digits.len();
    assert(all_digits(digits)) by {
        assert forall|i: int| 0 <= i < n implies digit_value(#[trigger] digits[i]) is Some by {
            let v = value as int / pow(16, (n - 1 - i) as nat) % 16;
            assert(is_digit_of(digits[i], v));
            law_digits(digits[i], v as nat);
        }
    }
    lemma_shift(value, 16, 0);
    lemma_shift(value, 16, shorter.len());
    assert(is_digit_of(digits[n - 1], value as int / pow(16, 0) % 16));
    law_digits(digits[n - 1], value % 16);
    if shorter.len() > 0 {
        assert((value / 16) < pow(16, shorter.len()));
        assert forall|i: int| 0 <= i < shorter.len() implies is_digit_of(
            #[trigger] shorter[i],
            (value / 16) as int / pow(16, (shorter.len() - 1 - i) as nat) % 16,
        ) by {
            assert(shorter[i] == digits[i]);
            lemma_shift(value, 16, (shorter.len() - 1 - i) as nat);
        }
        law_value_is_unique(shorter, value / 16);
    } else {
        assert(pow(16, 1) == 16 * pow(16, 0));
        assert(hex_value(shorter) == 0);
    }
}

/// Digits are read as the value that they write, whatever of `0x` and `+`
/// stands before them, and refused where it does not fit in 16 bits.
pub proof fn law_numbers_are_read(lead: Seq<char>, digits: Seq<char>, value: nat)
    requires
        is_lead(lead),
        writes(digits, value),
    ensures
        parsed_hex(lead + digits) == if value <= 0xffff {
            Ok::<u16, Seq<char>>(value as u16)
        } else {
            Err::<u16, Seq<char>>("number too large to fit in target type"@)
        },
{
    law_value_is_unique(digits, value);
    lemma_lead(lead, digits);
    assert(digits.take(digits.len() as int) =~= digits);
    if value <= 0xffff {
        assert forall|n: int| 0 <= n <= digits.len() implies hex_value(#[trigger] digits.take(n))
            <= u16::MAX by {
            lemma_hex_value_grows(digits, n, digits.len() as int);
        }
    } else {
        assert(starts_too_large(digits));
    }
}

/// What stands before the digits is left out, where it cannot be taken for
/// something else.
proof fn lemma_lead(lead: Seq<char>, rest: Seq<char>)
    requires
        is_lead(lead),
        rest.len() > 0,
        lead == ""@ ==> !(rest.len() >= 2 && rest[0] == '0' && rest[1] == 'x'),
        lead == ""@ || lead == "0x"@ ==> !(rest.len() >= 2 && rest[0] == '+'),
    ensures
        without_prefix(lead + rest).len() > 0,
        without_sign(without_prefix(lead + rest)) == rest,
{
    reveal_strlit("");
    reveal_strlit("0x");
    reveal_strlit("+");
    reveal_strlit("0x+");
    let text = lead + rest;
    if lead == ""@ {
        assert(text =~= rest);
    } else if lead == "0x"@ {
        assert(text.skip(2) =~= rest);
    } else if lead == "+"@ {
        assert(text.skip(1) =~= rest);
    } else {
        assert(text.skip(2) =~= seq!['+'] + rest);
        assert(text.skip(2).skip(1) =~= rest);
    }
}

/// Only digits are read as a number, with no more than `0x` and `+` before
/// them.
pub proof fn law_only_numbers_are_read(text: Seq<char>)
    requires
        parsed_hex(text) is Ok,
    ensures
        exists|n: int|
            0 <= n <= text.len() && is_lead(#[trigger] text.take(n)) && writes(
                text.skip(n),
                parsed_hex(text)->Ok_0 as nat,
            ),
{
    reveal_strlit("");
    reveal_strlit("0x");
    reveal_strlit("+");
    reveal_strlit("0x+");
    let number = without_prefix(text);
    let digits = without_sign(number);
    let n = text.len() - digits.len();
    assert(text.skip(n) =~= digits);
    lemma_digits_write(digits);
    assert(digits.take(digits.len() as int) =~= digits);
    assert(is_lead(text.take(n))) by {
        if n == 0 {
            assert(text.take(n) =~= ""@);
        } else if n == 1 {
            assert(text.take(n) =~= "+"@);
        } else if n == 2 {
            assert(text.take(n) =~= "0x"@);
        } else {
            assert(text.take(n) =~= "0x+"@);
        }
    }
}

/// Nothing, and `0x` with nothing behind it, are refused for being empty.
pub proof fn law_empty_is_refused(text: Seq<char>)
    ensures
        text == ""@ || text == "0x"@ <==> parsed_hex(text) == Err::<u16, Seq<char>>(
            "cannot parse integer from empty string"@,
        ),
{
    reveal_strlit("");
    reveal_strlit("0x");
    reveal_strlit("cannot parse integer from empty string");
    reveal_strlit("invalid digit found in string");
    reveal_strlit("number too large to fit in target type");
    assert("cannot parse integer from empty string"@[0] == 'c');
    assert("invalid digit found in string"@[0] == 'i');
    assert("number too large to fit in target type"@[0] == 'n');
    if text == "0x"@ {
        assert(text.skip(2).len() == 0);
    }
    if without_prefix(text).len() == 0 {
        if text.len() == 0 {
            assert(text =~= ""@);
        } else {
            assert(text =~= "0x"@);
        }
    }
}

/// A text in which something else than a digit follows the digits is refused:
/// for its size where the digits before write too large a number, and else for
/// what is no digit.
pub proof fn law_bad_digit_is_refused(
    lead: Seq<char>,
    digits: Seq<char>,
    value: nat,
    bad: char,
    rest: Seq<char>,
)
    requires
        is_lead(lead),
        writes(digits, value) || digits.len() == 0 && value == 0,
        !is_digit(bad),
        // The `x` and the `+` of what may stand before the digits are no bad digits.
        lead == ""@ ==> !(digits == "0"@ && bad == 'x'),
        lead == ""@ || lead == "0x"@ ==> !(digits.len() == 0 && bad == '+' && rest.len() > 0),
    ensures
        parsed_hex(lead + (digits + seq![bad] + rest)) == Err::<u16, Seq<char>>(
            if value <= 0xffff {
                "invalid digit found in string"@
            } else {
                "number too large to fit in target type"@
            },
        ),
{
    reveal_strlit("0");
    let text = digits + seq![bad] + rest;
    let at = digits.len() as int;
    if digits.len() > 0 {
        law_value_is_unique(digits, value);
        assert(digit_value(digits[0]) is Some);
    }
    assert(hex_value(digits) == value);
    assert(digit_value(bad) is None) by {
        if digit_value(bad) is Some {
            law_digits(bad, digit_value(bad).unwrap());
        }
    }
    assert(text[at] == bad);
    assert(text.take(at) =~= digits);
    assert(digit_value('x') is None);
    assert(digit_value('+') is None);
    if digits.len() > 0 {
        assert(text[0] == digits[0]);
    }
    if digits.len() == 1 && digits[0] == '0' {
        assert(digits =~= "0"@);
    }
    if digits.len() >= 2 {
        assert(text[1] == digits[1]);
        assert(digit_value(digits[1]) is Some);
    }
    lemma_lead(lead, text);
    assert(!all_digits(text));
    if value <= 0xffff {
        lemma_prefix_bound(text, at);
    } else {
        assert(starts_too_large(text));
    }
}

/// Zeros before the digits change nothing, whatever stands before them.
pub proof fn law_leading_zeros(lead: Seq<char>, digits: Seq<char>)
    requires
        is_lead(lead),
        digits.len() > 0,
        forall|i: int| 0 <= i < digits.len() ==> is_digit(#[trigger] digits[i]),
    ensures
        hex_value(seq!['0'] + digits) == hex_value(digits),
        parsed_hex(lead + (seq!['0'] + digits)) == parsed_hex(lead + digits),
{
    law_hex_value(digits);
    lemma_zero_first(digits, digits.len() as int);
    assert(digits.take(digits.len() as int) =~= digits);
    let longer = seq!['0'] + digits;
    law_value_is_unique(digits, hex_value(digits));
    assert(all_digits(longer)) by {
        assert forall|i: int| 0 <= i < longer.len() implies digit_value(
            #[trigger] longer[i],
        ) is Some by {
            if i > 0 {
                assert(longer[i] == digits[i - 1]);
            }
        }
    }
    lemma_digits_write(longer);
    law_numbers_are_read(lead, digits, hex_value(digits));
    law_numbers_are_read(lead, longer, hex_value(digits));
}

proof fn lemma_zero_first(digits: Seq<char>, n: int)
    requires
        0 <= n <= digits.len(),
    ensures
        hex_value(seq!['0'] + digits.take(n)) == hex_value(digits.take(n)),
    decreases n,
{
    let longer = seq!['0'] + digits.take(n);
    if n == 0 {
        assert(longer.drop_last() =~= Seq::empty());
        assert(hex_value(longer.drop_last()) == 0);
    } else {
        lemma_zero_first(digits, n - 1);
        assert(longer.drop_last() =~= seq!['0'] + digits.take(n - 1));
        assert(digits.take(n).drop_last() =~= digits.take(n - 1));
    }
}

} // verus!
