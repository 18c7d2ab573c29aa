//! Big-endian encoding of unsigned integers.

use vstd::arithmetic::div_mod::lemma_div_denominator;
use vstd::arithmetic::power::{lemma_pow_positive, pow};
use vstd::prelude::*;

verus! {

/// The `width` low-order base-256 digits of `value`, most significant first.
pub open spec fn be_bytes(value: nat, width: nat) -> Seq<u8>
    decreases width,
{
    if width == 0 {
        Seq::empty()
    } else {
        be_bytes(value / 256, (width - 1) as nat).push((value % 256) as u8)
    }
}

/// The number whose base-256 digits, most significant first, are `bytes`.
pub open spec fn be_value(bytes: Seq<u8>) -> nat
    decreases bytes.len(),
{
    if bytes.len() == 0 {
        0
    } else {
        be_value(bytes.drop_last()) * 256 + bytes.last() as nat
    }
}

/// `256` to the power `width`: how many values fit in `width` bytes.
pub open spec fn be_limit(width: nat) -> nat
    decreases width,
{
    if width == 0 {
        1
    } else {
        256 * be_limit((width - 1) as nat)
    }
}

/// An encoding has the width that was asked for.
pub broadcast proof fn lemma_be_bytes_len(value: nat, width: nat)
    ensures
        #[trigger] be_bytes(value, width).len() == width,
    decreases width,
{
    if width > 0 {
        lemma_be_bytes_len(value / 256, (width - 1) as nat);
    }
}

/// Decoding an encoding gives the value back, for every value that fits.
pub proof fn law_be_round_trip(value: nat, width: nat)
    requires
        value < be_limit(width),
    ensures
        be_value(be_bytes(value, width)) == value,
    decreases width,
{
    if width > 0 {
        let shorter = be_bytes(value / 256, (width - 1) as nat);
        law_be_round_trip(value / 256, (width - 1) as nat);
        assert(be_bytes(value, width).drop_last() =~= shorter);
    }
}

/// Every value of a machine word fits in as many bytes as the word has.
pub proof fn lemma_be_limits()
    ensures
        be_limit(2) == 0x1_0000,
        be_limit(4) == 0x1_0000_0000,
        be_limit(8) == 0x1_0000_0000_0000_0000,
{
    reveal_with_fuel(be_limit, 9);
}

/// Cutting one more digit off the end of a number is a division by one power of
/// the base more.
pub(crate) proof fn lemma_shift(value: nat, base: int, n: nat)
    requires
        base > 1,
    ensures
        (value as int / base) / pow(base, n) == value as int / pow(base, n + 1),
        value as int / pow(base, 0) == value,
        pow(base, 0) == 1,
        pow(base, n) > 0,
        pow(base, n + 1) == base * pow(base, n),
{
    reveal(pow);
    lemma_pow_positive(base, n);
    lemma_div_denominator(value as int, base, pow(base, n));
    assert(value as int / 1 == value);
}

/// Byte `i` of an encoding counts the powers of 256 that belong to its place:
/// the last byte counts the ones, the byte before it the 256s, and so on.
pub proof fn law_be_byte(value: nat, width: nat, i: int)
    requires
        0 <= i < width,
    ensures
        be_bytes(value, width).len() == width,
        be_bytes(value, width)[i] == value as int / pow(256, (width - 1 - i) as nat) % 256,
    decreases width,
{
    broadcast use lemma_be_bytes_len;

    let shorter = be_bytes(value / 256, (width - 1) as nat);
    assert(be_bytes(value, width) == shorter.push((value % 256) as u8));
    if i == width - 1 {
        lemma_shift(value, 256, 0);
        assert(be_bytes(value, width)[i] == (value % 256) as u8);
    } else {
        assert(be_bytes(value, width)[i] == shorter[i]);
        law_be_byte(value / 256, (width - 1) as nat, i);
        lemma_shift(value, 256, (width - 2 - i) as nat);
    }
}

/// The number that bytes write is the one whose digits to the base 256 they
/// are.
pub proof fn law_be_value_byte(bytes: Seq<u8>, i: int)
    requires
        0 <= i < bytes.len(),
    ensures
        be_value(bytes) < pow(256, bytes.len()),
        bytes[i] == be_value(bytes) as int / pow(256, (bytes.len() - 1 - i) as nat) % 256,
    decreases bytes.len(),
{
    let shorter = bytes.drop_last();
    let high = be_value(shorter) as int;
    lemma_shift(be_value(bytes), 256, (bytes.len() - 1) as nat);
    assert(be_value(bytes) as int / 256 == high);
    if shorter.len() > 0 {
        law_be_value_byte(shorter, 0);
    } else {
        lemma_shift(0, 256, 0);
        assert(be_value(shorter) == 0);
    }
    assert(high + 1 <= pow(256, shorter.len()));
    assert(256 * (high + 1) <= 256 * pow(256, shorter.len()));
    if i == bytes.len() - 1 {
        lemma_shift(be_value(bytes), 256, 0);
    } else {
        law_be_value_byte(shorter, i);
        lemma_shift(be_value(bytes), 256, (bytes.len() - 2 - i) as nat);
    }
}

/// As many values fit in `width` bytes as the power of 256 says.
pub proof fn law_be_limit(width: nat)
    ensures
        be_limit(width) == pow(256, width),
    decreases width,
{
    reveal(pow);
    if width > 0 {
        law_be_limit((width - 1) as nat);
    }
}

/// Appends `value` to `out` in `width` bytes, most significant first.
pub fn push_be(out: &mut Vec<u8>, value: u64, width: usize)
    ensures
        final(out)@ == old(out)@ + be_bytes(value as nat, width as nat),
{
    broadcast use lemma_be_bytes_len;

    let start: usize = out.len();
    let mut added: usize = 0;
    while added < width
        invariant
            added <= width,
            start == old(out)@.len(),
            out@.len() == start + added,
            out@.take(start as int) == old(out)@,
        decreases width - added,
    {
        out.push(0);
        added += 1;
        assert(out@.take(start as int) =~= old(out)@);
    }

    // The digits, from the least significant one at the end.
    let mut at: usize = out.len();
    let mut rest: u64 = value;
    assert(be_bytes(value as nat, width as nat) =~= be_bytes(rest as nat, width as nat)
        + out@.skip(at as int));
    while at > start
        invariant
            start <= at <= out@.len(),
            out@.len() == start + width,
            out@.take(start as int) == old(out)@,
            be_bytes(value as nat, width as nat) == be_bytes(rest as nat, (at - start) as nat)
                + out@.skip(at as int),
        decreases at,
    {
        let ghost digits = out@.skip(at as int);
        at -= 1;
        out.set(at, (rest % 256) as u8);
        assert(out@.take(start as int) =~= old(out)@);
        assert(out@.skip(at as int) =~= seq![(rest % 256) as u8] + digits);
        assert(be_bytes(rest as nat, (at + 1 - start) as nat) + digits =~= be_bytes(
            (rest / 256) as nat,
            (at - start) as nat,
        ) + out@.skip(at as int));
        rest = rest / 256;
    }
    assert(out@ =~= old(out)@ + be_bytes(value as nat, width as nat));
}

} // verus!
