//! The CRC-32 checksum of a byte string.

use vstd::prelude::*;

verus! {

/// The generator polynomial of CRC-32 (IEEE), its bits reflected.
pub const POLYNOMIAL: u32 = 0xedb8_8320;

/// The remainder register after `n` more bits have been divided out.
pub open spec fn crc_bits(state: u32, n: nat) -> u32
    decreases n,
{
    if n == 0 {
        state
    } else {
        let before = crc_bits(state, (n - 1) as nat);
        if before & 1 == 1 {
            (before >> 1) ^ POLYNOMIAL
        } else {
            before >> 1
        }
    }
}

/// The remainder register after `data`. It starts with all bits set.
pub open spec fn crc_state(data: Seq<u8>) -> u32
    decreases data.len(),
{
    if data.len() == 0 {
        0xffff_ffff
    } else {
        crc_bits(crc_state(data.drop_last()) ^ data.last() as u32, 8)
    }
}

/// The CRC-32 (IEEE) of `data`: the complement of the register.
pub open spec fn crc32(data: Seq<u8>) -> u32 {
    !crc_state(data)
}

/// The checksum of `head` followed by `tail`.
///
/// Trusted: calls `crc32fast::Hasher::new`, `Hasher::update` on `head` and on
/// `tail`, and `Hasher::finalize`. The contract claims that the result is the
/// CRC-32 (IEEE) of the bytes that were fed in, in their order, whatever the
/// split between the two updates: the hasher carries over from one update to
/// the next only the checksum of the bytes so far.
#[verifier::external_body]
pub(crate) fn crc32_of_parts(head: &[u8], tail: &[u8]) -> (crc: u32)
    ensures
        crc == crc32(head@ + tail@),
{
    let mut hasher = crc32fast::Hasher::new();
    hasher.update(head);
    hasher.update(tail);
    hasher.finalize()
}

/// Different registers stay different, whatever is divided out of them.
proof fn lemma_bits_injective(a: u32, b: u32, n: nat)
    requires
        a != b,
    ensures
        crc_bits(a, n) != crc_bits(b, n),
    decreases n,
{
    if n > 0 {
        lemma_bits_injective(a, b, (n - 1) as nat);
        let x = crc_bits(a, (n - 1) as nat);
        let y = crc_bits(b, (n - 1) as nat);
        assert(x != y ==> (if x & 1 == 1 {
            (x >> 1) ^ 0xedb8_8320u32
        } else {
            x >> 1
        }) != (if y & 1 == 1 {
            (y >> 1) ^ 0xedb8_8320u32
        } else {
            y >> 1
        })) by (bit_vector);
    }
}

proof fn lemma_state_differs(a: Seq<u8>, b: Seq<u8>, at: int)
    requires
        a.len() == b.len(),
        0 <= at < a.len(),
        a[at] != b[at],
        forall|i: int| 0 <= i < a.len() && i != at ==> a[i] == b[i],
    ensures
        crc_state(a) != crc_state(b),
    decreases a.len(),
{
    let x = crc_state(a.drop_last());
    let y = crc_state(b.drop_last());
    let c = a.last();
    let d = b.last();
    if at == a.len() - 1 {
        assert(a.drop_last() =~= b.drop_last());
        assert(c != d ==> x ^ c as u32 != x ^ d as u32) by (bit_vector);
    } else {
        lemma_state_differs(a.drop_last(), b.drop_last(), at);
        assert(x != y ==> x ^ c as u32 != y ^ c as u32) by (bit_vector);
    }
    lemma_bits_injective(x ^ c as u32, y ^ d as u32, 8);
}

/// Changing any one byte, wherever it stands, changes the checksum.
pub proof fn law_crc_detects_a_changed_byte(a: Seq<u8>, b: Seq<u8>, at: int)
    requires
        a.len() == b.len(),
        0 <= at < a.len(),
        a[at] != b[at],
        forall|i: int| 0 <= i < a.len() && i != at ==> a[i] == b[i],
    ensures
        crc32(a) != crc32(b),
{
    lemma_state_differs(a, b, at);
    let x = crc_state(a);
    let y = crc_state(b);
    assert(x != y ==> !x != !y) by (bit_vector);
}

/// Bits that are still above the end of the register only move down.
proof fn lemma_high_bits(low: u32, high: u32, n: nat)
    requires
        n <= 8,
        high & 0xff == 0,
    ensures
        crc_bits(low ^ high, n) == crc_bits(low, n) ^ (high >> n as u32),
    decreases n,
{
    if n == 0 {
        assert(low ^ high == low ^ (high >> 0u32)) by (bit_vector);
    } else {
        lemma_high_bits(low, high, (n - 1) as nat);
        let m = (n - 1) as u32;
        let k = n as u32;
        let x = crc_bits(low, m as nat);
        let y = high >> m;
        assert(y & 1 == 0 && high >> k == y >> 1) by (bit_vector)
            requires
                y == high >> m,
                high & 0xff == 0,
                m < 8,
                k == m + 1,
        ;
        assert(y & 1 == 0 ==> (if (x ^ y) & 1 == 1 {
            ((x ^ y) >> 1) ^ 0xedb8_8320u32
        } else {
            (x ^ y) >> 1
        }) == (if x & 1 == 1 {
            (x >> 1) ^ 0xedb8_8320u32
        } else {
            x >> 1
        }) ^ (y >> 1)) by (bit_vector);
    }
}

/// Feeding a byte in that is the complement of the last one of `rest` leaves
/// the other bytes of `rest`, and what does not depend on `rest`.
proof fn lemma_complement_byte(rest: u32, fixed: u32, byte: u8)
    requires
        byte as u32 == !rest & 0xff,
    ensures
        crc_bits((fixed ^ rest) ^ byte as u32, 8) == crc_bits(fixed ^ 0xff, 8) ^ (rest >> 8),
{
    let b = byte as u32;
    let high = rest & 0xffff_ff00;
    let low = fixed ^ 0xff;
    assert((fixed ^ rest) ^ b == low ^ high && high & 0xff == 0 && high >> 8 == rest >> 8)
        by (bit_vector)
        requires
            b == !rest & 0xff,
            high == rest & 0xffff_ff00,
            low == fixed ^ 0xff,
    ;
    lemma_high_bits(low, high, 8);
}

/// The bytes of a checksum, the low-order one first.
pub open spec fn trailer(crc: u32) -> Seq<u8> {
    seq![
        (crc & 0xff) as u8,
        ((crc >> 8) & 0xff) as u8,
        ((crc >> 16) & 0xff) as u8,
        ((crc >> 24) & 0xff) as u8,
    ]
}

/// The register after data and the checksum of the data does not depend on the
/// data.
proof fn lemma_trailer(data: Seq<u8>)
    ensures
        crc_state(data + trailer(crc32(data))) == crc_bits(
            crc_bits(crc_bits(crc_bits(0xff, 8) ^ 0xff, 8) ^ 0xff, 8) ^ 0xff,
            8,
        ),
{
    let s = crc_state(data);
    let t = trailer(crc32(data));
    let d1 = data.push(t[0]);
    let d2 = d1.push(t[1]);
    let d3 = d2.push(t[2]);
    let d4 = d3.push(t[3]);
    assert(d4 =~= data + t);
    assert(d4.drop_last() =~= d3);
    assert(d3.drop_last() =~= d2);
    assert(d2.drop_last() =~= d1);
    assert(d1.drop_last() =~= data);
    let c1 = crc_bits(0xff, 8);
    let c2 = crc_bits(c1 ^ 0xff, 8);
    let c3 = crc_bits(c2 ^ 0xff, 8);
    let c4 = crc_bits(c3 ^ 0xff, 8);
    assert(((!s) & 0xff) as u8 as u32 == !s & 0xff) by (bit_vector);
    assert((((!s) >> 8) & 0xff) as u8 as u32 == !(s >> 8) & 0xff) by (bit_vector);
    assert((((!s) >> 16) & 0xff) as u8 as u32 == !(s >> 16) & 0xff) by (bit_vector);
    assert((((!s) >> 24) & 0xff) as u8 as u32 == !(s >> 24) & 0xff) by (bit_vector);
    assert(0u32 ^ s == s && 0u32 ^ 0xff == 0xff) by (bit_vector);
    assert((s >> 8) >> 8 == s >> 16 && (s >> 16) >> 8 == s >> 24 && (s >> 24) >> 8 == 0)
        by (bit_vector);
    assert(c4 ^ 0 == c4) by (bit_vector);
    lemma_complement_byte(s, 0, t[0]);
    assert(crc_state(d1) == c1 ^ (s >> 8));
    lemma_complement_byte(s >> 8, c1, t[1]);
    assert(crc_state(d2) == c2 ^ (s >> 16));
    lemma_complement_byte(s >> 16, c2, t[2]);
    assert(crc_state(d3) == c3 ^ (s >> 24));
    lemma_complement_byte(s >> 24, c3, t[3]);
    assert(crc_state(d4) == c4);
}

/// Data that are followed by their own checksum, its low-order byte first, all
/// have the same checksum.
pub proof fn law_crc_residue(a: Seq<u8>, b: Seq<u8>)
    ensures
        crc32(a + trailer(crc32(a))) == crc32(b + trailer(crc32(b))),
{
    lemma_trailer(a);
    lemma_trailer(b);
}

} // verus!
