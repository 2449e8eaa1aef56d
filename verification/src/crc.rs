//! CRC-16 integrity check used by the Modbus-RTU frames.
//!
//! The check runs over all frame bytes that precede it and travels on the
//! wire as two bytes, low byte first.

use vstd::prelude::*;

verus! {

/// One shift-and-conditional-xor step of the check computation.
pub open spec fn crc16_bit(crc: u16) -> u16 {
    if crc & 1 == 1 {
        (crc >> 1) ^ 0xA001
    } else {
        crc >> 1
    }
}

/// `k` bit steps applied in order.
pub open spec fn crc16_bits(crc: u16, k: nat) -> u16
    decreases k,
{
    if k == 0 {
        crc
    } else {
        crc16_bits(crc16_bit(crc), (k - 1) as nat)
    }
}

/// Folding one byte into the running check: xor it in, then eight bit steps.
pub open spec fn crc16_byte(crc: u16, b: u8) -> u16 {
    crc16_bits(crc ^ (b as u16), 8)
}

/// The check over the first `n` bytes, starting from the initial value
/// 0xFFFF.
pub open spec fn crc16_prefix(bytes: Seq<u8>, n: int) -> u16
    decreases n,
{
    if n <= 0 {
        0xFFFF
    } else {
        crc16_byte(crc16_prefix(bytes, n - 1), bytes[n - 1])
    }
}

/// The 16-bit integrity check of a byte sequence.
pub open spec fn crc16(bytes: Seq<u8>) -> u16 {
    crc16_prefix(bytes, bytes.len() as int)
}

/// Applying one more bit step after `k` steps is the same as taking `k + 1`
/// steps.
proof fn lemma_crc16_bits_snoc(crc: u16, k: nat)
    ensures
        crc16_bits(crc, k + 1) == crc16_bit(crc16_bits(crc, k)),
    decreases k,
{
    if k == 0 {
        assert(crc16_bits(crc, 1) == crc16_bits(crc16_bit(crc), 0));
    } else {
        lemma_crc16_bits_snoc(crc16_bit(crc), (k - 1) as nat);
        assert(crc16_bits(crc, k + 1) == crc16_bits(crc16_bit(crc), k));
    }
}

/// The bit step loses no information: the low bit that the shift drops is
/// recorded in the top bit through the conditional xor.
proof fn lemma_crc16_bit_injective(a: u16, b: u16)
    requires
        crc16_bit(a) == crc16_bit(b),
    ensures
        a == b,
{
    assert((if a & 1 == 1 {
        (a >> 1) ^ 0xA001u16
    } else {
        a >> 1
    }) == (if b & 1 == 1 {
        (b >> 1) ^ 0xA001u16
    } else {
        b >> 1
    }) ==> a == b) by (bit_vector);
}

/// Any fixed number of bit steps is injective.
proof fn lemma_crc16_bits_injective(a: u16, b: u16, k: nat)
    requires
        crc16_bits(a, k) == crc16_bits(b, k),
    ensures
        a == b,
    decreases k,
{
    if k > 0 {
        lemma_crc16_bits_injective(crc16_bit(a), crc16_bit(b), (k - 1) as nat);
        lemma_crc16_bit_injective(a, b);
    }
}

/// Folding the same byte into two different running checks keeps them
/// different.
proof fn lemma_crc16_byte_injective(c1: u16, c2: u16, b: u8)
    requires
        crc16_byte(c1, b) == crc16_byte(c2, b),
    ensures
        c1 == c2,
{
    lemma_crc16_bits_injective(c1 ^ (b as u16), c2 ^ (b as u16), 8);
    let x = b as u16;
    assert(c1 ^ x == c2 ^ x ==> c1 == c2) by (bit_vector);
}

/// Folding two different bytes into the same running check yields two
/// different checks.
proof fn lemma_crc16_byte_sensitive(c: u16, b1: u8, b2: u8)
    requires
        b1 != b2,
    ensures
        crc16_byte(c, b1) != crc16_byte(c, b2),
{
    assert(b1 != b2 ==> c ^ (b1 as u16) != c ^ (b2 as u16)) by (bit_vector);
    if crc16_byte(c, b1) == crc16_byte(c, b2) {
        lemma_crc16_bits_injective(c ^ (b1 as u16), c ^ (b2 as u16), 8);
    }
}

/// The check over `n` bytes reads only those bytes.
pub proof fn lemma_crc16_prefix_congruent(s1: Seq<u8>, s2: Seq<u8>, n: int)
    requires
        n <= s1.len(),
        n <= s2.len(),
        forall|i: int| 0 <= i < n ==> s1[i] == s2[i],
    ensures
        crc16_prefix(s1, n) == crc16_prefix(s2, n),
    decreases n,
{
    if n > 0 {
        lemma_crc16_prefix_congruent(s1, s2, n - 1);
    }
}

/// The check over `n` bytes distinguishes two sequences that differ in
/// exactly one of those bytes: every single-byte corruption moves the
/// check value.
pub proof fn lemma_crc16_single_corruption(s1: Seq<u8>, s2: Seq<u8>, k: int, n: int)
    requires
        n <= s1.len(),
        n <= s2.len(),
        0 <= k < n,
        s1[k] != s2[k],
        forall|i: int| 0 <= i < n && i != k ==> s1[i] == s2[i],
    ensures
        crc16_prefix(s1, n) != crc16_prefix(s2, n),
    decreases n,
{
    if n == k + 1 {
        lemma_crc16_prefix_congruent(s1, s2, k);
        lemma_crc16_byte_sensitive(crc16_prefix(s1, k), s1[k], s2[k]);
    } else {
        lemma_crc16_single_corruption(s1, s2, k, n - 1);
        if crc16_prefix(s1, n) == crc16_prefix(s2, n) {
            lemma_crc16_byte_injective(crc16_prefix(s1, n - 1), crc16_prefix(s2, n - 1), s1[n - 1]);
        }
    }
}

/// Computes the 16-bit integrity check of `bytes`.
pub fn compute_crc16(bytes: &[u8]) -> (r: u16)
    ensures
        r == crc16(bytes@),
{
    let n = bytes.len();
    let mut crc: u16 = 0xFFFF;
    let mut i: usize = 0;
    while i < n
        invariant
            i <= n,
            n == bytes@.len(),
            crc == crc16_prefix(bytes@, i as int),
        decreases n - i,
    {
        crc = crc ^ (bytes[i] as u16);
        let ghost start: u16 = crc;
        let mut k: usize = 0;
        while k < 8
            invariant
                k <= 8,
                crc == crc16_bits(start, k as nat),
            decreases 8 - k,
        {
            proof {
                lemma_crc16_bits_snoc(start, k as nat);
            }
            if crc & 1 == 1 {
                crc = (crc >> 1) ^ 0xA001;
            } else {
                crc = crc >> 1;
            }
            k = k + 1;
        }
        i = i + 1;
    }
    crc
}

} // verus!
