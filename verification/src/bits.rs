//! Bit-level helpers on a 64-bit candidate word: fields and byte parity.

use vstd::prelude::*;

verus! {

/// The word with ones at the positions `lsb..=msb` and zeros elsewhere;
/// zero when the range is empty.
pub open spec fn field_mask(msb: u64, lsb: u64) -> u64
    recommends
        msb < 64,
        lsb < 64,
{
    (0xffff_ffff_ffff_ffffu64 >> ((63 - msb) as u64)) & (0xffff_ffff_ffff_ffffu64 << lsb)
}

/// The bits `lsb..=msb` of `message` moved down to position 0, of which the
/// low eight are kept.
pub open spec fn word_field(message: u64, msb: u64, lsb: u64) -> u64
    recommends
        msb < 64,
        lsb < 64,
{
    ((message & field_mask(msb, lsb)) >> lsb) & 0xff
}

/// The bit field `lsb_posn..=msb_posn` of `message` as a byte.
pub open spec fn spec_bit_field(message: u64, msb_posn: u8, lsb_posn: u8) -> u8
    recommends
        msb_posn < 64,
        lsb_posn < 64,
{
    word_field(message, msb_posn as u64, lsb_posn as u64) as u8
}

/// Reads the bit field `lsb_posn..=msb_posn` (both inclusive) of `message`.
/// A field is at most eight bits wide; of a wider range the low eight bits
/// are returned, and an empty range reads as zero.
pub fn read_bit_field(message: u64, msb_posn: u8, lsb_posn: u8) -> (field: u8)
    requires
        msb_posn < 64,
        lsb_posn < 64,
    ensures
        field == spec_bit_field(message, msb_posn, lsb_posn),
{
    let mut keep_bits_mask: u64 = 0;
    let mut n: u8 = lsb_posn;
    while n <= msb_posn
        invariant
            msb_posn < 64,
            lsb_posn <= n <= 64,
            lsb_posn <= msb_posn ==> n <= msb_posn + 1,
            lsb_posn > msb_posn ==> n == lsb_posn,
            n == lsb_posn ==> keep_bits_mask == 0,
            n > lsb_posn ==> keep_bits_mask == field_mask((n - 1) as u64, lsb_posn as u64),
        decreases 64 - n,
    {
        proof {
            lemma_mask_grows(keep_bits_mask, n as u64, lsb_posn as u64);
        }
        keep_bits_mask |= 1u64 << (n as u64);
        n += 1;
    }
    proof {
        if msb_posn < lsb_posn {
            lemma_mask_empty(msb_posn as u64, lsb_posn as u64);
        }
        assert(keep_bits_mask == field_mask(msb_posn as u64, lsb_posn as u64));
    }
    let bit_field: u64 = (message & keep_bits_mask) >> (lsb_posn as u64);
    let low_byte: u64 = bit_field & 0xff;
    proof {
        assert(bit_field & 0xff < 256) by (bit_vector);
    }
    low_byte as u8
}

/// Adding bit `n` to the mask of `lsb..n` gives the mask of `lsb..=n`.
proof fn lemma_mask_grows(mask: u64, n: u64, lsb: u64)
    requires
        lsb <= n < 64,
        n == lsb ==> mask == 0,
        n > lsb ==> mask == field_mask((n - 1) as u64, lsb),
    ensures
        mask | (1u64 << n) == field_mask(n, lsb),
{
    if n == lsb {
        assert(0u64 | (1u64 << n) == field_mask(n, n)) by (bit_vector)
            requires
                n < 64,
        ;
    } else {
        let p: u64 = (n - 1) as u64;
        assert(field_mask(p, lsb) | (1u64 << n) == field_mask(n, lsb)) by (bit_vector)
            requires
                lsb < n,
                n < 64,
                p == n - 1,
        ;
    }
}

/// The mask of an empty range is zero.
proof fn lemma_mask_empty(msb: u64, lsb: u64)
    requires
        msb < lsb < 64,
    ensures
        field_mask(msb, lsb) == 0,
{
    assert(field_mask(msb, lsb) == 0) by (bit_vector)
        requires
            msb < lsb,
            lsb < 64,
    ;
}

/// Bit `i` of a field no wider than eight bits is bit `lsb_posn + i` of the
/// word it was read from, and the field has no bits above its width.
pub proof fn lemma_bit_field_bits(message: u64, msb_posn: u8, lsb_posn: u8, i: u8)
    requires
        lsb_posn <= msb_posn < 64,
        msb_posn - lsb_posn < 8,
    ensures
        i <= msb_posn - lsb_posn ==> ((spec_bit_field(message, msb_posn, lsb_posn) as u64 >> (
        i as u64)) & 1) == ((message >> ((lsb_posn + i) as u64)) & 1),
        (spec_bit_field(message, msb_posn, lsb_posn) as u64) >> ((msb_posn - lsb_posn + 1) as u64)
            == 0,
{
    let l: u64 = lsb_posn as u64;
    let m: u64 = msb_posn as u64;
    let k: u64 = i as u64;
    let w: u64 = (m - l + 1) as u64;
    let f: u64 = word_field(message, m, l);
    assert(f < 256) by (bit_vector)
        requires
            f == word_field(message, m, l),
    ;
    assert(f as u8 as u64 == f);
    assert(f >> w == 0) by (bit_vector)
        requires
            f == word_field(message, m, l),
            l <= m,
            m < 64,
            w == m - l + 1,
    ;
    if i <= msb_posn - lsb_posn {
        let s: u64 = (l + k) as u64;
        assert((f >> k) & 1 == (message >> s) & 1) by (bit_vector)
            requires
                f == word_field(message, m, l),
                l <= m,
                m < 64,
                m - l < 8,
                k <= m - l,
                s == l + k,
        ;
    }
}

/// Whether `n` has an odd number of one bits.
pub open spec fn odd_parity(n: u8) -> bool {
    (n ^ (n >> 1) ^ (n >> 2) ^ (n >> 3) ^ (n >> 4) ^ (n >> 5) ^ (n >> 6) ^ (n >> 7)) & 1 == 1
}

/// Clearing the lowest one bit of a non-zero byte gives a smaller byte of
/// the opposite parity.
proof fn lemma_clear_lowest_bit(n: u8)
    requires
        n != 0,
    ensures
        n & ((n - 1) as u8) < n,
        odd_parity(n & ((n - 1) as u8)) == !odd_parity(n),
{
    let m: u8 = (n - 1) as u8;
    assert(n & m < n && odd_parity(n & m) == !odd_parity(n)) by (bit_vector)
        requires
            n != 0,
            m == n - 1,
    ;
}

/// The parity of `n`: `true` when the number of one bits is odd, `false`
/// when it is even.
pub fn get_parity(n: u8) -> (parity: bool)
    ensures
        parity == odd_parity(n),
{
    let mut parity: bool = false;
    let mut rest: u8 = n;
    while rest != 0
        invariant
            (parity != odd_parity(rest)) == odd_parity(n),
        decreases rest,
    {
        proof {
            lemma_clear_lowest_bit(rest);
        }
        parity = !parity;
        rest = rest & (rest - 1);
    }
    proof {
        assert(!odd_parity(0u8)) by (bit_vector);
    }
    parity
}

/// Flipping any one bit of a byte flips its parity.
pub proof fn lemma_parity_flips(n: u8, i: u8)
    requires
        i < 8,
    ensures
        odd_parity(n ^ (1u8 << i)) == !odd_parity(n),
{
    assert(odd_parity(n ^ (1u8 << i)) == !odd_parity(n)) by (bit_vector)
        requires
            i < 8,
    ;
}

} // verus!
