//! Facts about shifts, masks and truncating casts, each settled by the
//! bit-vector solver and restated over `/`, `%` and `+` for the integer proofs.

use vstd::prelude::*;

verus! {

/// Shifting right by 51 divides by `2^51`, and masking with `2^51 - 1`
/// takes the remainder.
pub proof fn lemma_split_at_51(x: u64)
    by (bit_vector)
    ensures
        x >> 51 == x / 0x8000000000000,
        x & 0x7ffffffffffff == x % 0x8000000000000,
        (x >> 51) <= 0x1fff,
        (x & 0x7ffffffffffff) <= 0x7ffffffffffff,
{
}

/// The carry of a 64-bit limb has at most 13 bits.
pub proof fn lemma_carry_bound(x: u64)
    by (bit_vector)
    ensures
        (x >> 51) <= 0x1fff,
{
}

/// A limb is its carry times `2^51` plus its low 51 bits.
pub proof fn lemma_carry_and_low_bits(x: u64)
    by (bit_vector)
    ensures
        x == (x >> 51) * 0x8000000000000 + (x & 0x7ffffffffffff),
        (x >> 51) <= 0x1fff,
        (x & 0x7ffffffffffff) <= 0x7ffffffffffff,
{
}

/// A limb of 51 bits that starts on a byte boundary: six whole bytes, and
/// three bits left over for the next byte.
pub proof fn lemma_bytes_of_limb0(x: u64)
    by (bit_vector)
    requires
        x <= 0x7ffffffffffff,
    ensures
        x == (x as u8) + 0x100 * ((x >> 8) as u8) + 0x10000 * ((x >> 16) as u8) + 0x1000000 * ((x
            >> 24) as u8) + 0x100000000 * ((x >> 32) as u8) + 0x10000000000 * ((x >> 40) as u8)
            + 0x1000000000000 * (x >> 48),
        (x >> 48) <= 0x7,
{
}

/// A limb of 51 bits that starts at bit 3 of a byte: five low bits, five
/// whole bytes, and six bits left over.
pub proof fn lemma_bytes_of_limb1(x: u64)
    by (bit_vector)
    requires
        x <= 0x7ffffffffffff,
    ensures
        x == (x & 0x1f) + 0x20 * ((x >> 5) as u8) + 0x2000 * ((x >> 13) as u8) + 0x200000 * ((x
            >> 21) as u8) + 0x20000000 * ((x >> 29) as u8) + 0x2000000000 * ((x >> 37) as u8)
            + 0x200000000000 * (x >> 45),
        (x >> 45) <= 0x3f,
{
}

/// A limb of 51 bits that starts at bit 6 of a byte: two low bits, six
/// whole bytes, and one bit left over.
pub proof fn lemma_bytes_of_limb2(x: u64)
    by (bit_vector)
    requires
        x <= 0x7ffffffffffff,
    ensures
        x == (x & 0x3) + 0x4 * ((x >> 2) as u8) + 0x400 * ((x >> 10) as u8) + 0x40000 * ((x
            >> 18) as u8) + 0x4000000 * ((x >> 26) as u8) + 0x400000000 * ((x >> 34) as u8)
            + 0x40000000000 * ((x >> 42) as u8) + 0x4000000000000 * (x >> 50),
        (x >> 50) <= 0x1,
{
}

/// A limb of 51 bits that starts at bit 1 of a byte: seven low bits, five
/// whole bytes, and four bits left over.
pub proof fn lemma_bytes_of_limb3(x: u64)
    by (bit_vector)
    requires
        x <= 0x7ffffffffffff,
    ensures
        x == (x & 0x7f) + 0x80 * ((x >> 7) as u8) + 0x8000 * ((x >> 15) as u8) + 0x800000 * ((x
            >> 23) as u8) + 0x80000000 * ((x >> 31) as u8) + 0x8000000000 * ((x >> 39) as u8)
            + 0x800000000000 * (x >> 47),
        (x >> 47) <= 0xf,
{
}

/// A limb of 51 bits that starts at bit 4 of a byte: four low bits, five
/// whole bytes, and seven bits in a last byte whose top bit stays clear.
pub proof fn lemma_bytes_of_limb4(x: u64)
    by (bit_vector)
    requires
        x <= 0x7ffffffffffff,
    ensures
        x == (x & 0xf) + 0x10 * ((x >> 4) as u8) + 0x1000 * ((x >> 12) as u8) + 0x100000 * ((x
            >> 20) as u8) + 0x10000000 * ((x >> 28) as u8) + 0x1000000000 * ((x >> 36) as u8)
            + 0x100000000000 * ((x >> 44) as u8),
        ((x >> 44) as u8) <= 0x7f,
        ((x >> 44) as u8) & 0x80 == 0,
{
}

/// A byte that straddles two limbs: the bits left over from the lower limb
/// sit below the low bits of the upper limb, and the `|` is their sum.
pub proof fn lemma_straddling_byte(rest: u64, upper: u64)
    by (bit_vector)
    ensures
        rest <= 0x7 ==> ((rest | (upper << 3)) as u8) == rest + 0x8 * (upper & 0x1f),
        rest <= 0x3f ==> ((rest | (upper << 6)) as u8) == rest + 0x40 * (upper & 0x3),
        rest <= 0x1 ==> ((rest | (upper << 1)) as u8) == rest + 0x2 * (upper & 0x7f),
        rest <= 0xf ==> ((rest | (upper << 4)) as u8) == rest + 0x10 * (upper & 0xf),
{
}

} // verus!
