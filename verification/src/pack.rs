//! The bit layout of five 51-bit limbs in 32 bytes, and why the bytes so
//! filled encode the integer that the limbs stand for.

use vstd::prelude::*;
use crate::bits::{
    lemma_bytes_of_limb0, lemma_bytes_of_limb1, lemma_bytes_of_limb2, lemma_bytes_of_limb3,
    lemma_bytes_of_limb4, lemma_straddling_byte,
};
use crate::model::{bytes_value, le_value_from, limbs_value};

verus! {

/// The little-endian value of the eight bytes of `s` that start at index `i`.
pub open spec fn word_at(s: Seq<u8>, i: int) -> nat {
    (s[i] as nat) + 0x100 * (s[i + 1] as nat) + 0x10000 * (s[i + 2] as nat) + 0x1000000 * (s[i
        + 3] as nat) + 0x100000000 * (s[i + 4] as nat) + 0x10000000000 * (s[i + 5] as nat)
        + 0x1000000000000 * (s[i + 6] as nat) + 0x100000000000000 * (s[i + 7] as nat)
}

/// Eight steps of `le_value_from` at once.
pub proof fn lemma_le_value_eight(s: Seq<u8>, i: int)
    requires
        0 <= i,
        i + 8 <= s.len(),
    ensures
        le_value_from(s, i) == word_at(s, i) + 0x10000000000000000 * le_value_from(s, i + 8),
{
    reveal_with_fuel(le_value_from, 9);
}

/// The value of 32 bytes, as four words of eight bytes.
pub proof fn lemma_bytes_value_words(b: [u8; 32])
    ensures
        bytes_value(b) == word_at(b@, 0) + 0x10000000000000000 * word_at(b@, 8)
            + 0x100000000000000000000000000000000 * word_at(b@, 16)
            + 0x1000000000000000000000000000000000000000000000000 * word_at(b@, 24),
{
    lemma_le_value_eight(b@, 0);
    lemma_le_value_eight(b@, 8);
    lemma_le_value_eight(b@, 16);
    lemma_le_value_eight(b@, 24);
    assert(le_value_from(b@, 32) == 0);
}

/// `s` holds the 255 bits of `limbs`, limb `k` in bits `51 * k` to
/// `51 * k + 50`, bit 0 being the lowest bit of `s[0]`. A byte that spans two
/// limbs joins the top bits of one with the low bits of the next.
pub open spec fn packed(limbs: [u64; 5], s: [u8; 32]) -> bool {
    &&& s[0] == limbs[0] as u8
    &&& s[1] == (limbs[0] >> 8) as u8
    &&& s[2] == (limbs[0] >> 16) as u8
    &&& s[3] == (limbs[0] >> 24) as u8
    &&& s[4] == (limbs[0] >> 32) as u8
    &&& s[5] == (limbs[0] >> 40) as u8
    &&& s[6] == ((limbs[0] >> 48) | (limbs[1] << 3)) as u8
    &&& s[7] == (limbs[1] >> 5) as u8
    &&& s[8] == (limbs[1] >> 13) as u8
    &&& s[9] == (limbs[1] >> 21) as u8
    &&& s[10] == (limbs[1] >> 29) as u8
    &&& s[11] == (limbs[1] >> 37) as u8
    &&& s[12] == ((limbs[1] >> 45) | (limbs[2] << 6)) as u8
    &&& s[13] == (limbs[2] >> 2) as u8
    &&& s[14] == (limbs[2] >> 10) as u8
    &&& s[15] == (limbs[2] >> 18) as u8
    &&& s[16] == (limbs[2] >> 26) as u8
    &&& s[17] == (limbs[2] >> 34) as u8
    &&& s[18] == (limbs[2] >> 42) as u8
    &&& s[19] == ((limbs[2] >> 50) | (limbs[3] << 1)) as u8
    &&& s[20] == (limbs[3] >> 7) as u8
    &&& s[21] == (limbs[3] >> 15) as u8
    &&& s[22] == (limbs[3] >> 23) as u8
    &&& s[23] == (limbs[3] >> 31) as u8
    &&& s[24] == (limbs[3] >> 39) as u8
    &&& s[25] == ((limbs[3] >> 47) | (limbs[4] << 4)) as u8
    &&& s[26] == (limbs[4] >> 4) as u8
    &&& s[27] == (limbs[4] >> 12) as u8
    &&& s[28] == (limbs[4] >> 20) as u8
    &&& s[29] == (limbs[4] >> 28) as u8
    &&& s[30] == (limbs[4] >> 36) as u8
    &&& s[31] == (limbs[4] >> 44) as u8
}

/// Bytes packed from limbs of at most 51 bits encode the limbs' value, and
/// the top bit of the last byte is clear.
pub proof fn lemma_packed_value(limbs: [u64; 5], s: [u8; 32])
    requires
        forall|i: int| 0 <= i < 5 ==> limbs[i] <= 0x7ffffffffffff,
        packed(limbs, s),
    ensures
        bytes_value(s) == limbs_value(limbs),
        s[31] & 0x80 == 0,
        s[31] < 0x80,
{
    lemma_bytes_value_words(s);
    lemma_bytes_of_limb0(limbs[0]);
    lemma_bytes_of_limb1(limbs[1]);
    lemma_bytes_of_limb2(limbs[2]);
    lemma_bytes_of_limb3(limbs[3]);
    lemma_bytes_of_limb4(limbs[4]);
    lemma_straddling_byte(limbs[0] >> 48, limbs[1]);
    lemma_straddling_byte(limbs[1] >> 45, limbs[2]);
    lemma_straddling_byte(limbs[2] >> 50, limbs[3]);
    lemma_straddling_byte(limbs[3] >> 47, limbs[4]);
}

} // verus!
