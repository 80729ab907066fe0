//! Field elements of GF(2^255 - 19) in five 51-bit limbs: weak reduction and
//! the canonical byte encoding.

use vstd::prelude::*;
use crate::bits::{lemma_carry_bound, lemma_split_at_51};
use crate::carry::{
    lemma_limbs_value_is_value5, lemma_parallel_carry_value, lemma_same_residue,
    lemma_second_pass, lemma_weakly_reduced_below_2p,
};
use crate::model::{bytes_value, limbs_value, p, radix, weak_limb_max, weakly_reduced};
use crate::pack::{lemma_packed_value, packed};

verus! {

/// Mask of the low 51 bits of a limb, `2^51 - 1`.
pub const LOW_51_BIT_MASK: u64 = 0x7ffffffffffff;

/// An element of GF(2^255 - 19), held as five 64-bit limbs
/// `[l0, l1, l2, l3, l4]` that stand for
/// `l0 + l1 * 2^51 + l2 * 2^102 + l3 * 2^153 + l4 * 2^204`.
///
/// Every limb array is a valid element. The integer it stands for is
/// `value()`, and the element of the field, the view, is that integer's
/// residue modulo `p`.
#[derive(Copy, Clone)]
pub struct FieldElement51(pub [u64; 5]);

impl View for FieldElement51 {
    type V = nat;

    /// The element of the field: the residue modulo `p` of the integer that
    /// the limbs stand for.
    open spec fn view(&self) -> nat {
        limbs_value(self.0) % p()
    }
}

impl FieldElement51 {
    /// The integer that the limbs stand for, not reduced modulo `p`.
    pub open spec fn value(&self) -> nat {
        limbs_value(self.0)
    }

    /// Serialize this `FieldElement51` to a 32-byte array.  The
    /// encoding is canonical.
    ///
    /// The bytes are the little-endian digits of the one integer in `[0, p)`
    /// that is congruent to the element's value, so two limb arrays of the
    /// same residue give the same bytes. The top bit of the last byte is 0.
    /// Any limbs are accepted, and nothing here branches on them.
    pub fn to_bytes(&self) -> (s: [u8; 32])
        ensures
            bytes_value(s) == self@,
            bytes_value(s) < p(),
            s[31] & 0b1000_0000u8 == 0u8,
    {
        // Let h = limbs[0] + limbs[1]*2^51 + ... + limbs[4]*2^204.
        //
        // Write h = pq + r with 0 <= r < p.
        //
        // We want to compute r = h mod p.
        //
        // If h < 2*p = 2^256 - 38,
        // then q = 0 or 1,
        //
        // with q = 0 when h < p
        //  and q = 1 when h >= p.
        //
        // Notice that h >= p <==> h + 19 >= p + 19 <==> h + 19 >= 2^255.
        // Therefore q can be computed as the carry bit of h + 19.

        // First, reduce the limbs to ensure h < 2*p.
        let mut limbs = FieldElement51::reduce(self.0).0;
        let ghost weak = limbs;
        proof {
            assert(weak[0] <= weak_limb_max());
            assert(weak[1] <= weak_limb_max());
            assert(weak[2] <= weak_limb_max());
            assert(weak[3] <= weak_limb_max());
            assert(weak[4] <= weak_limb_max());
        }

        proof {
            lemma_carry_bound((weak[0] + 19) as u64);
        }
        let mut q: u64 = (limbs[0] + 19) >> 51;
        let ghost q0 = q;
        proof {
            lemma_carry_bound((weak[1] + q0) as u64);
        }
        q = (limbs[1] + q) >> 51;
        let ghost q1 = q;
        proof {
            lemma_carry_bound((weak[2] + q1) as u64);
        }
        q = (limbs[2] + q) >> 51;
        let ghost q2 = q;
        proof {
            lemma_carry_bound((weak[3] + q2) as u64);
        }
        q = (limbs[3] + q) >> 51;
        let ghost q3 = q;
        proof {
            lemma_carry_bound((weak[4] + q3) as u64);
        }
        q = (limbs[4] + q) >> 51;

        // Now we can compute r as r = h - pq = r - (2^255-19)q = r + 19q - 2^255q

        limbs[0] += 19 * q;
        let ghost m0 = limbs[0];
        proof {
            lemma_carry_bound(m0);
        }

        // Now carry the result to compute r + 19q ...
        let low_51_bit_mask: u64 = LOW_51_BIT_MASK;
        limbs[1] += limbs[0] >> 51;
        limbs[0] = limbs[0] & low_51_bit_mask;
        let ghost m1 = limbs[1];
        proof {
            lemma_carry_bound(m1);
        }
        limbs[2] += limbs[1] >> 51;
        limbs[1] = limbs[1] & low_51_bit_mask;
        let ghost m2 = limbs[2];
        proof {
            lemma_carry_bound(m2);
        }
        limbs[3] += limbs[2] >> 51;
        limbs[2] = limbs[2] & low_51_bit_mask;
        let ghost m3 = limbs[3];
        proof {
            lemma_carry_bound(m3);
        }
        limbs[4] += limbs[3] >> 51;
        limbs[3] = limbs[3] & low_51_bit_mask;
        let ghost m4 = limbs[4];
        // ... but instead of carrying (limbs[4] >> 51) = 2^255q
        // into another limb, discard it, subtracting the value
        limbs[4] = limbs[4] & low_51_bit_mask;

        // Now arrange the bits of the limbs.
        proof {
            lemma_second_pass(weak, q0, q1, q2, q3, q, m0, m1, m2, m3, m4, limbs);
        }
        FieldElement51::pack(limbs)
    }

    /// Lay out five limbs of at most 51 bits each in 32 bytes, little-endian:
    /// limb `k` takes bits `51 * k` to `51 * k + 50`, and bit 255 stays 0.
    fn pack(limbs: [u64; 5]) -> (s: [u8; 32])
        requires
            forall|i: int| 0 <= i < 5 ==> limbs[i] <= LOW_51_BIT_MASK,
        ensures
            packed(limbs, s),
            bytes_value(s) == limbs_value(limbs),
            s[31] & 0b1000_0000u8 == 0u8,
    {
        let mut s = [0u8;32];
        s[ 0] = #[verifier::truncate] ( limbs[0]        as u8);
        s[ 1] = #[verifier::truncate] ((limbs[0] >>  8) as u8);
        s[ 2] = #[verifier::truncate] ((limbs[0] >> 16) as u8);
        s[ 3] = #[verifier::truncate] ((limbs[0] >> 24) as u8);
        s[ 4] = #[verifier::truncate] ((limbs[0] >> 32) as u8);
        s[ 5] = #[verifier::truncate] ((limbs[0] >> 40) as u8);
        s[ 6] = #[verifier::truncate] (((limbs[0] >> 48) | (limbs[1] << 3)) as u8);
        s[ 7] = #[verifier::truncate] ((limbs[1] >>  5) as u8);
        s[ 8] = #[verifier::truncate] ((limbs[1] >> 13) as u8);
        s[ 9] = #[verifier::truncate] ((limbs[1] >> 21) as u8);
        s[10] = #[verifier::truncate] ((limbs[1] >> 29) as u8);
        s[11] = #[verifier::truncate] ((limbs[1] >> 37) as u8);
        s[12] = #[verifier::truncate] (((limbs[1] >> 45) | (limbs[2] << 6)) as u8);
        s[13] = #[verifier::truncate] ((limbs[2] >>  2) as u8);
        s[14] = #[verifier::truncate] ((limbs[2] >> 10) as u8);
        s[15] = #[verifier::truncate] ((limbs[2] >> 18) as u8);
        s[16] = #[verifier::truncate] ((limbs[2] >> 26) as u8);
        s[17] = #[verifier::truncate] ((limbs[2] >> 34) as u8);
        s[18] = #[verifier::truncate] ((limbs[2] >> 42) as u8);
        s[19] = #[verifier::truncate] (((limbs[2] >> 50) | (limbs[3] << 1)) as u8);
        s[20] = #[verifier::truncate] ((limbs[3] >>  7) as u8);
        s[21] = #[verifier::truncate] ((limbs[3] >> 15) as u8);
        s[22] = #[verifier::truncate] ((limbs[3] >> 23) as u8);
        s[23] = #[verifier::truncate] ((limbs[3] >> 31) as u8);
        s[24] = #[verifier::truncate] ((limbs[3] >> 39) as u8);
        s[25] = #[verifier::truncate] (((limbs[3] >> 47) | (limbs[4] << 4)) as u8);
        s[26] = #[verifier::truncate] ((limbs[4] >>  4) as u8);
        s[27] = #[verifier::truncate] ((limbs[4] >> 12) as u8);
        s[28] = #[verifier::truncate] ((limbs[4] >> 20) as u8);
        s[29] = #[verifier::truncate] ((limbs[4] >> 28) as u8);
        s[30] = #[verifier::truncate] ((limbs[4] >> 36) as u8);
        s[31] = #[verifier::truncate] ((limbs[4] >> 44) as u8);

        // High bit should be zero.
        proof {
            lemma_packed_value(limbs, s);
        }
        assert((s[31] & 0b1000_0000u8) == 0u8);

        s
    }

    /// Given 64-bit input limbs, reduce to enforce the bound 2^(51 + epsilon).
    ///
    /// Every carry is taken from the limbs as they came in, so this is one
    /// parallel pass: limb `i + 1` receives the carry of limb `i`, and limb 0
    /// receives 19 times the carry of limb 4, since `2^255 = 19 (mod p)`.
    pub fn reduce(limbs: [u64; 5]) -> (r: FieldElement51)
        ensures
            r.0[0] == limbs[0] as nat % radix() + 19 * (limbs[4] as nat / radix()),
            r.0[1] == limbs[1] as nat % radix() + limbs[0] as nat / radix(),
            r.0[2] == limbs[2] as nat % radix() + limbs[1] as nat / radix(),
            r.0[3] == limbs[3] as nat % radix() + limbs[2] as nat / radix(),
            r.0[4] == limbs[4] as nat % radix() + limbs[3] as nat / radix(),
            weakly_reduced(r.0),
            r.value() + p() * (limbs[4] as nat / radix()) == limbs_value(limbs),
            r@ == limbs_value(limbs) % p(),
            r.value() < 2 * p(),
    {
        let mut limbs = limbs;
        let ghost given = limbs;

        // Since the input limbs are bounded by 2^64, the biggest
        // carry-out is bounded by 2^13.
        //
        // The biggest carry-in is c4 * 19, resulting in
        //
        // 2^51 + 19*2^13 < 2^51.0000000001
        //
        // Because we don't need to canonicalize, only to reduce the
        // limb sizes, it's OK to do a "weak reduction", where we
        // compute the carry-outs in parallel.
        proof {
            lemma_split_at_51(limbs[0]);
            lemma_split_at_51(limbs[1]);
            lemma_split_at_51(limbs[2]);
            lemma_split_at_51(limbs[3]);
            lemma_split_at_51(limbs[4]);
        }

        let c0: u64 = limbs[0] >> 51;
        let c1: u64 = limbs[1] >> 51;
        let c2: u64 = limbs[2] >> 51;
        let c3: u64 = limbs[3] >> 51;
        let c4: u64 = limbs[4] >> 51;

        limbs[0] &= LOW_51_BIT_MASK;
        limbs[1] &= LOW_51_BIT_MASK;
        limbs[2] &= LOW_51_BIT_MASK;
        limbs[3] &= LOW_51_BIT_MASK;
        limbs[4] &= LOW_51_BIT_MASK;

        limbs[0] += c4 * 19;
        limbs[1] += c0;
        limbs[2] += c1;
        limbs[3] += c2;
        limbs[4] += c3;

        proof {
            lemma_limbs_value_is_value5(given);
            lemma_limbs_value_is_value5(limbs);
            lemma_parallel_carry_value(
                given[0] as int % 0x8000000000000,
                given[1] as int % 0x8000000000000,
                given[2] as int % 0x8000000000000,
                given[3] as int % 0x8000000000000,
                given[4] as int % 0x8000000000000,
                c0 as int,
                c1 as int,
                c2 as int,
                c3 as int,
                c4 as int,
            );
            lemma_same_residue(limbs_value(given) as int, limbs_value(limbs) as int, c4 as int);
            lemma_weakly_reduced_below_2p(limbs);
        }
        FieldElement51(limbs)
    }
}

} // verus!
