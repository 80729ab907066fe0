//! What holds of the encoding as a whole: the constants are the powers of two
//! they are named after, a byte string is determined by its value, and the
//! encoding of an element depends on its residue alone.

use vstd::prelude::*;
use vstd::arithmetic::div_mod::lemma_mod_twice;
use vstd::arithmetic::power2::{lemma2_to64_rest, lemma_pow2_adds, pow2};
use crate::carry::lemma_same_residue;
use crate::field::FieldElement51;
use crate::model::{bytes_value, le_value_from, p, radix, weight2, weight3, weight4, weight5};

verus! {

/// The limb weights are the powers `2^51`, `2^102`, `2^153`, `2^204` and
/// `2^255`, and the prime is `2^255 - 19`.
pub proof fn lemma_weights_are_powers_of_two()
    ensures
        radix() == pow2(51),
        weight2() == pow2(102),
        weight3() == pow2(153),
        weight4() == pow2(204),
        weight5() == pow2(255),
        p() == pow2(255) - 19,
{
    lemma2_to64_rest();
    lemma_pow2_adds(51, 51);
    lemma_pow2_adds(102, 51);
    lemma_pow2_adds(153, 51);
    lemma_pow2_adds(204, 51);
    let r = pow2(51);
    let w2 = pow2(102);
    let w3 = pow2(153);
    let w4 = pow2(204);
    assert(r * r == weight2()) by (nonlinear_arith)
        requires
            r == radix(),
    ;
    assert(w2 * r == weight3()) by (nonlinear_arith)
        requires
            w2 == weight2(),
            r == radix(),
    ;
    assert(w3 * r == weight4()) by (nonlinear_arith)
        requires
            w3 == weight3(),
            r == radix(),
    ;
    assert(w4 * r == weight5()) by (nonlinear_arith)
        requires
            w4 == weight4(),
            r == radix(),
    ;
}

/// Two byte strings of one length whose little-endian values from `from` on
/// agree hold the same bytes from `from` on.
pub proof fn lemma_le_value_injective(a: Seq<u8>, b: Seq<u8>, from: int)
    requires
        a.len() == b.len(),
        0 <= from <= a.len(),
        le_value_from(a, from) == le_value_from(b, from),
    ensures
        forall|i: int| from <= i < a.len() ==> a[i] == b[i],
    decreases a.len() - from,
{
    if from < a.len() {
        lemma_le_value_injective(a, b, from + 1);
    }
}

/// An integer has at most one 32-byte encoding: byte strings of equal value
/// are equal.
pub proof fn lemma_bytes_value_injective(a: [u8; 32], b: [u8; 32])
    requires
        bytes_value(a) == bytes_value(b),
    ensures
        a == b,
{
    lemma_le_value_injective(a@, b@, 0);
    assert(a =~= b);
}

/// The encoding depends on the element alone: if `s` encodes `x`, `t`
/// encodes `y`, and `x` and `y` are the same element of the field, whatever
/// their limbs, then `s` and `t` are the same bytes.
pub proof fn lemma_encoding_of_residue(
    x: FieldElement51,
    y: FieldElement51,
    s: [u8; 32],
    t: [u8; 32],
)
    requires
        x@ == y@,
        bytes_value(s) == x@,
        bytes_value(t) == y@,
    ensures
        s == t,
{
    lemma_bytes_value_injective(s, t);
}

/// Encoding is idempotent: if `s` encodes `x`, and `again` is an element
/// whose limbs stand for the integer that `s` spells, then the encoding `t`
/// of `again` is `s` itself.
pub proof fn lemma_encoding_idempotent(
    x: FieldElement51,
    s: [u8; 32],
    again: FieldElement51,
    t: [u8; 32],
)
    requires
        bytes_value(s) == x@,
        again.value() == bytes_value(s),
        bytes_value(t) == again@,
    ensures
        t == s,
{
    lemma_mod_twice(x.value() as int, p() as int);
    lemma_bytes_value_injective(t, s);
}

/// The encoding ignores multiples of `p`: if the value of `r` and `k * p`
/// add up to the value of `x`, as they do when `r` is the weak reduction of
/// `x`, then `r` and `x` encode to the same bytes.
pub proof fn lemma_multiple_of_p_is_invisible(
    x: FieldElement51,
    r: FieldElement51,
    k: nat,
    s: [u8; 32],
    t: [u8; 32],
)
    requires
        r.value() + p() * k == x.value(),
        bytes_value(s) == x@,
        bytes_value(t) == r@,
    ensures
        s == t,
{
    lemma_same_residue(x.value() as int, r.value() as int, k as int);
    lemma_bytes_value_injective(s, t);
}

} // verus!
