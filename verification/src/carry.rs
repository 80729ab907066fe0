//! Integer facts behind carry propagation over five 51-bit limbs.

use vstd::prelude::*;
use vstd::arithmetic::div_mod::lemma_mod_multiples_vanish;
use crate::bits::lemma_carry_and_low_bits;
use crate::model::{
    limbs_value, p, radix, weak_limb_max, weakly_reduced, weight2, weight3, weight4, weight5,
};

verus! {

/// `l0 + l1 * 2^51 + l2 * 2^102 + l3 * 2^153 + l4 * 2^204` over plain integers.
pub open spec fn value5(l0: int, l1: int, l2: int, l3: int, l4: int) -> int {
    l0 + l1 * radix() + l2 * weight2() + l3 * weight3() + l4 * weight4()
}

/// `limbs_value` is `value5` of the five limbs.
pub proof fn lemma_limbs_value_is_value5(limbs: [u64; 5])
    ensures
        limbs_value(limbs) == value5(
            limbs[0] as int,
            limbs[1] as int,
            limbs[2] as int,
            limbs[3] as int,
            limbs[4] as int,
        ),
{
}

/// Moving each carry `c_i` one limb up, and the top carry times 19 into
/// limb 0, takes `c4 * p` off the value.
pub proof fn lemma_parallel_carry_value(
    a0: int,
    a1: int,
    a2: int,
    a3: int,
    a4: int,
    c0: int,
    c1: int,
    c2: int,
    c3: int,
    c4: int,
)
    ensures
        value5(a0 + 19 * c4, a1 + c0, a2 + c1, a3 + c2, a4 + c3) + p() * c4 == value5(
            a0 + c0 * radix(),
            a1 + c1 * radix(),
            a2 + c2 * radix(),
            a3 + c3 * radix(),
            a4 + c4 * radix(),
        ),
{
}

/// A sequential ripple over five limbs: `add` enters limb 0, each limb keeps
/// its remainder `r_i` and hands its quotient `d_i` to the next. The value
/// with `add` is then the value of the remainders and `d4 * 2^255`.
pub proof fn lemma_sequential_carry_value(
    l0: int,
    l1: int,
    l2: int,
    l3: int,
    l4: int,
    add: int,
    d0: int,
    d1: int,
    d2: int,
    d3: int,
    d4: int,
    r0: int,
    r1: int,
    r2: int,
    r3: int,
    r4: int,
)
    requires
        l0 + add == d0 * radix() + r0,
        l1 + d0 == d1 * radix() + r1,
        l2 + d1 == d2 * radix() + r2,
        l3 + d2 == d3 * radix() + r3,
        l4 + d3 == d4 * radix() + r4,
    ensures
        value5(l0, l1, l2, l3, l4) + add == value5(r0, r1, r2, r3, r4) + d4 * weight5(),
{
}

/// Five limbs of 51 bits each stand for an integer below `2^255`.
pub proof fn lemma_value5_below_weight5(r0: int, r1: int, r2: int, r3: int, r4: int)
    requires
        0 <= r0 < radix(),
        0 <= r1 < radix(),
        0 <= r2 < radix(),
        0 <= r3 < radix(),
        0 <= r4 < radix(),
    ensures
        0 <= value5(r0, r1, r2, r3, r4) < weight5(),
{
}

/// The carry out of `h + 19` past bit 255 tells whether `h >= p`: with
/// `h < 2 * p` it is 1 exactly when `h >= p`, and 0 otherwise.
pub proof fn lemma_carry_of_plus_19(h: int, q: int, r: int)
    requires
        0 <= h < 2 * p(),
        h + 19 == q * weight5() + r,
        0 <= r < weight5(),
    ensures
        q == 0 || q == 1,
        q == 1 <==> h >= p(),
{
}

/// Adding `19 * q` and dropping the carry `c` out of bit 255 subtracts
/// `q * p`, and leaves the residue of `h` modulo `p`.
pub proof fn lemma_conditional_subtraction(h: int, q: int, v: int, c: int)
    requires
        0 <= h < 2 * p(),
        q == 0 || q == 1,
        q == 1 <==> h >= p(),
        h + 19 * q == v + c * weight5(),
        0 <= v < weight5(),
    ensures
        c == q,
        v == h - q * p(),
        0 <= v < p(),
        v == h % (p() as int),
{
    assert(c == q) by {
        if q == 0 {
            assert(c * weight5() < weight5());
        } else {
            assert(c * weight5() > 0);
            assert(c * weight5() < 2 * weight5());
        }
    }
    vstd::arithmetic::div_mod::lemma_fundamental_div_mod_converse(h, p() as int, q, v);
}

/// The second pass of the encoder, on weakly reduced limbs `weak`:
/// `q0`, ..., `q3`, `q` is the carry chain of adding 19, `m0`, ..., `m4` are
/// the limbs while `19 * q` ripples through them, and `canon` holds their low
/// 51 bits. Then `q` is 1 exactly when the value is at least `p`, and `canon`
/// stands for the value's residue modulo `p`, in limbs of at most 51 bits.
pub proof fn lemma_second_pass(
    weak: [u64; 5],
    q0: u64,
    q1: u64,
    q2: u64,
    q3: u64,
    q: u64,
    m0: u64,
    m1: u64,
    m2: u64,
    m3: u64,
    m4: u64,
    canon: [u64; 5],
)
    requires
        weakly_reduced(weak),
        q0 == ((weak[0] + 19) as u64) >> 51,
        q1 == ((weak[1] + q0) as u64) >> 51,
        q2 == ((weak[2] + q1) as u64) >> 51,
        q3 == ((weak[3] + q2) as u64) >> 51,
        q == ((weak[4] + q3) as u64) >> 51,
        m0 == weak[0] + 19 * q,
        m1 == weak[1] + (m0 >> 51),
        m2 == weak[2] + (m1 >> 51),
        m3 == weak[3] + (m2 >> 51),
        m4 == weak[4] + (m3 >> 51),
        canon[0] == m0 & 0x7ffffffffffff,
        canon[1] == m1 & 0x7ffffffffffff,
        canon[2] == m2 & 0x7ffffffffffff,
        canon[3] == m3 & 0x7ffffffffffff,
        canon[4] == m4 & 0x7ffffffffffff,
    ensures
        q == (if limbs_value(weak) >= p() { 1nat } else { 0nat }),
        forall|i: int| 0 <= i < 5 ==> canon[i] <= 0x7ffffffffffff,
        limbs_value(canon) == limbs_value(weak) - q * p(),
        limbs_value(canon) == limbs_value(weak) % p(),
{
    assert(weak[0] <= weak_limb_max());
    assert(weak[1] <= weak_limb_max());
    assert(weak[2] <= weak_limb_max());
    assert(weak[3] <= weak_limb_max());
    assert(weak[4] <= weak_limb_max());
    let a0 = (weak[0] + 19) as u64;
    let a1 = (weak[1] + q0) as u64;
    let a2 = (weak[2] + q1) as u64;
    let a3 = (weak[3] + q2) as u64;
    let a4 = (weak[4] + q3) as u64;
    lemma_carry_and_low_bits(a0);
    lemma_carry_and_low_bits(a1);
    lemma_carry_and_low_bits(a2);
    lemma_carry_and_low_bits(a3);
    lemma_carry_and_low_bits(a4);
    lemma_carry_and_low_bits(m0);
    lemma_carry_and_low_bits(m1);
    lemma_carry_and_low_bits(m2);
    lemma_carry_and_low_bits(m3);
    lemma_carry_and_low_bits(m4);
    let h = limbs_value(weak) as int;
    lemma_limbs_value_is_value5(weak);
    lemma_limbs_value_is_value5(canon);
    lemma_weakly_reduced_below_2p(weak);
    let t0 = (a0 & 0x7ffffffffffff) as int;
    let t1 = (a1 & 0x7ffffffffffff) as int;
    let t2 = (a2 & 0x7ffffffffffff) as int;
    let t3 = (a3 & 0x7ffffffffffff) as int;
    let t4 = (a4 & 0x7ffffffffffff) as int;
    assert((q == 0 || q == 1) && (q == 1 <==> h >= p())) by {
        lemma_sequential_carry_value(
            weak[0] as int,
            weak[1] as int,
            weak[2] as int,
            weak[3] as int,
            weak[4] as int,
            19,
            q0 as int,
            q1 as int,
            q2 as int,
            q3 as int,
            q as int,
            t0,
            t1,
            t2,
            t3,
            t4,
        );
        lemma_value5_below_weight5(t0, t1, t2, t3, t4);
        lemma_carry_of_plus_19(h, q as int, value5(t0, t1, t2, t3, t4));
    }
    lemma_sequential_carry_value(
        weak[0] as int,
        weak[1] as int,
        weak[2] as int,
        weak[3] as int,
        weak[4] as int,
        19 * q,
        (m0 >> 51) as int,
        (m1 >> 51) as int,
        (m2 >> 51) as int,
        (m3 >> 51) as int,
        (m4 >> 51) as int,
        canon[0] as int,
        canon[1] as int,
        canon[2] as int,
        canon[3] as int,
        canon[4] as int,
    );
    lemma_value5_below_weight5(
        canon[0] as int,
        canon[1] as int,
        canon[2] as int,
        canon[3] as int,
        canon[4] as int,
    );
    lemma_conditional_subtraction(h, q as int, limbs_value(canon) as int, (m4 >> 51) as int);
}

/// Weakly reduced limbs stand for an integer below `2 * p`.
pub proof fn lemma_weakly_reduced_below_2p(limbs: [u64; 5])
    requires
        weakly_reduced(limbs),
    ensures
        limbs_value(limbs) < 2 * p(),
{
    assert(limbs[0] <= weak_limb_max());
    assert(limbs[1] <= weak_limb_max());
    assert(limbs[2] <= weak_limb_max());
    assert(limbs[3] <= weak_limb_max());
    assert(limbs[4] <= weak_limb_max());
}

/// Two integers that differ by a multiple of `p` have the same residue.
pub proof fn lemma_same_residue(x: int, y: int, k: int)
    requires
        x == y + p() * k,
    ensures
        x % (p() as int) == y % (p() as int),
{
    lemma_mod_multiples_vanish(k, y, p() as int);
}

} // verus!
