//! The mathematical model: what integer a limb array and a byte string stand for.

use vstd::prelude::*;

verus! {

/// `2^51`, the radix of the limb representation and the weight of limb 1.
pub open spec fn radix() -> nat {
    0x8000000000000
}

/// `2^102`, the weight of limb 2.
pub open spec fn weight2() -> nat {
    0x40000000000000000000000000nat
}

/// `2^153`, the weight of limb 3.
pub open spec fn weight3() -> nat {
    0x200000000000000000000000000000000000000nat
}

/// `2^204`, the weight of limb 4.
pub open spec fn weight4() -> nat {
    0x1000000000000000000000000000000000000000000000000000nat
}

/// `2^255`, one past the largest value that five 51-bit limbs can hold.
pub open spec fn weight5() -> nat {
    0x8000000000000000000000000000000000000000000000000000000000000000nat
}

/// The field prime `p = 2^255 - 19`.
pub open spec fn p() -> nat {
    0x7fffffffffffffffffffffffffffffffffffffffffffffffffffffffffffffednat
}

/// The integer that five limbs represent:
/// `l0 + l1 * 2^51 + l2 * 2^102 + l3 * 2^153 + l4 * 2^204`.
pub open spec fn limbs_value(limbs: [u64; 5]) -> nat {
    (limbs[0] as nat) + (limbs[1] as nat) * radix() + (limbs[2] as nat) * weight2() + (
    limbs[3] as nat) * weight3() + (limbs[4] as nat) * weight4()
}

/// The largest value of a limb after weak reduction: 51 bits and the
/// largest carry that can come in, `2^51 - 1 + 19 * (2^13 - 1)`.
pub open spec fn weak_limb_max() -> nat {
    0x7ffffffffffff + 19 * 0x1fff
}

/// Weakly reduced: every limb is within 51 bits plus the carry slack. Such
/// limbs stand for an integer below `2 * p`, though not always below `p`.
pub open spec fn weakly_reduced(limbs: [u64; 5]) -> bool {
    forall|i: int| 0 <= i < 5 ==> limbs[i] <= weak_limb_max()
}

/// The little-endian value of the bytes of `bytes` from index `from` on:
/// `bytes[from] + 256 * bytes[from + 1] + 256^2 * bytes[from + 2] + ...`.
pub open spec fn le_value_from(bytes: Seq<u8>, from: int) -> nat
    decreases bytes.len() - from,
{
    if 0 <= from < bytes.len() {
        (bytes[from] as nat) + 256 * le_value_from(bytes, from + 1)
    } else {
        0
    }
}

/// The integer that 32 bytes encode, least significant byte first.
pub open spec fn bytes_value(bytes: [u8; 32]) -> nat {
    le_value_from(bytes@, 0)
}

} // verus!
