//! The canonical 32-byte encoding on known values and at its boundaries.

use field25519::FieldElement51;

/// `2^51 - 1`, a limb with all 51 bits set.
const FULL: u64 = 2251799813685247;

/// The bytes of `p = 2^255 - 19`, least significant first.
const P_BYTES: [u8; 32] = [
    0xed, 0xff, 0xff, 0xff, 0xff, 0xff, 0xff, 0xff, 0xff, 0xff, 0xff, 0xff, 0xff, 0xff, 0xff, 0xff,
    0xff, 0xff, 0xff, 0xff, 0xff, 0xff, 0xff, 0xff, 0xff, 0xff, 0xff, 0xff, 0xff, 0xff, 0xff, 0x7f,
];

/// Whether the little-endian integer `bytes` is below `p`.
fn below_p(bytes: &[u8; 32]) -> bool {
    let mut i: usize = 32;
    while i > 0 {
        i -= 1;
        if bytes[i] < P_BYTES[i] {
            return true;
        }
        if bytes[i] > P_BYTES[i] {
            return false;
        }
    }
    false
}

/// Five 51-bit limbs that stand for the integer `bytes`, which must be below `2^255`.
fn limbs_of(bytes: &[u8; 32]) -> [u64; 5] {
    let mut limbs: [u64; 5] = [0; 5];
    let mut bit: usize = 0;
    while bit < 255 {
        if (bytes[bit / 8] >> (bit % 8)) & 1 == 1 {
            limbs[bit / 51] |= 1u64 << (bit % 51);
        }
        bit += 1;
    }
    limbs
}

fn sample_inputs() -> Vec<[u64; 5]> {
    vec![
        [0, 0, 0, 0, 0],
        [1, 0, 0, 0, 0],
        [FULL - 19, FULL, FULL, FULL, FULL],
        [FULL - 18, FULL, FULL, FULL, FULL],
        [FULL - 17, FULL, FULL, FULL, FULL],
        [FULL, FULL, FULL, FULL, FULL],
        [u64::MAX, u64::MAX, u64::MAX, u64::MAX, u64::MAX],
        [u64::MAX, u64::MAX - 1, u64::MAX - 2, u64::MAX - 3, u64::MAX - 4],
        [0, 0, 0, 0, u64::MAX],
        [u64::MAX, 0, 0, 0, 0],
        [1 << 51, 0, 0, 0, 0],
        [
            0x123456789abcdef0,
            0x0fedcba987654321,
            0xdeadbeefcafebabe,
            0x0123456789abcdef,
            0xfedcba9876543210,
        ],
        [929955233495203, 466365720129213, 1662059464998953, 2033849074728123, 1442794654840575],
    ]
}

#[test]
fn zero_encodes_to_zero_bytes() {
    assert_eq!(FieldElement51([0, 0, 0, 0, 0]).to_bytes(), [0u8; 32]);
}

#[test]
fn one_encodes_to_one() {
    let mut want: [u8; 32] = [0; 32];
    want[0] = 1;
    assert_eq!(FieldElement51([1, 0, 0, 0, 0]).to_bytes(), want);
}

#[test]
fn small_constant_121666_encodes_little_endian() {
    let mut want: [u8; 32] = [0; 32];
    want[0] = 0x42;
    want[1] = 0xdb;
    want[2] = 0x01;
    assert_eq!(FieldElement51([121666, 0, 0, 0, 0]).to_bytes(), want);
}

#[test]
fn small_constant_486662_encodes_little_endian() {
    let mut want: [u8; 32] = [0; 32];
    want[0] = 0x06;
    want[1] = 0x6d;
    want[2] = 0x07;
    assert_eq!(FieldElement51([486662, 0, 0, 0, 0]).to_bytes(), want);
}

#[test]
fn p_minus_one_encodes_to_itself() {
    // 2^255 - 20: 0xec, then thirty bytes 0xff, then 0x7f.
    let mut want: [u8; 32] = [0xff; 32];
    want[0] = 0xec;
    want[31] = 0x7f;
    let x = FieldElement51([2251799813685228, FULL, FULL, FULL, FULL]);
    assert_eq!(x.to_bytes(), want);
}

#[test]
fn p_encodes_to_zero() {
    let x = FieldElement51([2251799813685229, FULL, FULL, FULL, FULL]);
    assert_eq!(x.to_bytes(), [0u8; 32]);
}

#[test]
fn p_plus_one_encodes_to_one() {
    let mut want: [u8; 32] = [0; 32];
    want[0] = 1;
    let x = FieldElement51([2251799813685230, FULL, FULL, FULL, FULL]);
    assert_eq!(x.to_bytes(), want);
}

#[test]
fn all_limbs_full_encodes_to_eighteen() {
    // 2^255 - 1 = p + 18.
    let mut want: [u8; 32] = [0; 32];
    want[0] = 18;
    assert_eq!(FieldElement51([FULL, FULL, FULL, FULL, FULL]).to_bytes(), want);
}

#[test]
fn carry_out_of_limb_zero_lands_in_bit_51() {
    // 2^51 sits in bit 3 of byte 6.
    let mut want: [u8; 32] = [0; 32];
    want[6] = 8;
    assert_eq!(FieldElement51([1 << 51, 0, 0, 0, 0]).to_bytes(), want);
}

#[test]
fn each_limb_starts_at_its_bit_offset() {
    let mut want: [u8; 32] = [0; 32];
    want[0] = 1; // bit 0
    want[6] = 1 << 3; // bit 51
    want[12] = 1 << 6; // bit 102
    want[19] = 1 << 1; // bit 153
    want[25] = 1 << 4; // bit 204
    assert_eq!(FieldElement51([1, 1, 1, 1, 1]).to_bytes(), want);
}

#[test]
fn top_bit_of_each_limb_lands_below_the_next() {
    let top: u64 = 1 << 50;
    let mut want: [u8; 32] = [0; 32];
    want[6] = 1 << 2; // bit 50
    want[12] = 1 << 5; // bit 101
    want[19] = 1 << 0; // bit 152
    want[25] = 1 << 3; // bit 203
    want[31] = 1 << 6; // bit 254
    assert_eq!(FieldElement51([top, top, top, top, top]).to_bytes(), want);
}

#[test]
fn maximal_limbs_encode_to_reduced_value() {
    let x = FieldElement51([u64::MAX, u64::MAX, u64::MAX, u64::MAX, u64::MAX]);
    let want: [u8; 32] = [
        255, 95, 2, 0, 0, 0, 248, 255, 0, 0, 0, 0, 192, 255, 7, 0, 0, 0, 0, 254, 63, 0, 0, 0, 0,
        240, 255, 1, 0, 0, 0, 0,
    ];
    assert_eq!(x.to_bytes(), want);
}

#[test]
fn near_maximal_limbs_encode_to_reduced_value() {
    let x = FieldElement51([u64::MAX, u64::MAX - 1, u64::MAX - 2, u64::MAX - 3, u64::MAX - 4]);
    let want: [u8; 32] = [
        255, 95, 2, 0, 0, 0, 240, 255, 0, 0, 0, 0, 64, 255, 7, 0, 0, 0, 0, 248, 63, 0, 0, 0, 0,
        176, 255, 1, 0, 0, 0, 0,
    ];
    assert_eq!(x.to_bytes(), want);
}

#[test]
fn maximal_top_limb_folds_back_times_nineteen() {
    let x = FieldElement51([0, 0, 0, 0, u64::MAX]);
    let want: [u8; 32] = [
        237, 95, 2, 0, 0, 0, 0, 0, 0, 0, 0, 0, 0, 0, 0, 0, 0, 0, 0, 0, 0, 0, 0, 0, 0, 240, 255,
        255, 255, 255, 255, 127,
    ];
    assert_eq!(x.to_bytes(), want);
}

#[test]
fn mixed_wide_limbs_encode_to_reduced_value() {
    let x = FieldElement51([
        0x123456789abcdef0,
        0x0fedcba987654321,
        0xdeadbeefcafebabe,
        0x0123456789abcdef,
        0xfedcba9876543210,
    ]);
    let want: [u8; 32] = [
        49, 60, 191, 154, 120, 86, 60, 43, 42, 59, 76, 93, 238, 46, 175, 191, 242, 187, 111, 137,
        211, 87, 19, 207, 138, 70, 35, 67, 101, 135, 169, 75,
    ];
    assert_eq!(x.to_bytes(), want);
}

#[test]
fn curve_constant_d_encodes_to_known_bytes() {
    let d = FieldElement51([
        929955233495203,
        466365720129213,
        1662059464998953,
        2033849074728123,
        1442794654840575,
    ]);
    let want: [u8; 32] = [
        163, 120, 89, 19, 202, 77, 235, 117, 171, 216, 65, 65, 77, 10, 112, 0, 152, 232, 121, 119,
        121, 64, 199, 140, 115, 254, 111, 43, 238, 108, 3, 82,
    ];
    assert_eq!(d.to_bytes(), want);
}

#[test]
fn square_root_of_minus_one_encodes_to_known_bytes() {
    let i = FieldElement51([
        1718705420411056,
        234908883556509,
        2233514472574048,
        2117202627021982,
        765476049583133,
    ]);
    let want: [u8; 32] = [
        176, 160, 14, 74, 39, 27, 238, 196, 120, 228, 47, 173, 6, 24, 67, 47, 167, 215, 251, 61,
        153, 0, 77, 43, 11, 223, 193, 79, 128, 36, 131, 43,
    ];
    assert_eq!(i.to_bytes(), want);
}

#[test]
fn encoded_value_is_below_p() {
    for limbs in sample_inputs() {
        let bytes: [u8; 32] = FieldElement51(limbs).to_bytes();
        assert!(below_p(&bytes), "{:?} encodes to {:?}", limbs, bytes);
    }
}

#[test]
fn maximal_input_stays_in_range() {
    let bytes: [u8; 32] =
        FieldElement51([u64::MAX, u64::MAX, u64::MAX, u64::MAX, u64::MAX]).to_bytes();
    assert!(below_p(&bytes));
    assert_eq!(bytes[31] & 0x80, 0);
}

#[test]
fn top_bit_of_last_byte_is_zero() {
    for limbs in sample_inputs() {
        let bytes: [u8; 32] = FieldElement51(limbs).to_bytes();
        assert_eq!(bytes[31] & 0b1000_0000, 0, "{:?}", limbs);
    }
}

#[test]
fn reencoding_yields_identical_bytes() {
    for limbs in sample_inputs() {
        let first: [u8; 32] = FieldElement51(limbs).to_bytes();
        let second: [u8; 32] = FieldElement51(limbs_of(&first)).to_bytes();
        assert_eq!(first, second, "{:?}", limbs);
    }
}

#[test]
fn congruent_elements_encode_alike() {
    // 5 and p + 5 are the same residue.
    let five = FieldElement51([5, 0, 0, 0, 0]);
    let p_plus_five = FieldElement51([FULL - 18 + 5, FULL, FULL, FULL, FULL]);
    assert_eq!(five.to_bytes(), p_plus_five.to_bytes());
    // 2^255 is 19.
    let nineteen = FieldElement51([19, 0, 0, 0, 0]);
    let two_to_255 = FieldElement51([0, 0, 0, 0, 1 << 51]);
    assert_eq!(nineteen.to_bytes(), two_to_255.to_bytes());
}

#[test]
fn encoding_leaves_the_element_unchanged() {
    let x = FieldElement51([u64::MAX, 7, 1 << 60, 0, 3]);
    let copy: FieldElement51 = x;
    let _ = x.to_bytes();
    assert_eq!(x.0, copy.0);
}
