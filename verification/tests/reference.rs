//! Encodings held against the constants that curve25519-dalek publishes.

use curve25519_dalek::constants::{
    ED25519_BASEPOINT_COMPRESSED, ED25519_BASEPOINT_POINT, X25519_BASEPOINT,
};
use field25519::FieldElement51;

#[test]
fn montgomery_basepoint_is_nine() {
    let u = FieldElement51([9, 0, 0, 0, 0]);
    assert_eq!(u.to_bytes(), X25519_BASEPOINT.to_bytes());
    assert_eq!(u.to_bytes(), ED25519_BASEPOINT_POINT.to_montgomery().to_bytes());
}

#[test]
fn edwards_basepoint_y_matches_compressed_point() {
    // The basepoint's x is even, so its compressed form is its y alone.
    let y = FieldElement51([
        1801439850948184,
        1351079888211148,
        450359962737049,
        900719925474099,
        1801439850948198,
    ]);
    assert_eq!(y.to_bytes(), ED25519_BASEPOINT_COMPRESSED.to_bytes());
    assert_eq!(y.to_bytes(), ED25519_BASEPOINT_POINT.compress().to_bytes());
}

#[test]
fn edwards_basepoint_x_is_even() {
    let x = FieldElement51([
        1738742601995546,
        1146398526822698,
        2070867633025821,
        562264141797630,
        587772402128613,
    ]);
    let want: [u8; 32] = [
        26, 213, 37, 143, 96, 45, 86, 201, 178, 167, 37, 149, 96, 199, 44, 105, 92, 220, 214, 253,
        49, 226, 164, 192, 254, 83, 110, 205, 211, 54, 105, 33,
    ];
    assert_eq!(x.to_bytes(), want);
    assert_eq!(x.to_bytes()[0] & 1, 0);
}

#[test]
fn unreduced_y_matches_compressed_point() {
    // y + p, in limbs above 51 bits, is the same element.
    let y_plus_p = FieldElement51([
        1801439850948184 + 2251799813685229,
        1351079888211148 + 2251799813685247,
        450359962737049 + 2251799813685247,
        900719925474099 + 2251799813685247,
        1801439850948198 + 2251799813685247,
    ]);
    assert_eq!(y_plus_p.to_bytes(), ED25519_BASEPOINT_COMPRESSED.to_bytes());
}
