//! Five-limb arithmetic representation of the field GF(2^255 - 19) and its
//! canonical 32-byte little-endian encoding.
//!
//! `model` says what integer a limb array and a byte string stand for,
//! `field` holds the element type with its weak reduction and its encoder,
//! and `laws` states what holds of the encoding as a whole. `bits`, `carry`
//! and `pack` hold the lemmas that the proofs in `field` rest on.

pub mod bits;
pub mod carry;
pub mod field;
pub mod laws;
pub mod model;
pub mod pack;

pub use crate::field::FieldElement51;
