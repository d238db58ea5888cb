//! Conversions between host-native numbers and BabyJubjub curve points.
//!
//! Numbers arrive as native integers, decimal strings, `0x` hex strings or
//! big-endian byte buffers; they leave as canonical unsigned integers, hex
//! strings and byte buffers. The curve arithmetic itself is done by the
//! `babyjubjub-rs` crate.

pub mod bigint;
pub mod bytes;
pub mod curve;
pub mod error;
pub mod field;
pub mod ingest;
pub mod laws;
pub mod numeral;
pub mod point;
pub mod projective;

pub use crate::bigint::{BigInt, BigUint};
pub use crate::error::Error;
pub use crate::field::{biguint_to_hex_string, field_element_to_biguint, FieldElement};
pub use crate::ingest::{parse_hex_to_bigint, HostValue};
pub use crate::point::Point;
pub use crate::projective::PointProjective;
