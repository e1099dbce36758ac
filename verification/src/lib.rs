//! A pseudonymous group-signature scheme over a prime-order elliptic-curve
//! group.
//!
//! A group manager issues identity-bound credentials; members self-check their
//! credential and produce randomized, unlinkable signatures; a verifier checks
//! a signature against a message holding only the group manager's public key.
//!
//! Scalars and group elements are carried as their canonical 32-byte
//! encodings, and every contract is stated over those encodings: a scalar is
//! modeled by the integer its little-endian bytes encode, a group element by
//! its discrete logarithm with respect to the fixed base point.

pub mod bytes;
pub mod errors;
pub mod gm;
pub mod hash;
pub mod member;
pub mod model;
pub mod point;
pub mod scalar;
pub mod signature;
pub mod verifiyer;
