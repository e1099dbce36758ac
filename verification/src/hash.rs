//! Hashing: the SHA-256 digest, named but not restated, and its reduction to
//! a scalar, which every binding in the protocol goes through.

use vstd::prelude::*;
use crate::bytes::{le_bytes_to_nat, lemma_le_bytes_to_nat_injective};
use crate::scalar::{group_order, GroupScalar};
use sha2::{Digest, Sha256};

verus! {

/// The SHA-256 digest of a byte string: a function of its input alone, whose
/// definition is left to the hash library.
pub uninterp spec fn sha256_of(input: Seq<u8>) -> Seq<u8>;

/// Relies on `sha2::Sha256`: the digest is 32 bytes and depends on the input
/// bytes alone.
#[verifier::external_body]
pub fn hash_sha256(binary: &[u8]) -> (r: Vec<u8>)
    ensures
        r@ == sha256_of(binary@),
        r@.len() == 32,
{
    let mut hasher = Sha256::new();
    hasher.update(binary);
    hasher.finalize().to_vec()
}

/// The scalar a byte string hashes to: its SHA-256 digest, read as a
/// little-endian integer and reduced modulo the group order.
pub open spec fn hash_to_scalar_spec(input: Seq<u8>) -> nat {
    le_bytes_to_nat(sha256_of(input)) % group_order()
}

/// Hashes a byte string to a scalar, the one derivation used for every
/// binding exponent and challenge in the protocol.
pub fn hash_to_scalar(input: &[u8]) -> (r: GroupScalar)
    ensures
        r.wf(),
        r.val() == hash_to_scalar_spec(input@),
{
    let digest = hash_sha256(input);
    GroupScalar::from_bytes_mod_order(&digest)
}

/// Hashing to a scalar is deterministic: two well-formed scalars that both
/// carry the hash of the same input are byte-for-byte the same scalar.
pub proof fn lemma_hash_to_scalar_deterministic(a: GroupScalar, b: GroupScalar, input: Seq<u8>)
    requires
        a.wf(),
        b.wf(),
        a.val() == hash_to_scalar_spec(input),
        b.val() == hash_to_scalar_spec(input),
    ensures
        a@ == b@,
{
    lemma_le_bytes_to_nat_injective(a@, b@);
}

} // verus!
