//! Elements of the prime-order group, carried as their canonical 32-byte
//! encoding and modeled by their discrete logarithm with respect to the fixed
//! base point.
//!
//! The group is cyclic of prime order, so every element is a unique multiple
//! of the base point; `point_log` names that multiple. All group arithmetic is
//! delegated to `curve25519_dalek`'s Ristretto group, whose canonical
//! encodings are in one-to-one correspondence with the group elements.

use vstd::prelude::*;
use crate::bytes::push_all;
use crate::errors::DecodingError;
use crate::scalar::{group_order, GroupScalar};
use curve25519_dalek::constants::RISTRETTO_BASEPOINT_POINT;
use curve25519_dalek::ristretto::{CompressedRistretto, RistrettoPoint};
use curve25519_dalek::traits::Identity;

verus! {

/// Whether a byte string is the canonical encoding of a group element.
pub uninterp spec fn is_group_elem(s: Seq<u8>) -> bool;

/// The discrete logarithm, below the group order, of the group element a byte
/// string encodes, with respect to the fixed base point.
pub uninterp spec fn point_log(s: Seq<u8>) -> nat;

/// The canonical encoding of the group element whose discrete logarithm is
/// `n`: what compression returns for that element. Encodings are unique per
/// element, so a well-formed encoding is fixed by its discrete logarithm.
pub uninterp spec fn point_enc(n: nat) -> Seq<u8>;

/// A group element, held as its canonical 32-byte encoding.
pub struct GroupPoint {
    pub(crate) bytes: Vec<u8>,
}

impl View for GroupPoint {
    type V = Seq<u8>;

    closed spec fn view(&self) -> Seq<u8> {
        self.bytes@
    }
}

impl GroupPoint {
    /// A well-formed group element: a canonical 32-byte encoding, as every
    /// value produced by this module is. A canonical encoding is unique per
    /// element, hence fixed by its discrete logarithm.
    pub open spec fn wf(&self) -> bool {
        self@.len() == 32 && is_group_elem(self@) && point_log(self@) < group_order()
            && self@ == point_enc(point_log(self@))
    }

    /// The canonical encoding of this group element.
    pub fn to_bytes(&self) -> (r: Vec<u8>)
        ensures
            r@ == self@,
    {
        let mut out: Vec<u8> = Vec::new();
        push_all(&mut out, self.bytes.as_slice());
        out
    }

    /// An owned copy of this group element.
    pub fn dup(&self) -> (r: GroupPoint)
        ensures
            r@ == self@,
    {
        GroupPoint { bytes: self.to_bytes() }
    }
}

/// Relies on multiplication of the Ristretto base point by a scalar in
/// `curve25519_dalek`: the compressed result is the canonical encoding of the
/// group element whose discrete logarithm is the (reduced) scalar, and
/// compression is deterministic, so the bytes are a function of the scalar.
#[verifier::external_body]
pub fn generate_public_key(secret_key: &GroupScalar) -> (r: GroupPoint)
    requires
        secret_key.wf(),
    ensures
        r.wf(),
        point_log(r@) == secret_key.val(),
        r@ == point_enc(secret_key.val()),
{
    let s = curve25519_dalek::scalar::Scalar::from_canonical_bytes(
        secret_key.bytes.as_slice().try_into().unwrap(),
    )
    .unwrap();
    GroupPoint { bytes: (RISTRETTO_BASEPOINT_POINT * s).compress().to_bytes().to_vec() }
}

/// Relies on Ristretto point addition in `curve25519_dalek`: discrete
/// logarithms add modulo the group order.
#[verifier::external_body]
pub fn point_add(p: &GroupPoint, q: &GroupPoint) -> (r: GroupPoint)
    requires
        p.wf(),
        q.wf(),
    ensures
        r.wf(),
        point_log(r@) == (point_log(p@) + point_log(q@)) % group_order(),
{
    let pp = CompressedRistretto::from_slice(p.bytes.as_slice()).unwrap().decompress().unwrap();
    let qq = CompressedRistretto::from_slice(q.bytes.as_slice()).unwrap().decompress().unwrap();
    GroupPoint { bytes: (pp + qq).compress().to_bytes().to_vec() }
}

/// Relies on Ristretto scalar multiplication in `curve25519_dalek`: the
/// discrete logarithm is multiplied by the scalar, modulo the group order.
#[verifier::external_body]
pub fn point_scalar_mul(p: &GroupPoint, k: &GroupScalar) -> (r: GroupPoint)
    requires
        p.wf(),
        k.wf(),
    ensures
        r.wf(),
        point_log(r@) == (point_log(p@) * k.val()) % group_order(),
{
    let pp = CompressedRistretto::from_slice(p.bytes.as_slice()).unwrap().decompress().unwrap();
    let s = curve25519_dalek::scalar::Scalar::from_canonical_bytes(
        k.bytes.as_slice().try_into().unwrap(),
    )
    .unwrap();
    GroupPoint { bytes: (pp * s).compress().to_bytes().to_vec() }
}

/// Relies on `CompressedRistretto::from_slice` and `decompress` in
/// `curve25519_dalek`: decompression succeeds exactly on the canonical
/// 32-byte encodings of group elements, and returns the element they encode.
#[verifier::external_body]
pub(crate) fn point_decompress(bytes: &Vec<u8>) -> (r: Option<GroupPoint>)
    ensures
        r.is_some() == (bytes@.len() == 32 && is_group_elem(bytes@)),
        r.is_some() ==> r.unwrap()@ == bytes@ && r.unwrap().wf(),
{
    let compressed = match CompressedRistretto::from_slice(bytes.as_slice()) {
        Ok(c) => c,
        Err(_) => return None,
    };
    match compressed.decompress() {
        Some(_) => Some(GroupPoint { bytes: bytes.clone() }),
        None => None,
    }
}

/// Decodes a byte string into a group element, rejecting anything that is
/// not a canonical 32-byte encoding and rejecting the identity element,
/// which no honest protocol value ever is.
pub fn decode_point(bytes: &Vec<u8>) -> (r: Result<GroupPoint, DecodingError>)
    ensures
        r.is_ok() == (bytes@.len() == 32 && is_group_elem(bytes@) && point_log(bytes@) != 0),
        r.is_ok() ==> r.unwrap()@ == bytes@ && r.unwrap().wf(),
{
    match point_decompress(bytes) {
        Some(p) => {
            if point_is_identity(&p) {
                Err(DecodingError)
            } else {
                Ok(p)
            }
        },
        None => Err(DecodingError),
    }
}

/// Relies on equality of `RistrettoPoint`s in `curve25519_dalek`: two group
/// elements are equal exactly when their discrete logarithms agree, the group
/// being cyclic with the base point as generator.
#[verifier::external_body]
pub fn points_equal(p: &GroupPoint, q: &GroupPoint) -> (r: bool)
    requires
        p.wf(),
        q.wf(),
    ensures
        r == (point_log(p@) == point_log(q@)),
{
    let pp = CompressedRistretto::from_slice(p.bytes.as_slice()).unwrap().decompress().unwrap();
    let qq = CompressedRistretto::from_slice(q.bytes.as_slice()).unwrap().decompress().unwrap();
    pp == qq
}

/// Relies on `RistrettoPoint::identity` and point equality in
/// `curve25519_dalek`: the identity element is the one whose discrete
/// logarithm is zero.
#[verifier::external_body]
pub(crate) fn point_is_identity(p: &GroupPoint) -> (r: bool)
    requires
        p.wf(),
    ensures
        r == (point_log(p@) == 0),
{
    let pp = CompressedRistretto::from_slice(p.bytes.as_slice()).unwrap().decompress().unwrap();
    pp == RistrettoPoint::identity()
}

} // verus!
