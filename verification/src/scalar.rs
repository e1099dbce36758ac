//! Scalars of the prime-order group, carried as their canonical 32-byte
//! little-endian encoding and modeled by the integer that encoding holds.
//!
//! All arithmetic is delegated to `curve25519_dalek::scalar::Scalar`, whose
//! values are integers modulo the group order; each trusted wrapper states
//! what the delegated operation returns in terms of `val`.

use vstd::prelude::*;
use crate::bytes::{is_all_zero, le_bytes_to_nat, lemma_le_bytes_to_nat_zero, push_all};
use curve25519_dalek::scalar::Scalar;
use rand_core::OsRng;

verus! {

/// The order of the group: the 253-bit prime whose hexadecimal form is
/// `0x1000000000000000000000000000000014def9dea2f79cd65812631a5cf5d3ed`.
pub open spec fn group_order() -> nat {
    7237005577332262213973186563042994240857116359379907606001950938285454250989nat
}

/// A scalar modulo the group order, held as its canonical little-endian
/// 32-byte encoding.
pub struct GroupScalar {
    pub(crate) bytes: Vec<u8>,
}

impl View for GroupScalar {
    type V = Seq<u8>;

    closed spec fn view(&self) -> Seq<u8> {
        self.bytes@
    }
}

impl GroupScalar {
    /// The integer this scalar's bytes encode.
    pub open spec fn val(&self) -> nat {
        le_bytes_to_nat(self@)
    }

    /// A well-formed scalar: 32 bytes encoding an integer below the group
    /// order, as every scalar produced by this module is.
    pub open spec fn wf(&self) -> bool {
        self@.len() == 32 && self.val() < group_order()
    }

    /// Relies on `curve25519_dalek::scalar::Scalar::from_bytes_mod_order`,
    /// which reduces a 256-bit little-endian integer modulo the group order,
    /// and on `Scalar::to_bytes`, which returns the canonical little-endian
    /// encoding of the reduced value.
    #[verifier::external_body]
    pub fn from_bytes_mod_order(bytes: &Vec<u8>) -> (r: GroupScalar)
        requires
            bytes@.len() == 32,
        ensures
            r.wf(),
            r.val() == le_bytes_to_nat(bytes@) % group_order(),
    {
        let arr: [u8; 32] = bytes.as_slice().try_into().unwrap();
        GroupScalar { bytes: Scalar::from_bytes_mod_order(arr).to_bytes().to_vec() }
    }

    /// Relies on `curve25519_dalek::scalar::Scalar::from_canonical_bytes`,
    /// which accepts exactly the canonical encodings: 32 bytes whose
    /// little-endian value lies below the group order.
    #[verifier::external_body]
    pub fn from_canonical_bytes(bytes: &Vec<u8>) -> (r: Option<GroupScalar>)
        ensures
            r.is_some() == (bytes@.len() == 32 && le_bytes_to_nat(bytes@) < group_order()),
            r.is_some() ==> r.unwrap()@ == bytes@,
    {
        let arr: [u8; 32] = match bytes.as_slice().try_into() {
            Ok(a) => a,
            Err(_) => return None,
        };
        let ct = Scalar::from_canonical_bytes(arr);
        Option::<Scalar>::from(ct).map(|s| GroupScalar { bytes: s.to_bytes().to_vec() })
    }

    /// Relies on `curve25519_dalek::scalar::Scalar::random`, sampling again
    /// in the negligible case that the source returns zero, as a nonzero
    /// ephemeral secret must; the result is a uniform nonzero scalar in
    /// canonical encoding.
    #[verifier::external_body]
    pub fn random_nonzero() -> (r: GroupScalar)
        ensures
            r.wf(),
            r.val() != 0,
    {
        loop {
            let s = Scalar::random(&mut OsRng);
            if s != Scalar::ZERO {
                return GroupScalar { bytes: s.to_bytes().to_vec() };
            }
        }
    }

    /// True exactly when this scalar is zero.
    pub fn is_zero(&self) -> (r: bool)
        ensures
            r <==> self.val() == 0,
    {
        proof {
            lemma_le_bytes_to_nat_zero(self@);
        }
        is_all_zero(&self.bytes)
    }

    /// The canonical encoding of this scalar.
    pub fn to_bytes(&self) -> (r: Vec<u8>)
        ensures
            r@ == self@,
    {
        let mut out: Vec<u8> = Vec::new();
        push_all(&mut out, self.bytes.as_slice());
        out
    }

    /// An owned copy of this scalar.
    pub fn dup(&self) -> (r: GroupScalar)
        ensures
            r@ == self@,
    {
        GroupScalar { bytes: self.to_bytes() }
    }
}

/// Relies on scalar addition of `curve25519_dalek`, which is addition modulo
/// the group order on canonical representatives.
#[verifier::external_body]
pub fn scalar_add(a: &GroupScalar, b: &GroupScalar) -> (r: GroupScalar)
    requires
        a.wf(),
        b.wf(),
    ensures
        r.wf(),
        r.val() == (a.val() + b.val()) % group_order(),
{
    let sa = Scalar::from_canonical_bytes(a.bytes.as_slice().try_into().unwrap()).unwrap();
    let sb = Scalar::from_canonical_bytes(b.bytes.as_slice().try_into().unwrap()).unwrap();
    GroupScalar { bytes: (sa + sb).to_bytes().to_vec() }
}

/// Relies on scalar multiplication of `curve25519_dalek`, which is
/// multiplication modulo the group order on canonical representatives.
#[verifier::external_body]
pub fn scalar_mul(a: &GroupScalar, b: &GroupScalar) -> (r: GroupScalar)
    requires
        a.wf(),
        b.wf(),
    ensures
        r.wf(),
        r.val() == (a.val() * b.val()) % group_order(),
{
    let sa = Scalar::from_canonical_bytes(a.bytes.as_slice().try_into().unwrap()).unwrap();
    let sb = Scalar::from_canonical_bytes(b.bytes.as_slice().try_into().unwrap()).unwrap();
    GroupScalar { bytes: (sa * sb).to_bytes().to_vec() }
}

} // verus!
