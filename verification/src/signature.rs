//! The signature object: a self-contained proof over one message, carrying no
//! identity or pseudonym information, together with its validity predicate
//! and its canonical serialization.

use vstd::prelude::*;
use crate::bytes::{le_bytes_to_nat, push_all, sub_vec};
use crate::errors::DecodingError;
use crate::model::challenge_spec;
use crate::point::{decode_point, is_group_elem, point_log, GroupPoint};
use crate::scalar::{group_order, GroupScalar};

verus! {

/// A group signature: the randomized binding scalar `P`, the randomized
/// credential point `R'`, the commitment point `A`, and the response `Ver`.
pub struct GroupSignature {
    pub p: GroupScalar,
    pub r_dash: GroupPoint,
    pub a: GroupPoint,
    pub ver: GroupScalar,
}

/// Well-formedness of a signature: each field a well-formed scalar or group
/// element.
pub open spec fn sig_wf(sig: GroupSignature) -> bool {
    sig.p.wf() && sig.r_dash.wf() && sig.a.wf() && sig.ver.wf()
}

/// The verification equation, read in the exponent: the response equals the
/// commitment exponent plus the challenge times the exponent of the
/// recovered member key `R' + P·PK`. A signature is accepted for a message
/// exactly when this holds.
pub open spec fn sig_valid(sig: GroupSignature, msg: Seq<u8>, pk_enc: Seq<u8>) -> bool {
    sig.ver.val() == (point_log(sig.a@) + challenge_spec(sig.p@, msg, sig.r_dash@, sig.a@)
        * (point_log(sig.r_dash@) + sig.p.val() * point_log(pk_enc))) % group_order()
}

/// A well-formed serialized signature: 128 bytes holding two canonical
/// scalars and two canonical, non-identity group elements, in the order
/// `(P, R', A, Ver)`.
pub open spec fn sig_encoding_ok(bytes: Seq<u8>) -> bool {
    &&& bytes.len() == 128
    &&& le_bytes_to_nat(bytes.subrange(0, 32)) < group_order()
    &&& is_group_elem(bytes.subrange(32, 64))
    &&& point_log(bytes.subrange(32, 64)) != 0
    &&& is_group_elem(bytes.subrange(64, 96))
    &&& point_log(bytes.subrange(64, 96)) != 0
    &&& le_bytes_to_nat(bytes.subrange(96, 128)) < group_order()
}

/// The verification equation read directly off a serialized signature: what
/// `sig_valid` says of the parsed fields.
pub open spec fn bytes_sig_valid(bytes: Seq<u8>, msg: Seq<u8>, pk_enc: Seq<u8>) -> bool {
    le_bytes_to_nat(bytes.subrange(96, 128)) == (point_log(bytes.subrange(64, 96))
        + challenge_spec(bytes.subrange(0, 32), msg, bytes.subrange(32, 64), bytes.subrange(64, 96))
        * (point_log(bytes.subrange(32, 64)) + le_bytes_to_nat(bytes.subrange(0, 32)) * point_log(
        pk_enc,
    ))) % group_order()
}

impl GroupSignature {
    /// Serializes the signature as the ordered 4-tuple `(P, R', A, Ver)`,
    /// each field in its canonical 32-byte encoding, with no extra framing.
    pub fn to_bytes(&self) -> (r: Vec<u8>)
        ensures
            r@ == self.p@ + self.r_dash@ + self.a@ + self.ver@,
    {
        let mut out = self.p.to_bytes();
        push_all(&mut out, self.r_dash.to_bytes().as_slice());
        push_all(&mut out, self.a.to_bytes().as_slice());
        push_all(&mut out, self.ver.to_bytes().as_slice());
        out
    }

    /// Parses a serialized signature: 128 bytes holding two canonical
    /// scalars and two canonical, non-identity group elements, in the order
    /// `(P, R', A, Ver)`. Any malformed field is a `DecodingError`.
    pub fn from_bytes(bytes: &Vec<u8>) -> (r: Result<GroupSignature, DecodingError>)
        ensures
            r.is_ok() == sig_encoding_ok(bytes@),
            r.is_ok() ==> sig_wf(r.unwrap()),
            r.is_ok() ==> r.unwrap().p@ == bytes@.subrange(0, 32),
            r.is_ok() ==> r.unwrap().r_dash@ == bytes@.subrange(32, 64),
            r.is_ok() ==> r.unwrap().a@ == bytes@.subrange(64, 96),
            r.is_ok() ==> r.unwrap().ver@ == bytes@.subrange(96, 128),
    {
        if bytes.len() != 128 {
            return Err(DecodingError);
        }
        let p = match GroupScalar::from_canonical_bytes(&sub_vec(bytes, 0, 32)) {
            Some(s) => s,
            None => return Err(DecodingError),
        };
        let r_dash = match decode_point(&sub_vec(bytes, 32, 64)) {
            Ok(q) => q,
            Err(e) => return Err(e),
        };
        let a = match decode_point(&sub_vec(bytes, 64, 96)) {
            Ok(q) => q,
            Err(e) => return Err(e),
        };
        let ver = match GroupScalar::from_canonical_bytes(&sub_vec(bytes, 96, 128)) {
            Some(s) => s,
            None => return Err(DecodingError),
        };
        Ok(GroupSignature { p, r_dash, a, ver })
    }
}

} // verus!
