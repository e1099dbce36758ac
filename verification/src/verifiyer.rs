//! The verifier: holds only the group manager's public point and checks a
//! signature against a message, learning nothing of signer, pseudonym or
//! credential.

use vstd::prelude::*;
use crate::errors::{DecodingError, SignatureInvalid, VerifyError};
use crate::hash::hash_to_scalar;
use crate::model::lemma_verifier_recombination;
use crate::point::{generate_public_key, point_add, point_log, point_scalar_mul, points_equal, GroupPoint};
use crate::signature::{bytes_sig_valid, sig_encoding_ok, sig_valid, sig_wf, GroupSignature};

verus! {

/// A verifier: the group public key and nothing else.
pub struct Verifiyer {
    pub pk_as: GroupPoint,
}

impl Verifiyer {
    /// Creates a verifier from the group public key alone.
    pub fn new(pk_as: GroupPoint) -> (r: Verifiyer)
        ensures
            r.pk_as == pk_as,
    {
        Verifiyer { pk_as }
    }

    /// Checks a signature against a message: recovers the randomized member
    /// key `R' + P·PK` from public fields alone, recomputes the challenge,
    /// and accepts exactly when `Ver·G == A + H·(R' + P·PK)` — that is,
    /// exactly when the verification equation holds.
    pub fn verify(&self, signature: &GroupSignature, msg: &Vec<u8>) -> (res: Result<
        (),
        SignatureInvalid,
    >)
        requires
            self.pk_as.wf(),
            sig_wf(*signature),
        ensures
            res.is_ok() == sig_valid(*signature, msg@, self.pk_as@),
    {
        let pk_mu = point_add(&signature.r_dash, &point_scalar_mul(&self.pk_as, &signature.p));
        let mut hin = signature.p.to_bytes();
        crate::bytes::push_all(&mut hin, msg.as_slice());
        crate::bytes::push_all(&mut hin, signature.r_dash.to_bytes().as_slice());
        crate::bytes::push_all(&mut hin, signature.a.to_bytes().as_slice());
        let h = hash_to_scalar(hin.as_slice());
        let left = generate_public_key(&signature.ver);
        let right = point_add(&signature.a, &point_scalar_mul(&pk_mu, &h));
        proof {
            assert(hin@ =~= signature.p@ + msg@ + signature.r_dash@ + signature.a@);
            lemma_verifier_recombination(
                point_log(signature.a@),
                point_log(signature.r_dash@),
                signature.p.val(),
                point_log(self.pk_as@),
                h.val(),
            );
        }
        if points_equal(&left, &right) {
            Ok(())
        } else {
            Err(SignatureInvalid)
        }
    }

    /// Checks a serialized signature against a message. A field that is not
    /// a canonical encoding is a propagated `DecodingError`, reported apart
    /// from — never as — a failed verification equation, and never a panic.
    pub fn verify_bytes(&self, signature: &Vec<u8>, msg: &Vec<u8>) -> (res: Result<
        (),
        VerifyError,
    >)
        requires
            self.pk_as.wf(),
        ensures
            res.is_ok() == (sig_encoding_ok(signature@) && bytes_sig_valid(
                signature@,
                msg@,
                self.pk_as@,
            )),
            !sig_encoding_ok(signature@) ==> res == Err::<(), VerifyError>(
                VerifyError::Decoding(DecodingError),
            ),
            sig_encoding_ok(signature@) && !bytes_sig_valid(signature@, msg@, self.pk_as@)
                ==> res == Err::<(), VerifyError>(VerifyError::Signature(SignatureInvalid)),
    {
        let sig = match GroupSignature::from_bytes(signature) {
            Ok(s) => s,
            Err(DecodingError) => return Err(VerifyError::Decoding(DecodingError)),
        };
        proof {
            assert(sig_valid(sig, msg@, self.pk_as@) == bytes_sig_valid(
                signature@,
                msg@,
                self.pk_as@,
            ));
        }
        match self.verify(&sig, msg) {
            Ok(()) => Ok(()),
            Err(SignatureInvalid) => Err(VerifyError::Signature(SignatureInvalid)),
        }
    }
}

} // verus!
