//! A group member: the holder of an issued credential, able to self-check it
//! against the group public key and to produce randomized, unlinkable
//! signatures over arbitrary messages.

use vstd::prelude::*;
use crate::bytes::concat_separated;
use crate::errors::CredentialInvalid;
use crate::hash::hash_to_scalar;
use crate::model::{binding_exponent, challenge_spec, credential_ok, lemma_signing_equation};
use crate::point::{
    generate_public_key, point_add, point_log, point_scalar_mul, points_equal, GroupPoint,
};
use crate::scalar::{group_order, scalar_add, scalar_mul, GroupScalar};
use crate::signature::{sig_valid, sig_wf, GroupSignature};
use vstd::arithmetic::div_mod::lemma_add_mod_noop_right;

verus! {

/// A member record: the identity, the issued credential `(R, S)`, the
/// pseudonym, the password verifier, the group public key, and the derived
/// member public key, absent until `setup` has succeeded.
pub struct Member {
    pub id: Vec<u8>,
    pub r: GroupPoint,
    pub s: GroupScalar,
    pub pid: Vec<u8>,
    pub pwv: GroupScalar,
    pub pk_as: GroupPoint,
    pub pk: Option<GroupPoint>,
}

impl Member {
    /// Well-formedness of the record's scalar and group-element fields.
    pub open spec fn wf(&self) -> bool {
        self.r.wf() && self.s.wf() && self.pwv.wf() && self.pk_as.wf() && (self.pk.is_some()
            ==> self.pk.unwrap().wf())
    }

    /// The credential satisfies the credential equation against the group
    /// public key: `S·G == R + e·PK` for the binding exponent `e`.
    pub open spec fn consistent(&self) -> bool {
        credential_ok(self.r@, self.pid@, self.s.val(), self.pk_as@)
    }

    /// Self-checks the credential: recomputes `R + e·PK`, compares it with
    /// `S·G`, and stores it as the derived member public key exactly when
    /// they agree; a disagreement is `CredentialInvalid` and changes
    /// nothing.
    pub fn setup(&mut self) -> (res: Result<(), CredentialInvalid>)
        requires
            old(self).wf(),
        ensures
            final(self).wf(),
            res.is_ok() == old(self).consistent(),
            final(self).id == old(self).id,
            final(self).r == old(self).r,
            final(self).s == old(self).s,
            final(self).pid == old(self).pid,
            final(self).pwv == old(self).pwv,
            final(self).pk_as == old(self).pk_as,
            res.is_ok() ==> final(self).pk.is_some() && point_log(final(self).pk.unwrap()@) == (
            point_log(old(self).r@) + binding_exponent(old(self).r@, old(self).pid@) * point_log(
                old(self).pk_as@,
            )) % group_order(),
            !res.is_ok() ==> final(self).pk == old(self).pk,
    {
        let e = hash_to_scalar(
            concat_separated(self.r.to_bytes().as_slice(), self.pid.as_slice()).as_slice(),
        );
        let right = point_add(&self.r, &point_scalar_mul(&self.pk_as, &e));
        let checker = generate_public_key(&self.s);
        proof {
            assert(e.val() == binding_exponent(self.r@, self.pid@));
            assert(point_log(self.pk_as@) * e.val() == e.val() * point_log(self.pk_as@))
                by (nonlinear_arith);
            lemma_add_mod_noop_right(
                point_log(self.r@) as int,
                (point_log(self.pk_as@) * e.val()) as int,
                group_order() as int,
            );
        }
        if points_equal(&checker, &right) {
            self.pk = Some(right);
            Ok(())
        } else {
            Err(CredentialInvalid)
        }
    }

    /// Signs a message with two fresh ephemeral scalars: the blinding `a`
    /// and the randomizer `c`. The signature is built from this member's
    /// credential by the defining equations of `sign_equations` for some
    /// nonzero `a` and `c`, and therefore satisfies the verification
    /// equation for this member's group public key; through fresh `c` its
    /// fields are unlinkable across calls. The credential must have passed
    /// `setup` before signing.
    pub fn sign(&self, msg: &Vec<u8>) -> (sig: GroupSignature)
        requires
            self.wf(),
            self.pk.is_some(),
            self.consistent(),
        ensures
            sig_wf(sig),
            exists|a: nat, c: nat| sign_equations(*self, sig, msg@, a, c),
            sig_valid(sig, msg@, self.pk_as@),
    {
        let a_sec = GroupScalar::random_nonzero();
        let a_pub = generate_public_key(&a_sec);
        let c = GroupScalar::random_nonzero();
        let e = hash_to_scalar(
            concat_separated(self.r.to_bytes().as_slice(), self.pid.as_slice()).as_slice(),
        );
        let p = scalar_mul(&c, &e);
        let r_dash = point_scalar_mul(&self.r, &c);
        let s_dash = scalar_mul(&c, &self.s);
        let mut hin = p.to_bytes();
        crate::bytes::push_all(&mut hin, msg.as_slice());
        crate::bytes::push_all(&mut hin, r_dash.to_bytes().as_slice());
        crate::bytes::push_all(&mut hin, a_pub.to_bytes().as_slice());
        let h = hash_to_scalar(hin.as_slice());
        let ver = scalar_add(&a_sec, &scalar_mul(&s_dash, &h));
        let sig = GroupSignature { p, r_dash, a: a_pub, ver };
        proof {
            assert(hin@ =~= sig.p@ + msg@ + sig.r_dash@ + sig.a@);
            assert(sign_equations(*self, sig, msg@, a_sec.val(), c.val()));
            lemma_completeness(*self, sig, msg@, a_sec.val(), c.val());
        }
        sig
    }
}

/// The defining equations of `sign`, for blinding exponent `a` and
/// randomizer `c`: the commitment is `a` times the base point, the published
/// scalar is the randomized binding exponent `c*e`, the published point is
/// the randomized credential point `c*R`, and the response combines them
/// with the member's credential scalar as `a + (c*S)*H`.
pub open spec fn sign_equations(m: Member, sig: GroupSignature, msg: Seq<u8>, a: nat, c: nat) -> bool {
    &&& a != 0
    &&& c != 0
    &&& point_log(sig.a@) == a
    &&& sig.p.val() == (c * binding_exponent(m.r@, m.pid@)) % group_order()
    &&& point_log(sig.r_dash@) == (point_log(m.r@) * c) % group_order()
    &&& sig.ver.val() == (a + (((c * m.s.val()) % group_order()) * challenge_spec(
        sig.p@,
        msg,
        sig.r_dash@,
        sig.a@,
    )) % group_order()) % group_order()
}

/// Completeness: a signature whose fields satisfy the defining equations of
/// `sign` over any credential satisfying the credential equation is valid
/// for the message and the member's group public key; `Verifiyer::verify`
/// accepts exactly the valid signatures, so such a signature always
/// verifies.
pub proof fn lemma_completeness(m: Member, sig: GroupSignature, msg: Seq<u8>, a: nat, c: nat)
    requires
        m.consistent(),
        sign_equations(m, sig, msg, a, c),
    ensures
        sig_valid(sig, msg, m.pk_as@),
{
    lemma_signing_equation(
        point_log(m.r@),
        binding_exponent(m.r@, m.pid@),
        point_log(m.pk_as@),
        m.s.val(),
        a,
        c,
        challenge_spec(sig.p@, msg, sig.r_dash@, sig.a@),
        sig.p.val(),
        point_log(sig.r_dash@),
        sig.ver.val(),
    );
}

} // verus!
