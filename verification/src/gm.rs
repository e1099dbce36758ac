//! The group manager: holder of the master secret scalar, issuing
//! identity-bound credentials through the registration protocol.

use vstd::prelude::*;
use crate::bytes::{clone_bytes, concat_separated, xor_bytes};
use crate::errors::DegenerateCredential;
use crate::hash::{hash_sha256, hash_to_scalar};
use crate::member::Member;
use crate::model::{
    lemma_scalar_bytes_determined, password_verifier_spec, pseudonym_spec,
};
use crate::point::{generate_public_key, point_log, GroupPoint};
use crate::scalar::{scalar_add, scalar_mul, GroupScalar};
use vstd::arithmetic::div_mod::lemma_add_mod_noop_right;
use vstd::arithmetic::mul::lemma_mul_is_commutative;

verus! {

/// The group manager's key pair: the master secret scalar and the public
/// point derived from it once at setup.
pub struct GroupManager {
    pub s: GroupScalar,
    pub pk: GroupPoint,
}

/// What one run of the issuing protocol guarantees of the member record,
/// given the identity and auxiliary secret handed in: a consistent
/// credential over a nonzero ephemeral point, bound to this group public
/// key; a pseudonym and password verifier derived exactly by their
/// definitions; and a derived public key still absent. One run may still,
/// with negligible probability, issue a zero credential scalar.
pub open spec fn issued(m: Member, id: Seq<u8>, aux: Seq<u8>, gm: GroupManager) -> bool {
    &&& m.wf()
    &&& m.consistent()
    &&& m.id@ == id
    &&& m.pk_as@ == gm.pk@
    &&& m.pid@ == pseudonym_spec(id, m.r@, gm.pk@)
    &&& m.pwv.val() == password_verifier_spec(id, aux, m.s@)
    &&& m.pk.is_none()
    &&& point_log(m.r@) != 0
}

/// What a completed registration guarantees: an issued record whose
/// credential scalar is also nonzero, so neither half of the credential is
/// degenerate.
pub open spec fn registered(m: Member, id: Seq<u8>, aux: Seq<u8>, gm: GroupManager) -> bool {
    issued(m, id, aux, gm) && m.s.val() != 0
}

impl GroupManager {
    /// The key pair is well formed: the public point is the secret times the
    /// base point, and the secret is nonzero.
    pub open spec fn wf(&self) -> bool {
        self.s.wf() && self.pk.wf() && point_log(self.pk@) == self.s.val() && self.s.val() != 0
    }

    /// Creates a group manager with a fresh, uniformly sampled nonzero
    /// master secret and its derived public point.
    pub fn random() -> (r: GroupManager)
        ensures
            r.wf(),
    {
        let s = GroupScalar::random_nonzero();
        let pk = generate_public_key(&s);
        GroupManager { s, pk }
    }

    /// An owned copy of this key pair.
    pub fn dup(&self) -> (r: GroupManager)
        ensures
            r.s@ == self.s@,
            r.pk@ == self.pk@,
    {
        GroupManager { s: self.s.dup(), pk: self.pk.dup() }
    }

    /// Registers a member: issues a credential binding the identity's
    /// pseudonym to the master secret, using one fresh ephemeral scalar per
    /// attempt. Fails only if every retry drew a degenerate credential
    /// scalar, which has negligible probability.
    pub fn register_member(&self, id: &Vec<u8>, aux: &Vec<u8>) -> (m: Result<
        Member,
        DegenerateCredential,
    >)
        requires
            self.wf(),
        ensures
            m.is_ok() ==> registered(m.unwrap(), id@, aux@, *self),
    {
        let register = MemberRegister::random(self.dup(), clone_bytes(id), clone_bytes(aux));
        register.register()
    }
}

/// A pending registration: the identity and auxiliary secret to enroll,
/// together with the issuing group manager's key pair.
pub struct MemberRegister {
    pub id: Vec<u8>,
    pub aux: Vec<u8>,
    pub gm: GroupManager,
}

impl MemberRegister {
    /// Prepares a registration of `id` with auxiliary secret `aux` under the
    /// group manager `gm`.
    pub fn random(gm: GroupManager, id: Vec<u8>, aux: Vec<u8>) -> (r: MemberRegister)
        ensures
            r.gm == gm,
            r.id == id,
            r.aux == aux,
    {
        MemberRegister { id, aux, gm }
    }

    /// Runs the registration protocol once: samples the ephemeral scalar
    /// `r`, forms `R = r·G`, masks the identity into the pseudonym, and
    /// issues `S = r + e·s`. The returned credential may, with negligible
    /// probability, have a zero `S`.
    fn register_once(&self) -> (m: Member)
        requires
            self.gm.wf(),
        ensures
            issued(m, self.id@, self.aux@, self.gm),
    {
        let r_sec = GroupScalar::random_nonzero();
        let r_pub = generate_public_key(&r_sec);
        let mask = hash_to_scalar(
            concat_separated(r_pub.to_bytes().as_slice(), self.gm.pk.to_bytes().as_slice())
                .as_slice(),
        );
        let pid = xor_bytes(&self.id, &mask.to_bytes());
        let e = hash_to_scalar(
            concat_separated(r_pub.to_bytes().as_slice(), pid.as_slice()).as_slice(),
        );
        let s_cred = scalar_add(&r_sec, &scalar_mul(&e, &self.gm.s));
        let inner = hash_sha256(
            concat_separated(self.id.as_slice(), self.aux.as_slice()).as_slice(),
        );
        let pwv = hash_to_scalar(
            concat_separated(inner.as_slice(), s_cred.to_bytes().as_slice()).as_slice(),
        );
        proof {
            lemma_scalar_bytes_determined(mask);
            lemma_mul_is_commutative(e.val() as int, self.gm.s.val() as int);
            lemma_add_mod_noop_right(
                r_sec.val() as int,
                (e.val() * self.gm.s.val()) as int,
                crate::scalar::group_order() as int,
            );
        }
        Member {
            id: clone_bytes(&self.id),
            r: r_pub,
            s: s_cred,
            pid,
            pwv,
            pk_as: self.gm.pk.dup(),
            pk: None,
        }
    }

    /// Registers the member, retrying with a fresh ephemeral scalar in the
    /// negligible case that the issued credential scalar is zero, so that a
    /// returned record never carries a degenerate credential. Only the
    /// finite retry budget makes failure expressible at all: every retry
    /// drawing a zero scalar is the `DegenerateCredential` outcome.
    pub fn register(&self) -> (m: Result<Member, DegenerateCredential>)
        requires
            self.gm.wf(),
        ensures
            m.is_ok() ==> registered(m.unwrap(), self.id@, self.aux@, self.gm),
    {
        let mut attempts: usize = 0;
        loop
            invariant
                attempts <= 63,
                self.gm.wf(),
            decreases 63 - attempts,
        {
            let m = self.register_once();
            if !m.s.is_zero() {
                return Ok(m);
            }
            if attempts >= 63 {
                return Err(DegenerateCredential);
            }
            attempts = attempts + 1;
        }
    }
}

} // verus!
