//! The protocol's mathematical model: the hash bindings shared by issuing,
//! signing and verification, the credential equation, and the algebraic
//! identities that make a signature from a consistent credential verify.

use vstd::prelude::*;
use crate::bytes::{
    lemma_le_bytes_roundtrip, lemma_le_bytes_to_nat_injective, lemma_nat_to_le_bytes_len,
    nat_to_le_bytes, xor_byte_seqs,
};
use crate::hash::{hash_to_scalar_spec, sha256_of};
use crate::point::point_log;
use crate::scalar::{group_order, GroupScalar};
use vstd::arithmetic::div_mod::{
    lemma_add_mod_noop_right, lemma_mul_mod_noop_left, lemma_mul_mod_noop_right,
};
use vstd::arithmetic::power::{lemma_pow_multiplies, pow};
use vstd::arithmetic::power2::{lemma2_to64, lemma_pow2, lemma_pow2_adds, pow2};

verus! {

/// The hash input for a two-operand binding: the operands separated by a
/// single zero byte, the framing fixed once for issuing and checking alike.
pub open spec fn separated(a: Seq<u8>, b: Seq<u8>) -> Seq<u8> {
    a + seq![0u8] + b
}

/// The binding exponent of a credential: the hash, as a scalar, of the
/// credential point's encoding and the pseudonym, zero-byte separated.
pub open spec fn binding_exponent(r_enc: Seq<u8>, pid: Seq<u8>) -> nat {
    hash_to_scalar_spec(separated(r_enc, pid))
}

/// The pseudonym of an identity: the identity's bytes masked, byte-wise, by
/// the encoding of the hash of the credential point and the group public key.
pub open spec fn pseudonym_spec(id: Seq<u8>, r_enc: Seq<u8>, pk_enc: Seq<u8>) -> Seq<u8> {
    xor_byte_seqs(id, nat_to_le_bytes(hash_to_scalar_spec(separated(r_enc, pk_enc)), 32))
}

/// The password verifier: the hash, as a scalar, of the digest of identity
/// and auxiliary secret, followed by the credential scalar's encoding. The
/// credential scalar is deliberately included under the hash so that the
/// value is bound to the issued credential and auditable from this one
/// definition.
pub open spec fn password_verifier_spec(id: Seq<u8>, aux: Seq<u8>, s_enc: Seq<u8>) -> nat {
    hash_to_scalar_spec(separated(sha256_of(separated(id, aux)), s_enc))
}

/// The challenge of a signature over a message: the hash, as a scalar, of the
/// randomized scalar's encoding, the message, and the encodings of the
/// randomized credential point and the commitment, concatenated in that fixed
/// order.
pub open spec fn challenge_spec(p_enc: Seq<u8>, msg: Seq<u8>, r1_enc: Seq<u8>, a_enc: Seq<u8>) -> nat {
    hash_to_scalar_spec(p_enc + msg + r1_enc + a_enc)
}

/// The credential equation: the credential scalar equals the discrete
/// logarithm of the credential point plus the binding exponent times the
/// group secret, that is, `S·G == R + e·PK` read in the exponent.
pub open spec fn credential_ok(r_enc: Seq<u8>, pid: Seq<u8>, s_val: nat, pk_enc: Seq<u8>) -> bool {
    s_val == (point_log(r_enc) + binding_exponent(r_enc, pid) * point_log(pk_enc)) % group_order()
}

/// The group order exceeds no 32-byte value: every scalar below it fits its
/// canonical 32-byte encoding.
pub proof fn lemma_group_order_lt_pow256()
    ensures
        group_order() < pow(256, 32),
{
    lemma2_to64();
    assert(pow2(128) == 0x100000000000000000000000000000000) by {
        lemma_pow2_adds(64, 64);
    }
    assert(pow2(256) == 0x10000000000000000000000000000000000000000000000000000000000000000) by {
        lemma_pow2_adds(128, 128);
    }
    lemma_pow2(256);
    lemma_pow2(8);
    lemma_pow_multiplies(2, 8, 32);
}

/// A well-formed scalar's bytes are exactly the 32-byte little-endian
/// encoding of its value.
pub proof fn lemma_scalar_bytes_determined(s: GroupScalar)
    requires
        s.wf(),
    ensures
        s@ == nat_to_le_bytes(s.val(), 32),
{
    lemma_group_order_lt_pow256();
    lemma_le_bytes_roundtrip(s.val(), 32);
    lemma_nat_to_le_bytes_len(s.val(), 32);
    lemma_le_bytes_to_nat_injective(s@, nat_to_le_bytes(s.val(), 32));
}

/// Completeness of signing, read in the exponent: a credential scalar `s`
/// satisfying the credential equation for `r` and `e`, randomized by `c` and
/// combined with commitment exponent `a` and challenge `h`, yields a response
/// equal to the one the verifier reconstructs from the published `p` and
/// `r1` alone.
pub proof fn lemma_signing_equation(
    r: nat,
    e: nat,
    k: nat,
    s: nat,
    a: nat,
    c: nat,
    h: nat,
    p: nat,
    r1: nat,
    ver: nat,
)
    requires
        s == (r + e * k) % group_order(),
        p == (c * e) % group_order(),
        r1 == (r * c) % group_order(),
        ver == (a + (((c * s) % group_order()) * h) % group_order()) % group_order(),
    ensures
        ver == (a + h * (r1 + p * k)) % group_order(),
{
    let m = group_order() as int;
    let ri = r as int;
    let ei = e as int;
    let ki = k as int;
    let ai = a as int;
    let ci = c as int;
    let hi = h as int;
    let t = ri + ei * ki;

    // The left side: push the two reductions in `ver` outward.
    lemma_mul_mod_noop_left(ci * (s as int), hi, m);
    lemma_add_mod_noop_right(ai, ci * (s as int) * hi, m);
    assert((ci * ((s as int) % m)) * hi == (ci * hi) * ((s as int) % m)) by (nonlinear_arith);
    assert(ver == (ai + (ci * (s as int)) * hi) % m);
    assert((ci * (s as int)) * hi == (ci * hi) * (s as int)) by (nonlinear_arith);
    assert(s as int == t % m);
    lemma_mul_mod_noop_right(ci * hi, t, m);
    assert(((ci * hi) * (t % m)) % m == ((ci * hi) * t) % m);
    lemma_add_mod_noop_right(ai, (ci * hi) * (t % m), m);
    lemma_add_mod_noop_right(ai, (ci * hi) * t, m);
    assert(ver == (ai + (ci * hi) * t) % m);

    // The right side: push the reductions in `r1` and `p` outward.
    let r1i = r1 as int;
    let pi = p as int;
    let x = hi * (r1i + pi * ki);
    assert(hi * (r1i + pi * ki) == hi * r1i + (hi * ki) * pi) by (nonlinear_arith);
    lemma_add_mod_noop_right(ai + (hi * ki) * pi, hi * r1i, m);
    lemma_mul_mod_noop_right(hi, ri * ci, m);
    lemma_add_mod_noop_right(ai + (hi * ki) * pi, hi * (ri * ci), m);
    assert((ai + x) % m == (ai + (hi * ki) * pi + hi * (ri * ci)) % m);
    lemma_add_mod_noop_right(ai + hi * (ri * ci), (hi * ki) * pi, m);
    lemma_mul_mod_noop_right(hi * ki, ci * ei, m);
    lemma_add_mod_noop_right(ai + hi * (ri * ci), (hi * ki) * (ci * ei), m);
    assert((ai + x) % m == (ai + hi * (ri * ci) + (hi * ki) * (ci * ei)) % m);

    // Both sides reduced: equality is plain ring algebra.
    assert((ci * hi) * t == hi * (ri * ci) + (hi * ki) * (ci * ei)) by (nonlinear_arith)
        requires
            t == ri + ei * ki,
    ;
}

/// The verifier's recombination, read in the exponent: folding the reductions
/// of the recovered member key into one, the right-hand point of the final
/// check has exponent `a + h·(r1 + p·k)`.
pub proof fn lemma_verifier_recombination(a: nat, r1: nat, p: nat, k: nat, h: nat)
    ensures
        (a + ((((r1 + (k * p) % group_order()) % group_order()) * h) % group_order()))
            % group_order() == (a + h * (r1 + p * k)) % group_order(),
{
    let m = group_order() as int;
    let ai = a as int;
    let r1i = r1 as int;
    let pi = p as int;
    let ki = k as int;
    let hi = h as int;
    let pkmu = (r1i + (ki * pi) % m) % m;

    lemma_add_mod_noop_right(r1i, ki * pi, m);
    assert(pkmu == (r1i + ki * pi) % m);
    lemma_mul_mod_noop_left(r1i + ki * pi, hi, m);
    assert((pkmu * hi) % m == ((r1i + ki * pi) * hi) % m);
    lemma_add_mod_noop_right(ai, pkmu * hi, m);
    lemma_add_mod_noop_right(ai, (r1i + ki * pi) * hi, m);
    assert((ai + pkmu * hi) % m == (ai + (r1i + ki * pi) * hi) % m);
    assert((r1i + ki * pi) * hi == hi * (r1i + pi * ki)) by (nonlinear_arith);
}

} // verus!
