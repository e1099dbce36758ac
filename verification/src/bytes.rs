//! Byte-string arithmetic: the little-endian reading of a byte string as an
//! unbounded integer, its inverse, and small executable helpers used to build
//! hash inputs.

use vstd::prelude::*;
use vstd::arithmetic::div_mod::{
    lemma_fundamental_div_mod_converse_div, lemma_fundamental_div_mod_converse_mod,
};
use vstd::arithmetic::power::{lemma_pow0, lemma_pow1, lemma_pow_adds, lemma_pow_positive, pow};

verus! {

/// The unsigned integer that a byte string encodes in little-endian order:
/// byte 0 is the least significant.
pub open spec fn le_bytes_to_nat(s: Seq<u8>) -> nat
    decreases s.len(),
{
    if s.len() == 0 {
        0
    } else {
        s[0] as nat + 256 * le_bytes_to_nat(s.drop_first())
    }
}

/// The `len`-byte little-endian encoding of `n % 256^len`.
pub open spec fn nat_to_le_bytes(n: nat, len: nat) -> Seq<u8>
    decreases len,
{
    if len == 0 {
        Seq::empty()
    } else {
        seq![(n % 256) as u8] + nat_to_le_bytes(n / 256, (len - 1) as nat)
    }
}

pub proof fn lemma_nat_to_le_bytes_len(n: nat, len: nat)
    ensures
        nat_to_le_bytes(n, len).len() == len,
    decreases len,
{
    if len > 0 {
        lemma_nat_to_le_bytes_len(n / 256, (len - 1) as nat);
    }
}

/// Encoding then decoding is the identity on integers below `256^len`.
pub proof fn lemma_le_bytes_roundtrip(n: nat, len: nat)
    requires
        n < pow(256, len),
    ensures
        le_bytes_to_nat(nat_to_le_bytes(n, len)) == n,
    decreases len,
{
    if len == 0 {
        lemma_pow0(256);
    } else {
        let s = nat_to_le_bytes(n, len);
        let rest = nat_to_le_bytes(n / 256, (len - 1) as nat);
        lemma_nat_to_le_bytes_len(n / 256, (len - 1) as nat);
        assert(s.drop_first() =~= rest);
        assert(pow(256, len) == 256 * pow(256, (len - 1) as nat)) by {
            lemma_pow_adds(256, 1, (len - 1) as nat);
            lemma_pow1(256);
        }
        assert(n / 256 < pow(256, (len - 1) as nat)) by {
            lemma_pow_positive(256, (len - 1) as nat);
            let b = pow(256, (len - 1) as nat);
            assert(n < 256 * b);
            assert(n / 256 < b) by (nonlinear_arith)
                requires
                    n < 256 * b,
                    0 < b,
            ;
        }
        lemma_le_bytes_roundtrip(n / 256, (len - 1) as nat);
        assert(le_bytes_to_nat(s) == n % 256 + 256 * (n / 256));
        assert(n == 256 * (n / 256) + n % 256) by {
            vstd::arithmetic::div_mod::lemma_fundamental_div_mod(n as int, 256);
        }
    }
}

/// A byte string is determined by its length and the integer it encodes.
pub proof fn lemma_le_bytes_to_nat_injective(s: Seq<u8>, t: Seq<u8>)
    requires
        s.len() == t.len(),
        le_bytes_to_nat(s) == le_bytes_to_nat(t),
    ensures
        s == t,
    decreases s.len(),
{
    if s.len() == 0 {
        assert(s =~= t);
    } else {
        let v = le_bytes_to_nat(s) as int;
        lemma_fundamental_div_mod_converse_mod(v, 256, le_bytes_to_nat(s.drop_first()) as int, s[0] as int);
        lemma_fundamental_div_mod_converse_mod(v, 256, le_bytes_to_nat(t.drop_first()) as int, t[0] as int);
        lemma_fundamental_div_mod_converse_div(v, 256, le_bytes_to_nat(s.drop_first()) as int, s[0] as int);
        lemma_fundamental_div_mod_converse_div(v, 256, le_bytes_to_nat(t.drop_first()) as int, t[0] as int);
        assert(s[0] == t[0]);
        lemma_le_bytes_to_nat_injective(s.drop_first(), t.drop_first());
        assert(s =~= t) by {
            assert(forall|i: int| 1 <= i < s.len() ==> s[i] == s.drop_first()[i - 1]);
            assert(forall|i: int| 1 <= i < t.len() ==> t[i] == t.drop_first()[i - 1]);
        }
    }
}

/// A byte string encodes zero exactly when every byte is zero.
pub proof fn lemma_le_bytes_to_nat_zero(s: Seq<u8>)
    ensures
        le_bytes_to_nat(s) == 0 <==> (forall|i: int| 0 <= i < s.len() ==> s[i] == 0),
    decreases s.len(),
{
    if s.len() > 0 {
        lemma_le_bytes_to_nat_zero(s.drop_first());
        if le_bytes_to_nat(s) == 0 {
            assert(forall|i: int| 1 <= i < s.len() ==> s[i] == s.drop_first()[i - 1]);
        }
        if forall|i: int| 0 <= i < s.len() ==> s[i] == 0 {
            assert(forall|i: int| 0 <= i < s.drop_first().len() ==> s.drop_first()[i] == s[i + 1]);
        }
    }
}

/// Appends all of `src` to `dst`.
pub fn push_all(dst: &mut Vec<u8>, src: &[u8])
    ensures
        final(dst)@ == old(dst)@ + src@,
{
    let mut i: usize = 0;
    while i < src.len()
        invariant
            i <= src@.len(),
            dst@ == old(dst)@ + src@.subrange(0, i as int),
        decreases src@.len() - i,
    {
        dst.push(src[i]);
        proof {
            assert(old(dst)@ + src@.subrange(0, i as int) + seq![src@[i as int]]
                =~= old(dst)@ + src@.subrange(0, i + 1));
        }
        i = i + 1;
    }
    proof {
        assert(src@.subrange(0, src@.len() as int) =~= src@);
    }
}

/// An owned copy of a byte vector.
pub fn clone_bytes(v: &Vec<u8>) -> (r: Vec<u8>)
    ensures
        r@ == v@,
{
    let mut out: Vec<u8> = Vec::new();
    push_all(&mut out, v.as_slice());
    out
}

/// Concatenates two byte strings with a single zero byte between them: the
/// fixed framing of every two-operand hash input in the protocol.
pub fn concat_separated(a: &[u8], b: &[u8]) -> (r: Vec<u8>)
    ensures
        r@ == a@ + seq![0u8] + b@,
{
    let mut out: Vec<u8> = Vec::new();
    push_all(&mut out, a);
    out.push(0u8);
    push_all(&mut out, b);
    proof {
        assert(out@ =~= a@ + seq![0u8] + b@);
    }
    out
}

/// Copies the bytes of `v` between `start` and `end` into a new vector.
pub fn sub_vec(v: &Vec<u8>, start: usize, end: usize) -> (r: Vec<u8>)
    requires
        start <= end <= v@.len(),
    ensures
        r@ == v@.subrange(start as int, end as int),
{
    let mut out: Vec<u8> = Vec::new();
    let mut i: usize = start;
    while i < end
        invariant
            start <= i <= end <= v@.len(),
            out@ == v@.subrange(start as int, i as int),
        decreases end - i,
    {
        out.push(v[i]);
        proof {
            assert(v@.subrange(start as int, i as int) + seq![v@[i as int]]
                =~= v@.subrange(start as int, i + 1));
        }
        i = i + 1;
    }
    out
}

/// True when every byte of `v` is zero.
pub fn is_all_zero(v: &Vec<u8>) -> (r: bool)
    ensures
        r <==> (forall|i: int| 0 <= i < v@.len() ==> v@[i] == 0),
{
    let mut i: usize = 0;
    while i < v.len()
        invariant
            i <= v@.len(),
            forall|j: int| 0 <= j < i ==> v@[j] == 0,
        decreases v@.len() - i,
    {
        if v[i] != 0 {
            proof {
                assert(v@[i as int] != 0);
            }
            return false;
        }
        i = i + 1;
    }
    true
}

/// The byte-wise exclusive or of two byte strings; the shorter operand is
/// read as if padded with zero bytes up to the longer one's length.
pub open spec fn xor_byte_seqs(a: Seq<u8>, b: Seq<u8>) -> Seq<u8> {
    Seq::new(
        if a.len() >= b.len() {
            a.len()
        } else {
            b.len()
        },
        |i: int|
            (if i < a.len() {
                a[i]
            } else {
                0u8
            }) ^ (if i < b.len() {
                b[i]
            } else {
                0u8
            }),
    )
}

/// Computes the byte-wise exclusive or of `a` and `b`, padding the shorter
/// with zeros.
pub fn xor_bytes(a: &Vec<u8>, b: &Vec<u8>) -> (r: Vec<u8>)
    ensures
        r@ == xor_byte_seqs(a@, b@),
{
    let n: usize = if a.len() >= b.len() {
        a.len()
    } else {
        b.len()
    };
    let mut out: Vec<u8> = Vec::new();
    let mut i: usize = 0;
    while i < n
        invariant
            i <= n,
            n == if a@.len() >= b@.len() {
                a@.len()
            } else {
                b@.len()
            },
            out@.len() == i,
            forall|j: int| 0 <= j < i ==> out@[j] == xor_byte_seqs(a@, b@)[j],
        decreases n - i,
    {
        let x: u8 = if i < a.len() {
            a[i]
        } else {
            0u8
        };
        let y: u8 = if i < b.len() {
            b[i]
        } else {
            0u8
        };
        out.push(x ^ y);
        i = i + 1;
    }
    proof {
        assert(out@ =~= xor_byte_seqs(a@, b@));
    }
    out
}

} // verus!
