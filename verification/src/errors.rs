//! The protocol's error values: each failure is a typed outcome that the
//! caller inspects; none is mapped onto another.

use vstd::prelude::*;

verus! {

/// A byte string does not encode a group element, or encodes the identity,
/// which no honest party ever publishes.
#[derive(Debug, Clone, Copy, PartialEq, Eq)]
pub struct DecodingError;

/// A member's credential does not satisfy the credential equation against
/// the group public key; the record must not be used for signing.
#[derive(Debug, Clone, Copy, PartialEq, Eq)]
pub struct CredentialInvalid;

/// A signature fails the verification equation for the given message: the
/// expected outcome for forged or corrupted signatures and wrong messages.
#[derive(Debug, Clone, Copy, PartialEq, Eq)]
pub struct SignatureInvalid;

/// Every retry of the registration sampler produced a zero credential
/// scalar. Each draw lands there with negligible probability, so the error
/// is surfaced only because the retry budget is finite.
#[derive(Debug, Clone, Copy, PartialEq, Eq)]
pub struct DegenerateCredential;

/// The outcome of checking a serialized signature: a malformed encoding is
/// reported apart from a failed verification equation, never mapped onto it.
#[derive(Debug, Clone, Copy, PartialEq, Eq)]
pub enum VerifyError {
    Decoding(DecodingError),
    Signature(SignatureInvalid),
}

} // verus!
