use group_sig::bytes::xor_bytes;
use group_sig::gm::GroupManager;
use group_sig::hash::hash_to_scalar;
use group_sig::point::decode_point;
use group_sig::scalar::GroupScalar;
use group_sig::signature::GroupSignature;
use group_sig::errors::VerifyError;
use group_sig::verifiyer::Verifiyer;

fn separated(a: &[u8], b: &[u8]) -> Vec<u8> {
    let mut v = a.to_vec();
    v.push(0u8);
    v.extend_from_slice(b);
    v
}

#[test]
fn test_auth() {
    let id = vec![10u8];
    let aux = vec![10u8];
    let msg = vec![10u8];
    let no_msg = vec![11u8];

    let gm = GroupManager::random();

    let mut member = gm.register_member(&id, &aux).unwrap();
    member.setup().unwrap();

    let signature = member.sign(&msg);

    let verifier = Verifiyer::new(gm.pk.dup());
    verifier.verify(&signature, &msg).unwrap();

    match verifier.verify(&signature, &no_msg) {
        Ok(_) => {
            assert!(false);
        }
        Err(_) => {
            assert!(true);
        }
    }
}

#[test]
fn test_completeness_various_inputs() {
    let cases: Vec<(Vec<u8>, Vec<u8>, Vec<u8>)> = vec![
        (vec![], vec![], vec![]),
        (vec![0u8], vec![1u8], vec![2u8]),
        (vec![1u8, 2, 3, 4, 5, 6, 7, 8], vec![9u8, 10], b"a longer message body".to_vec()),
        (vec![255u8; 64], vec![0u8; 16], vec![170u8; 100]),
    ];
    for (id, aux, msg) in cases {
        let gm = GroupManager::random();
        let mut member = gm.register_member(&id, &aux).unwrap();
        assert!(!member.s.is_zero());
        assert!(member.setup().is_ok());
        let signature = member.sign(&msg);
        let verifier = Verifiyer::new(gm.pk.dup());
        assert!(verifier.verify(&signature, &msg).is_ok());
    }
}

#[test]
fn test_message_binding_rejects_other_message() {
    let gm = GroupManager::random();
    let mut member = gm.register_member(&vec![42u8, 1], &vec![7u8]).unwrap();
    member.setup().unwrap();
    let msg = b"transfer 10 coins".to_vec();
    let other = b"transfer 11 coins".to_vec();
    let signature = member.sign(&msg);
    let verifier = Verifiyer::new(gm.pk.dup());
    assert!(verifier.verify(&signature, &msg).is_ok());
    assert!(verifier.verify(&signature, &other).is_err());
    assert!(verifier.verify(&signature, &vec![]).is_err());
}

#[test]
fn test_setup_fails_on_mutated_pid() {
    let gm = GroupManager::random();
    let mut member = gm.register_member(&vec![10u8], &vec![10u8]).unwrap();
    member.pid[0] ^= 1;
    assert!(member.setup().is_err());
}

#[test]
fn test_setup_fails_on_mutated_credential_scalar() {
    let gm = GroupManager::random();
    let mut member = gm.register_member(&vec![10u8], &vec![10u8]).unwrap();
    let mut s_bytes = member.s.to_bytes();
    s_bytes[0] ^= 1;
    member.s = GroupScalar::from_canonical_bytes(&s_bytes).unwrap();
    assert!(member.setup().is_err());
}

#[test]
fn test_setup_fails_on_mutated_credential_point() {
    let gm = GroupManager::random();
    let mut member = gm.register_member(&vec![10u8], &vec![10u8]).unwrap();
    let mut r_bytes = member.r.to_bytes();
    r_bytes[0] ^= 1;
    match decode_point(&r_bytes) {
        // The mutated bytes happen to encode some other group element: the
        // credential check must reject it.
        Ok(p) => {
            member.r = p;
            assert!(member.setup().is_err());
        }
        // The mutation already fails decoding, as most mutations do.
        Err(_) => assert!(true),
    }
}

#[test]
fn test_two_signatures_differ() {
    let gm = GroupManager::random();
    let mut member = gm.register_member(&vec![10u8], &vec![10u8]).unwrap();
    member.setup().unwrap();
    let msg = vec![10u8];
    let sig1 = member.sign(&msg);
    let sig2 = member.sign(&msg);
    assert_ne!(sig1.p.to_bytes(), sig2.p.to_bytes());
    assert_ne!(sig1.r_dash.to_bytes(), sig2.r_dash.to_bytes());
    assert_ne!(sig1.a.to_bytes(), sig2.a.to_bytes());
    assert_ne!(sig1.ver.to_bytes(), sig2.ver.to_bytes());
    let verifier = Verifiyer::new(gm.pk.dup());
    assert!(verifier.verify(&sig1, &msg).is_ok());
    assert!(verifier.verify(&sig2, &msg).is_ok());
}

#[test]
fn test_verifier_needs_only_public_key() {
    let gm = GroupManager::random();
    let mut member = gm.register_member(&vec![3u8, 1, 4], &vec![1u8, 5]).unwrap();
    member.setup().unwrap();
    let msg = b"hello".to_vec();
    let signature = member.sign(&msg);

    // A verifier built from the serialized public key bytes alone accepts.
    let pk = decode_point(&gm.pk.to_bytes()).unwrap();
    let verifier = Verifiyer::new(pk);
    assert!(verifier.verify(&signature, &msg).is_ok());

    // A verifier holding a different group's key rejects.
    let other_gm = GroupManager::random();
    let wrong = Verifiyer::new(other_gm.pk.dup());
    assert!(wrong.verify(&signature, &msg).is_err());
}

#[test]
fn test_signature_serialization_roundtrip() {
    let gm = GroupManager::random();
    let mut member = gm.register_member(&vec![10u8], &vec![10u8]).unwrap();
    member.setup().unwrap();
    let msg = b"roundtrip".to_vec();
    let signature = member.sign(&msg);

    let encoded = signature.to_bytes();
    assert_eq!(encoded.len(), 128);
    let decoded = GroupSignature::from_bytes(&encoded).unwrap();
    assert_eq!(decoded.to_bytes(), encoded);

    let verifier = Verifiyer::new(gm.pk.dup());
    assert!(verifier.verify(&decoded, &msg).is_ok());
}

#[test]
fn test_pseudonym_masks_and_recovers_identity() {
    let id = vec![10u8, 20, 30];
    let gm = GroupManager::random();
    let member = gm.register_member(&id, &vec![10u8]).unwrap();

    let mask = hash_to_scalar(&separated(&member.r.to_bytes(), &gm.pk.to_bytes()));
    let expected_pid = xor_bytes(&id, &mask.to_bytes());
    assert_eq!(member.pid, expected_pid);

    // Unmasking recovers the identity, zero-padded to the mask's width.
    let recovered = xor_bytes(&member.pid, &mask.to_bytes());
    assert_eq!(&recovered[..3], &id[..]);
    assert!(recovered[3..].iter().all(|b| *b == 0));
}

#[test]
fn test_password_verifier_matches_derivation() {
    let id = vec![10u8];
    let aux = vec![99u8, 98];
    let gm = GroupManager::random();
    let member = gm.register_member(&id, &aux).unwrap();

    let inner = group_sig::hash::hash_sha256(&separated(&id, &aux));
    let expected = hash_to_scalar(&separated(&inner, &member.s.to_bytes()));
    assert_eq!(member.pwv.to_bytes(), expected.to_bytes());
}

#[test]
fn test_verify_bytes_outcomes() {
    let gm = GroupManager::random();
    let mut member = gm.register_member(&vec![10u8], &vec![10u8]).unwrap();
    member.setup().unwrap();
    let msg = b"serialized".to_vec();
    let signature = member.sign(&msg);
    let verifier = Verifiyer::new(gm.pk.dup());
    let encoded = signature.to_bytes();

    assert!(verifier.verify_bytes(&encoded, &msg).is_ok());
    assert!(matches!(
        verifier.verify_bytes(&encoded, &b"something else".to_vec()),
        Err(VerifyError::Signature(_))
    ));
    assert!(matches!(
        verifier.verify_bytes(&vec![0u8; 128], &msg),
        Err(VerifyError::Decoding(_))
    ));
    assert!(matches!(
        verifier.verify_bytes(&vec![0u8; 5], &msg),
        Err(VerifyError::Decoding(_))
    ));
}
