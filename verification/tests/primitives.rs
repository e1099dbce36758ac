use group_sig::hash::{hash_sha256, hash_to_scalar};
use group_sig::point::{
    decode_point, generate_public_key, point_add, point_scalar_mul, points_equal,
};
use group_sig::scalar::{scalar_add, scalar_mul, GroupScalar};
use group_sig::signature::GroupSignature;

fn hex_to_bytes(s: &str) -> Vec<u8> {
    let digits: Vec<u8> = s
        .chars()
        .filter(|c| c.is_ascii_hexdigit())
        .map(|c| c.to_digit(16).unwrap() as u8)
        .collect();
    assert!(digits.len() % 2 == 0);
    digits.chunks(2).map(|p| (p[0] << 4) | p[1]).collect()
}

fn scalar_from_u8(x: u8) -> GroupScalar {
    let mut bytes = vec![0u8; 32];
    bytes[0] = x;
    GroupScalar::from_canonical_bytes(&bytes).unwrap()
}

#[test]
fn test_hash_sha256() {
    let result = hash_sha256(b"hello world");

    assert_eq!(
        result,
        hex_to_bytes(
            "
    b94d27b9934d3e08a52e52d7da7dabfac484efe37a5380ee9088f7ace2efcde9
"
        )
    );
}

#[test]
fn test_hash_to_scalar_deterministic() {
    let a = hash_to_scalar(b"some input");
    let b = hash_to_scalar(b"some input");
    assert_eq!(a.to_bytes(), b.to_bytes());
    let c = hash_to_scalar(b"some inpux");
    assert_ne!(a.to_bytes(), c.to_bytes());
}

#[test]
fn test_scalar_addition_exact() {
    let a = scalar_from_u8(1);
    let b = scalar_from_u8(2);
    let sum = scalar_add(&a, &b);
    assert_eq!(sum.to_bytes(), scalar_from_u8(3).to_bytes());
}

#[test]
fn test_scalar_multiplication_exact() {
    let a = scalar_from_u8(2);
    let b = scalar_from_u8(3);
    let prod = scalar_mul(&a, &b);
    assert_eq!(prod.to_bytes(), scalar_from_u8(6).to_bytes());
}

#[test]
fn test_scalar_addition_wraps_at_group_order() {
    // The group order minus one, little-endian.
    let order_minus_one: Vec<u8> = vec![
        0xec, 0xd3, 0xf5, 0x5c, 0x1a, 0x63, 0x12, 0x58, 0xd6, 0x9c, 0xf7, 0xa2, 0xde, 0xf9, 0xde,
        0x14, 0, 0, 0, 0, 0, 0, 0, 0, 0, 0, 0, 0, 0, 0, 0, 0x10,
    ];
    let big = GroupScalar::from_canonical_bytes(&order_minus_one).unwrap();
    let two = scalar_from_u8(2);
    let wrapped = scalar_add(&big, &two);
    assert_eq!(wrapped.to_bytes(), scalar_from_u8(1).to_bytes());
}

#[test]
fn test_scalar_rejects_noncanonical_bytes() {
    assert!(GroupScalar::from_canonical_bytes(&vec![0xffu8; 32]).is_none());
    assert!(GroupScalar::from_canonical_bytes(&vec![1u8; 31]).is_none());
    assert!(GroupScalar::from_canonical_bytes(&vec![1u8; 33]).is_none());
}

#[test]
fn test_point_arithmetic_consistency() {
    let one = scalar_from_u8(1);
    let two = scalar_from_u8(2);
    let g = generate_public_key(&one);
    let g2 = generate_public_key(&two);

    let doubled = point_add(&g, &g);
    assert!(points_equal(&doubled, &g2));
    assert_eq!(doubled.to_bytes(), g2.to_bytes());

    let scaled = point_scalar_mul(&g, &two);
    assert!(points_equal(&scaled, &g2));
    assert!(!points_equal(&g, &g2));
}

#[test]
fn test_decode_roundtrips_valid_point() {
    let p = generate_public_key(&scalar_from_u8(7));
    let decoded = decode_point(&p.to_bytes()).unwrap();
    assert_eq!(decoded.to_bytes(), p.to_bytes());
}

#[test]
fn test_decode_rejects_invalid_encodings() {
    // The all-zero string encodes the identity element, which is rejected.
    assert!(decode_point(&vec![0u8; 32]).is_err());
    // Wrong lengths are rejected.
    assert!(decode_point(&vec![0u8; 31]).is_err());
    assert!(decode_point(&vec![0u8; 33]).is_err());
    assert!(decode_point(&vec![]).is_err());
    // A non-canonical field encoding is rejected.
    assert!(decode_point(&vec![0xffu8; 32]).is_err());
}

#[test]
fn test_signature_parse_rejects_malformed() {
    assert!(GroupSignature::from_bytes(&vec![0u8; 128]).is_err());
    assert!(GroupSignature::from_bytes(&vec![0u8; 127]).is_err());
    assert!(GroupSignature::from_bytes(&vec![]).is_err());
}

#[test]
fn test_random_scalars_are_nonzero_and_distinct() {
    let a = GroupScalar::random_nonzero();
    let b = GroupScalar::random_nonzero();
    assert!(!a.is_zero());
    assert!(!b.is_zero());
    assert_ne!(a.to_bytes(), b.to_bytes());
}
