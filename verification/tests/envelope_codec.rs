//! Structural rejection by the envelope codec and the pre-storage validator.

use near_forms::envelope::{parse_envelope, FormatError};
use near_forms::validate::{validate_for_storage, ValidationError};

/// A syntactically valid envelope: magic, a real compressed point, a nonce,
/// and 16 bytes standing where the ciphertext tag would be.
fn minimal_envelope() -> Vec<u8> {
    let eph = libsecp256k1::SecretKey::parse(&[7u8; 32]).unwrap();
    let eph_pub = libsecp256k1::PublicKey::from_secret_key(&eph);
    let mut out = b"EC01".to_vec();
    out.extend_from_slice(&eph_pub.serialize_compressed());
    out.extend_from_slice(&[0u8; 12]);
    out.extend_from_slice(&[0u8; 16]);
    out
}

#[test]
fn accepts_well_formed_envelope() {
    let env = minimal_envelope();
    assert_eq!(env.len(), 65);
    let parsed = parse_envelope(&env).unwrap();
    assert_eq!(parsed.ephemeral_pubkey, env[4..37].to_vec());
    assert_eq!(parsed.nonce, env[37..49].to_vec());
    assert_eq!(parsed.ciphertext, env[49..].to_vec());
}

#[test]
fn rejects_short_input() {
    let env = minimal_envelope();
    assert_eq!(parse_envelope(&env[..64]).unwrap_err(), FormatError::TooShort);
    assert_eq!(parse_envelope(&[]).unwrap_err(), FormatError::TooShort);
    assert_eq!(parse_envelope(b"EC01").unwrap_err(), FormatError::TooShort);
}

#[test]
fn rejects_wrong_magic() {
    let mut env = minimal_envelope();
    env[0] = b'X';
    assert_eq!(parse_envelope(&env).unwrap_err(), FormatError::BadMagic);
    let mut env2 = minimal_envelope();
    env2[3] = b'2';
    assert_eq!(parse_envelope(&env2).unwrap_err(), FormatError::BadMagic);
}

#[test]
fn rejects_invalid_curve_point() {
    let mut env = minimal_envelope();
    // A compressed point must open with tag byte 0x02 or 0x03.
    env[4] = 0x05;
    assert_eq!(parse_envelope(&env).unwrap_err(), FormatError::BadPoint);
    // Well-formed tag but an x-coordinate with no point on the curve.
    let mut env2 = minimal_envelope();
    env2[4] = 0x02;
    for b in env2[5..37].iter_mut() {
        *b = 0xff;
    }
    assert!(parse_envelope(&env2).is_err());
}

#[test]
fn validator_accepts_storable_blob() {
    let blob = hex::encode(minimal_envelope());
    assert!(validate_for_storage(&blob).is_ok());
}

#[test]
fn validator_rejects_bad_hex() {
    assert_eq!(validate_for_storage("not hex!").unwrap_err(), ValidationError::BadHex);
    // Odd length is not hex either.
    assert_eq!(validate_for_storage("abc").unwrap_err(), ValidationError::BadHex);
}

#[test]
fn validator_rejects_structural_faults() {
    let env = minimal_envelope();
    assert_eq!(
        validate_for_storage(&hex::encode(&env[..64])).unwrap_err(),
        ValidationError::TooShort,
    );
    let mut bad_magic = env.clone();
    bad_magic[0] = b'X';
    assert_eq!(
        validate_for_storage(&hex::encode(&bad_magic)).unwrap_err(),
        ValidationError::BadMagic,
    );
    let mut bad_point = env.clone();
    bad_point[4] = 0x05;
    assert_eq!(
        validate_for_storage(&hex::encode(&bad_point)).unwrap_err(),
        ValidationError::BadPoint,
    );
}

#[test]
fn validator_rejects_oversized_blob() {
    // A structurally valid envelope grown past 200 KiB of decoded bytes.
    let mut env = minimal_envelope();
    env.resize(200 * 1024 + 1, 0u8);
    assert_eq!(
        validate_for_storage(&hex::encode(&env)).unwrap_err(),
        ValidationError::TooLarge,
    );
    // At exactly the limit the size check passes.
    let mut at_limit = minimal_envelope();
    at_limit.resize(200 * 1024, 0u8);
    assert!(validate_for_storage(&hex::encode(&at_limit)).is_ok());
}
