//! Round-trip and tamper-detection behaviour of envelope decryption.

use chacha20poly1305::aead::{Aead, KeyInit};
use near_forms::cipher::decrypt_blob;
use near_forms::keys::{parse_private_key, derive_form_privkey, master_public_key_hex, PrivateKey};

const MASTER_HEX: &str = "4f3edf983ac636a65a842ce7c78d9aa706d3b113bce9c46f30d7d21715b23b1d";

/// Encrypt plaintext to a form's public key, as the client-side tooling
/// does: ephemeral ECDH, HKDF-SHA256, ChaCha20-Poly1305, then the envelope
/// layout `EC01 || ephemeral_pubkey || nonce || ciphertext+tag`.
fn encrypt_to(
    form_pub: &libsecp256k1::PublicKey,
    eph_bytes: [u8; 32],
    nonce_bytes: [u8; 12],
    plaintext: &[u8],
) -> Vec<u8> {
    let eph = libsecp256k1::SecretKey::parse(&eph_bytes).unwrap();
    let eph_pub = libsecp256k1::PublicKey::from_secret_key(&eph);
    let mut shared = *form_pub;
    shared.tweak_mul_assign(&eph).unwrap();
    let compressed = shared.serialize_compressed();
    let hk = hkdf::Hkdf::<sha2::Sha256>::new(None, &compressed[1..]);
    let mut key = [0u8; 32];
    hk.expand(b"near-forms:v1:ecdh", &mut key).unwrap();
    let cipher = chacha20poly1305::ChaCha20Poly1305::new_from_slice(&key).unwrap();
    let nonce = chacha20poly1305::Nonce::from_slice(&nonce_bytes);
    let ciphertext = cipher.encrypt(nonce, plaintext).unwrap();
    let mut out = b"EC01".to_vec();
    out.extend_from_slice(&eph_pub.serialize_compressed());
    out.extend_from_slice(&nonce_bytes);
    out.extend_from_slice(&ciphertext);
    out
}

/// The form keypair for a form id: the private side through the library, the
/// public side read back from its compressed encoding.
fn form_keypair(form_id: &str) -> (PrivateKey, libsecp256k1::PublicKey) {
    let master = parse_private_key(MASTER_HEX).unwrap();
    let form_priv = derive_form_privkey(&master, form_id).unwrap();
    let pub_hex = master_public_key_hex(&form_priv);
    let form_pub =
        libsecp256k1::PublicKey::parse_slice(&hex::decode(pub_hex).unwrap(), None).unwrap();
    (form_priv, form_pub)
}

#[test]
fn round_trip_returns_original_plaintext() {
    let (form_priv, form_pub) = form_keypair("f1");
    let plaintext = b"{\"q1\":\"yes\",\"q2\":[1,2,3]}";
    let envelope = encrypt_to(&form_pub, [9u8; 32], [3u8; 12], plaintext);
    assert!(envelope.len() >= 65);
    let decrypted = decrypt_blob(&form_priv, &envelope).unwrap();
    assert_eq!(decrypted, plaintext.to_vec());
}

#[test]
fn round_trip_empty_plaintext() {
    let (form_priv, form_pub) = form_keypair("f1");
    let envelope = encrypt_to(&form_pub, [11u8; 32], [0u8; 12], b"");
    assert_eq!(envelope.len(), 65);
    assert_eq!(decrypt_blob(&form_priv, &envelope).unwrap(), Vec::<u8>::new());
}

#[test]
fn wrong_form_key_fails() {
    let (_, form_pub) = form_keypair("f1");
    let (other_priv, _) = form_keypair("f2");
    let envelope = encrypt_to(&form_pub, [9u8; 32], [3u8; 12], b"secret");
    assert!(decrypt_blob(&other_priv, &envelope).is_err());
}

#[test]
fn tampering_any_bit_fails_decryption() {
    let (form_priv, form_pub) = form_keypair("f1");
    let plaintext = b"{\"q1\":\"yes\"}";
    let envelope = encrypt_to(&form_pub, [9u8; 32], [3u8; 12], plaintext);
    // Flip every bit of the nonce, the ciphertext and the tag in turn; each
    // flipped envelope must fail, never yield corrupted plaintext.
    for byte_index in 37..envelope.len() {
        for bit in 0..8 {
            let mut tampered = envelope.clone();
            tampered[byte_index] ^= 1u8 << bit;
            assert!(
                decrypt_blob(&form_priv, &tampered).is_err(),
                "flip at byte {} bit {} was accepted",
                byte_index,
                bit,
            );
        }
    }
}

#[test]
fn truncated_envelope_fails() {
    let (form_priv, form_pub) = form_keypair("f1");
    let envelope = encrypt_to(&form_pub, [9u8; 32], [3u8; 12], b"payload");
    assert!(decrypt_blob(&form_priv, &envelope[..64]).is_err());
    let mut wrong_magic = envelope.clone();
    wrong_magic[0] = b'A';
    assert!(decrypt_blob(&form_priv, &wrong_magic).is_err());
}
