//! ECDH + AEAD decryption of an envelope.
//!
//! Steps: parse the envelope; multiply its ephemeral point by the form's
//! private scalar; take the shared point's x-coordinate as raw key material;
//! expand it through HKDF-SHA256 with a fixed domain-separated info string
//! into a 32-byte key; then authenticated-decrypt the ciphertext and tag with
//! ChaCha20-Poly1305 under the envelope's nonce, with no associated data.
//!
//! Every failure is the single opaque [`CryptoError`]: the design does not
//! distinguish a wrong key from a tampered ciphertext, to avoid oracle
//! leakage. Decryption is pure: same inputs, same result or same failure.

use vstd::prelude::*;

use crate::envelope::{
    envelope_wf, env_point, env_nonce, env_ciphertext, parse_envelope, point_valid,
};
use crate::keys::PrivateKey;

use chacha20poly1305::aead::{Aead, KeyInit};

verus! {

/// The x-coordinate of `scalar * P`, where `P` is the curve point the 33
/// compressed bytes decode to; 32 bytes.
pub uninterp spec fn ecdh_x(scalar: nat, point: Seq<u8>) -> Seq<u8>;

/// Relies on `libsecp256k1::PublicKey::{parse_slice, tweak_mul_assign,
/// serialize_compressed}`: for a valid compressed point and a nonzero scalar
/// below the curve order, the multiplication succeeds and the shared
/// x-coordinate is a function of the scalar and the point bytes alone.
#[verifier::external_body]
fn ecdh_shared_x(key: &PrivateKey, point: &[u8]) -> (r: Vec<u8>)
    requires
        key.wf(),
        point@.len() == 33,
        point_valid(point@),
    ensures
        r@ == ecdh_x(key.scalar(), point@),
        r@.len() == 32,
{
    let mut shared = libsecp256k1::PublicKey::parse_slice(point, None)
        .expect("the caller validated the point");
    shared
        .tweak_mul_assign(key.raw_key())
        .expect("a well-formed secret key holds a nonzero scalar");
    shared.serialize_compressed()[1..].to_vec()
}

/// The 32-byte symmetric key HKDF-SHA256 expands from the shared
/// x-coordinate, with no salt and the fixed info string.
pub uninterp spec fn hkdf_key(ikm: Seq<u8>) -> Seq<u8>;

/// Relies on `hkdf::Hkdf::<Sha256>::{new, expand}`: with no salt and a fixed
/// info string, the 32-byte output is a function of the input keying
/// material alone, and expanding to 32 bytes cannot fail.
#[verifier::external_body]
fn derive_symmetric_key(ikm: &Vec<u8>) -> (r: Vec<u8>)
    ensures
        r@ == hkdf_key(ikm@),
        r@.len() == 32,
{
    let hk = hkdf::Hkdf::<sha2::Sha256>::new(None, ikm);
    let mut key = [0u8; 32];
    let _ = hk.expand(b"near-forms:v1:ecdh", &mut key);
    key.to_vec()
}

/// What ChaCha20-Poly1305 opens a ciphertext-with-tag to under a key and
/// nonce: the plaintext, or nothing when authentication fails.
pub uninterp spec fn chacha_open(key: Seq<u8>, nonce: Seq<u8>, ct: Seq<u8>) -> Option<Seq<u8>>;

/// Relies on `chacha20poly1305::ChaCha20Poly1305::{new_from_slice, decrypt}`:
/// authenticated decryption with no associated data is a function of key,
/// nonce and ciphertext alone.
#[verifier::external_body]
fn aead_open(key: &Vec<u8>, nonce: &[u8], ciphertext: &[u8]) -> (r: Option<Vec<u8>>)
    requires
        key@.len() == 32,
        nonce@.len() == 12,
    ensures
        r is Some <==> chacha_open(key@, nonce@, ciphertext@) is Some,
        r matches Some(p) ==> chacha_open(key@, nonce@, ciphertext@) == Some(p@),
{
    let cipher = match chacha20poly1305::ChaCha20Poly1305::new_from_slice(key) {
        Ok(c) => c,
        Err(_) => { return None; },
    };
    let nonce = chacha20poly1305::Nonce::from_slice(nonce);
    cipher.decrypt(nonce, ciphertext).ok()
}

/// What decrypting an envelope under a scalar yields: nothing when the
/// envelope is malformed or authentication fails, else the plaintext.
pub open spec fn decrypt_spec(scalar: nat, b: Seq<u8>) -> Option<Seq<u8>> {
    if envelope_wf(b) {
        chacha_open(hkdf_key(ecdh_x(scalar, env_point(b))), env_nonce(b), env_ciphertext(b))
    } else {
        None
    }
}

/// The single opaque decryption failure: malformed envelope, invalid point,
/// or authentication-tag mismatch, deliberately not distinguished.
#[derive(Debug, Clone, Copy, PartialEq, Eq, Structural)]
pub struct CryptoError;

/// Decrypt a form submission envelope with the form's private key.
pub fn decrypt_blob(form_privkey: &PrivateKey, encrypted: &[u8]) -> (r: Result<Vec<u8>, CryptoError>)
    requires
        form_privkey.wf(),
    ensures
        r is Ok <==> decrypt_spec(form_privkey.scalar(), encrypted@) is Some,
        r matches Ok(p) ==> decrypt_spec(form_privkey.scalar(), encrypted@) == Some(p@),
{
    let envelope = match parse_envelope(encrypted) {
        Ok(e) => e,
        Err(_) => { return Err(CryptoError); },
    };
    let shared_x = ecdh_shared_x(form_privkey, envelope.ephemeral_pubkey.as_slice());
    let key = derive_symmetric_key(&shared_x);
    match aead_open(&key, envelope.nonce.as_slice(), envelope.ciphertext.as_slice()) {
        Some(plaintext) => Ok(plaintext),
        None => Err(CryptoError),
    }
}

} // verus!
