//! Key derivation: from a master secp256k1 keypair and a form identifier to a
//! form-specific private key.
//!
//! The derived scalar is `master + SHA-256(prefix || form_id) (mod n)` where
//! `n` is the curve order. Derivation is a pure function of its inputs, so
//! the same form always yields the same keypair across invocations.
//!
//! Scalars live in [`PrivateKey`], which carries the opaque `libsecp256k1`
//! key next to a byte-level model of the scalar's value; the trusted
//! wrappers tie the two together.

use vstd::prelude::*;
use vstd::string::StringSliceAdditionalSpecFns;
use sha2::Digest;

use crate::hexdata::{hex_ok, hex_decoded, hex_encoded, hex_decode, hex_encode};

verus! {

/// The order of the secp256k1 group.
pub open spec fn curve_order() -> nat {
    0xFFFFFFFF_FFFFFFFF_FFFFFFFF_FFFFFFFE_BAAEDCE6_AF48A03B_BFD25E8C_D0364141nat
}

/// The big-endian value of a byte string.
pub open spec fn be_val(b: Seq<u8>) -> nat
    decreases b.len(),
{
    if b.len() == 0 {
        0
    } else {
        (be_val(b.drop_last()) * 256 + b.last()) as nat
    }
}

/// Exactly the byte strings that `libsecp256k1` accepts as a secret key:
/// 32 bytes encoding a nonzero scalar below the curve order.
pub open spec fn valid_scalar_bytes(b: Seq<u8>) -> bool {
    b.len() == 32 && 0 < be_val(b) < curve_order()
}

/// Scalar addition modulo the curve order.
pub open spec fn add_mod_order(a: nat, b: nat) -> nat {
    (((a + b) as int) % (curve_order() as int)) as nat
}

#[verifier::external_type_specification]
#[verifier::external_body]
pub struct ExSecretKey(libsecp256k1::SecretKey);

/// A secp256k1 private scalar.
///
/// The opaque `libsecp256k1` key is kept next to its own 32-byte big-endian
/// serialization, which models the scalar's value for the contracts. Only the
/// trusted wrappers in this module build one, and each of them establishes
/// `wf()`: the scalar is nonzero and below the curve order.
#[derive(Debug)]
pub struct PrivateKey {
    raw: libsecp256k1::SecretKey,
    bytes: Vec<u8>,
}

impl PrivateKey {
    /// The scalar this key holds, as a mathematical value.
    pub closed spec fn scalar(self) -> nat {
        be_val(self.bytes@)
    }

    /// A well-formed key holds a nonzero scalar below the curve order.
    pub open spec fn wf(self) -> bool {
        0 < self.scalar() < curve_order()
    }

    /// The underlying `libsecp256k1` key, for this crate's trusted wrappers.
    pub(crate) fn raw_key(&self) -> &libsecp256k1::SecretKey {
        &self.raw
    }
}

/// Relies on `libsecp256k1::SecretKey::parse_slice`: it accepts exactly the
/// 32-byte big-endian encodings of a nonzero scalar below the curve order,
/// and the parsed key holds that scalar.
#[verifier::external_body]
fn sk_parse(bytes: &Vec<u8>) -> (r: Option<PrivateKey>)
    ensures
        r is Some <==> valid_scalar_bytes(bytes@),
        r matches Some(k) ==> k.scalar() == be_val(bytes@) && k.wf(),
{
    match libsecp256k1::SecretKey::parse_slice(bytes) {
        Ok(raw) => Some(PrivateKey { raw, bytes: bytes.clone() }),
        Err(_) => None,
    }
}

/// Relies on `libsecp256k1::SecretKey::tweak_add_assign`: scalar addition
/// modulo the curve order, rejected exactly when the sum is zero.
#[verifier::external_body]
fn sk_add(a: &PrivateKey, b: &PrivateKey) -> (r: Option<PrivateKey>)
    requires
        a.wf(),
        b.wf(),
    ensures
        r is Some <==> add_mod_order(a.scalar(), b.scalar()) != 0,
        r matches Some(k) ==> k.scalar() == add_mod_order(a.scalar(), b.scalar()) && k.wf(),
{
    let mut raw = a.raw.clone();
    match raw.tweak_add_assign(&b.raw) {
        Ok(()) => {
            let bytes = raw.serialize().to_vec();
            Some(PrivateKey { raw, bytes })
        },
        Err(_) => None,
    }
}

/// The SHA-256 digest of a byte string.
pub uninterp spec fn sha256_of(data: Seq<u8>) -> Seq<u8>;

/// Relies on `sha2::Sha256::digest`: the digest is 32 bytes and a function of
/// the input bytes alone.
#[verifier::external_body]
fn sha256(data: &Vec<u8>) -> (r: Vec<u8>)
    ensures
        r@ == sha256_of(data@),
        r@.len() == 32,
{
    sha2::Sha256::digest(data.as_slice()).to_vec()
}

/// The compressed public point of a scalar, 33 bytes.
pub uninterp spec fn pubkey_bytes_of(scalar: nat) -> Seq<u8>;

/// Relies on `libsecp256k1::PublicKey::{from_secret_key, serialize_compressed}`:
/// the compressed encoding of `scalar * G` is 33 bytes and a function of the
/// scalar alone.
#[verifier::external_body]
fn compressed_pubkey(key: &PrivateKey) -> (r: Vec<u8>)
    requires
        key.wf(),
    ensures
        r@ == pubkey_bytes_of(key.scalar()),
        r@.len() == 33,
{
    let pubkey = libsecp256k1::PublicKey::from_secret_key(&key.raw);
    pubkey.serialize_compressed().to_vec()
}

/// Why parsing a hex-encoded private key failed.
#[derive(Debug, Clone, Copy, PartialEq, Eq, Structural)]
pub enum KeyError {
    /// The string is not valid hex.
    BadHex,
    /// The bytes are not a valid nonzero scalar below the curve order.
    BadScalar,
}

/// Parse a hex-encoded private key.
pub fn parse_private_key(hex_str: &str) -> (r: Result<PrivateKey, KeyError>)
    ensures
        r is Ok <==> hex_ok(hex_str@) && valid_scalar_bytes(hex_decoded(hex_str@)),
        r matches Ok(k) ==> k.wf() && k.scalar() == be_val(hex_decoded(hex_str@)),
        r == Result::<PrivateKey, KeyError>::Err(KeyError::BadHex) <==> !hex_ok(hex_str@),
{
    let bytes = match hex_decode(hex_str) {
        Some(b) => b,
        None => { return Err(KeyError::BadHex); },
    };
    match sk_parse(&bytes) {
        Some(k) => Ok(k),
        None => Err(KeyError::BadScalar),
    }
}

/// The domain-separation prefix hashed in front of the form identifier.
pub open spec fn derivation_prefix() -> Seq<u8> {
    "near-forms:v1:".spec_bytes()
}

/// The tweak scalar of a form identifier: the SHA-256 digest of the prefixed
/// identifier, read as a big-endian number.
pub open spec fn tweak_scalar(form_id_bytes: Seq<u8>) -> nat {
    be_val(sha256_of(derivation_prefix() + form_id_bytes))
}

/// The tweak is usable exactly when it is nonzero and below the curve order.
pub open spec fn tweak_ok(form_id_bytes: Seq<u8>) -> bool {
    0 < tweak_scalar(form_id_bytes) < curve_order()
}

/// The form-specific scalar: master scalar plus tweak, modulo the curve order.
pub open spec fn derived_scalar(master: nat, form_id_bytes: Seq<u8>) -> nat {
    add_mod_order(master, tweak_scalar(form_id_bytes))
}

/// Derivation fails only on a tweak outside the scalar range or a zero sum;
/// both are cryptographically negligible, but checked, never assumed.
#[derive(Debug, Clone, Copy, PartialEq, Eq, Structural)]
pub struct DerivationError;

/// Derive a form-specific private key from the master private key.
///
/// Additive derivation: `form_key = master + SHA-256(prefix || form_id)`
/// modulo the curve order. The matching public derivation
/// (`form_pub = master_pub + tweak * G`) is computed independently by the
/// client-side encryptor from the master public key alone.
pub fn derive_form_privkey(master_privkey: &PrivateKey, form_id: &str) -> (r: Result<
    PrivateKey,
    DerivationError,
>)
    requires
        master_privkey.wf(),
    ensures
        r is Ok <==> tweak_ok(form_id.spec_bytes()) && derived_scalar(
            master_privkey.scalar(),
            form_id.spec_bytes(),
        ) != 0,
        r matches Ok(k) ==> k.wf() && k.scalar() == derived_scalar(
            master_privkey.scalar(),
            form_id.spec_bytes(),
        ),
{
    let prefix: &str = "near-forms:v1:";
    let mut input = vstd::slice::slice_to_vec(prefix.as_bytes());
    input.extend_from_slice(form_id.as_bytes());
    assert(input@ == derivation_prefix() + form_id.spec_bytes());

    let tweak_bytes = sha256(&input);
    let tweak = match sk_parse(&tweak_bytes) {
        Some(t) => t,
        None => { return Err(DerivationError); },
    };
    match sk_add(master_privkey, &tweak) {
        Some(k) => Ok(k),
        None => Err(DerivationError),
    }
}

/// The master public key, hex-encoded in its 33-byte compressed form.
///
/// This is what `GetMasterPublicKey` returns; it is not sensitive.
pub fn master_public_key_hex(master_privkey: &PrivateKey) -> (r: String)
    requires
        master_privkey.wf(),
    ensures
        r@ == hex_encoded(pubkey_bytes_of(master_privkey.scalar())),
{
    let pubkey = compressed_pubkey(master_privkey);
    hex_encode(pubkey.as_slice())
}

/// Law: key derivation is deterministic. The derived scalar is a function of
/// the master scalar and the form identifier alone, so deriving the form key
/// twice from the same inputs yields identical scalars.
pub proof fn lemma_derivation_deterministic(
    master1: nat,
    master2: nat,
    form_id1: Seq<u8>,
    form_id2: Seq<u8>,
)
    requires
        master1 == master2,
        form_id1 == form_id2,
    ensures
        derived_scalar(master1, form_id1) == derived_scalar(master2, form_id2),
{
}

} // verus!
