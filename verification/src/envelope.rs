//! The fixed binary ciphertext envelope.
//!
//! Layout: a 4-byte magic tag, a 33-byte compressed ephemeral public point, a
//! 12-byte nonce, then the AEAD ciphertext with its 16-byte authentication
//! tag appended. Minimum total size: 65 bytes. The codec only reads; it
//! performs no cryptographic operation beyond checking that the point field
//! decodes to a point on the curve.

use vstd::prelude::*;
use vstd::slice::{slice_subrange, slice_to_vec};

verus! {

/// The reserved magic tag, the ASCII bytes of `EC01`.
pub open spec fn magic_seq() -> Seq<u8> {
    seq![0x45u8, 0x43u8, 0x30u8, 0x31u8]
}

/// Whether 33 bytes decode to a valid compressed secp256k1 point: correct
/// tag byte, coordinate below the field order, and on the curve.
pub uninterp spec fn point_valid(b: Seq<u8>) -> bool;

/// Relies on `libsecp256k1::PublicKey::parse_slice`: whether a 33-byte field
/// decodes to a point on the curve is a function of the bytes alone.
#[verifier::external_body]
fn point_check(b: &[u8]) -> (r: bool)
    requires
        b@.len() == 33,
    ensures
        r == point_valid(b@),
{
    libsecp256k1::PublicKey::parse_slice(b, None).is_ok()
}

/// The ephemeral-point field of an envelope.
pub open spec fn env_point(b: Seq<u8>) -> Seq<u8> {
    b.subrange(4, 37)
}

/// The nonce field of an envelope.
pub open spec fn env_nonce(b: Seq<u8>) -> Seq<u8> {
    b.subrange(37, 49)
}

/// The ciphertext-with-tag field of an envelope: everything after the nonce.
pub open spec fn env_ciphertext(b: Seq<u8>) -> Seq<u8> {
    b.subrange(49, b.len() as int)
}

/// A well-formed envelope: long enough for all fixed fields plus the tag,
/// opening with the magic bytes, its point field a valid curve point.
pub open spec fn envelope_wf(b: Seq<u8>) -> bool {
    b.len() >= 65 && b.subrange(0, 4) == magic_seq() && point_valid(env_point(b))
}

/// Why an envelope was rejected.
#[derive(Debug, Clone, Copy, PartialEq, Eq, Structural)]
pub enum FormatError {
    /// Shorter than the 65-byte minimum (magic + point + nonce + tag).
    TooShort,
    /// The first four bytes are not the magic tag.
    BadMagic,
    /// The 33-byte field is not a valid compressed curve point.
    BadPoint,
}

/// The fields of a parsed envelope.
#[derive(Debug)]
pub struct Envelope {
    /// Compressed ephemeral public point, 33 bytes.
    pub ephemeral_pubkey: Vec<u8>,
    /// AEAD nonce, 12 bytes.
    pub nonce: Vec<u8>,
    /// AEAD ciphertext with the 16-byte tag appended; at least 16 bytes.
    pub ciphertext: Vec<u8>,
}

/// Parse and validate an envelope.
///
/// Succeeds exactly on well-formed envelopes and hands back the three
/// variable fields; the errors name the first check that failed, in the
/// order: length, magic, point.
pub fn parse_envelope(bytes: &[u8]) -> (r: Result<Envelope, FormatError>)
    ensures
        r is Ok <==> envelope_wf(bytes@),
        r matches Ok(e) ==> {
            &&& e.ephemeral_pubkey@ == env_point(bytes@)
            &&& e.nonce@ == env_nonce(bytes@)
            &&& e.ciphertext@ == env_ciphertext(bytes@)
        },
        (r matches Err(FormatError::TooShort)) <==> bytes@.len() < 65,
        (r matches Err(FormatError::BadMagic)) <==> bytes@.len() >= 65 && bytes@.subrange(0, 4)
            != magic_seq(),
        (r matches Err(FormatError::BadPoint)) <==> bytes@.len() >= 65 && bytes@.subrange(0, 4)
            == magic_seq() && !point_valid(env_point(bytes@)),
{
    if bytes.len() < 65 {
        return Err(FormatError::TooShort);
    }
    if bytes[0] != 0x45 || bytes[1] != 0x43 || bytes[2] != 0x30 || bytes[3] != 0x31 {
        assert(bytes@.subrange(0, 4) != magic_seq()) by {
            assert(bytes@.subrange(0, 4)[0] == bytes@[0]);
            assert(bytes@.subrange(0, 4)[1] == bytes@[1]);
            assert(bytes@.subrange(0, 4)[2] == bytes@[2]);
            assert(bytes@.subrange(0, 4)[3] == bytes@[3]);
        }
        return Err(FormatError::BadMagic);
    }
    assert(bytes@.subrange(0, 4) =~= magic_seq());
    let point_field = slice_subrange(bytes, 4, 37);
    if !point_check(point_field) {
        return Err(FormatError::BadPoint);
    }
    let ephemeral_pubkey = slice_to_vec(point_field);
    let nonce = slice_to_vec(slice_subrange(bytes, 37, 49));
    let ciphertext = slice_to_vec(slice_subrange(bytes, 49, bytes.len()));
    Ok(Envelope { ephemeral_pubkey, nonce, ciphertext })
}

} // verus!
