//! Pre-storage validation of a submitted envelope.
//!
//! Run before a new submission is persisted; decryption is never attempted
//! here, so the storage path never sees plaintext. The checks: the blob
//! decodes from hex, passes the envelope codec's structural checks, and
//! stays under a maximum byte size (a storage-abuse guard, rejected with an
//! error distinct from structural invalidity).

use vstd::prelude::*;

use crate::envelope::{envelope_wf, magic_seq, env_point, point_valid, parse_envelope, FormatError};
use crate::hexdata::{hex_ok, hex_decoded, hex_decode};

verus! {

/// The largest envelope accepted for storage, in decoded bytes.
pub const MAX_BLOB_BYTES: usize = 200 * 1024;

/// A blob may be stored exactly when it is hex for a well-formed envelope of
/// acceptable size.
pub open spec fn storable(s: Seq<char>) -> bool {
    hex_ok(s) && envelope_wf(hex_decoded(s)) && hex_decoded(s).len() <= MAX_BLOB_BYTES
}

/// Why a submitted blob was rejected.
#[derive(Debug, Clone, Copy, PartialEq, Eq, Structural)]
pub enum ValidationError {
    /// Not a hex string.
    BadHex,
    /// Decoded to fewer than the 65-byte envelope minimum.
    TooShort,
    /// The decoded bytes do not open with the magic tag.
    BadMagic,
    /// The ephemeral-point field is not a valid compressed curve point.
    BadPoint,
    /// The decoded bytes exceed the maximum stored size.
    TooLarge,
}

/// Validate a hex-encoded envelope before it is persisted.
///
/// A pure gate ahead of the storage write: succeeds exactly on storable
/// blobs, and the errors name the first check that failed, in the order:
/// hex, length, magic, point, size.
pub fn validate_for_storage(hex_envelope: &str) -> (r: Result<(), ValidationError>)
    ensures
        r is Ok <==> storable(hex_envelope@),
        (r matches Err(ValidationError::BadHex)) <==> !hex_ok(hex_envelope@),
        (r matches Err(ValidationError::TooShort)) <==> hex_ok(hex_envelope@) && hex_decoded(
            hex_envelope@,
        ).len() < 65,
        (r matches Err(ValidationError::BadMagic)) <==> hex_ok(hex_envelope@) && hex_decoded(
            hex_envelope@,
        ).len() >= 65 && hex_decoded(hex_envelope@).subrange(0, 4) != magic_seq(),
        (r matches Err(ValidationError::BadPoint)) <==> hex_ok(hex_envelope@) && hex_decoded(
            hex_envelope@,
        ).len() >= 65 && hex_decoded(hex_envelope@).subrange(0, 4) == magic_seq() && !point_valid(
            env_point(hex_decoded(hex_envelope@)),
        ),
        (r matches Err(ValidationError::TooLarge)) <==> hex_ok(hex_envelope@) && envelope_wf(
            hex_decoded(hex_envelope@),
        ) && hex_decoded(hex_envelope@).len() > MAX_BLOB_BYTES,
{
    let bytes = match hex_decode(hex_envelope) {
        Some(b) => b,
        None => { return Err(ValidationError::BadHex); },
    };
    match parse_envelope(bytes.as_slice()) {
        Ok(_) => (),
        Err(FormatError::TooShort) => { return Err(ValidationError::TooShort); },
        Err(FormatError::BadMagic) => { return Err(ValidationError::BadMagic); },
        Err(FormatError::BadPoint) => { return Err(ValidationError::BadPoint); },
    }
    if bytes.len() > MAX_BLOB_BYTES {
        return Err(ValidationError::TooLarge);
    }
    Ok(())
}

} // verus!
