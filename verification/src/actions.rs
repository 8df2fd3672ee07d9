//! The action layer: the discriminated request and response types around the
//! three supported actions, and the read-responses pipeline.
//!
//! An inbound action is authorized (see [`crate::auth`]), then routed to the
//! submission validator plus a storage write, to the batch decrypt pipeline,
//! or to a pure public-key derivation. The transport shell parses requests,
//! performs the collaborator calls, and renders errors as
//! [`ErrorResponse`] values; every decision and computation stands here with
//! a contract.

use vstd::prelude::*;
use vstd::string::StringSliceAdditionalSpecFns;

use crate::batch::{EncryptedSubmission, Response, ok_records, decrypt_all};
use crate::hexdata::hex_encoded;
use crate::keys::{
    PrivateKey, DerivationError, derive_form_privkey, derived_scalar, master_public_key_hex,
    pubkey_bytes_of, tweak_ok,
};

verus! {

/// An inbound action: determines what this invocation performs.
pub enum Input {
    /// Fetch and decrypt all submissions (creator only).
    ReadResponses(ReadResponsesInput),
    /// Receive a pre-encrypted form submission (any verified caller).
    SubmitForm(SubmitFormInput),
    /// Return the master public key (public).
    GetMasterPublicKey,
}

/// Payload of the read-responses action: empty, reserved for expansion.
pub struct ReadResponsesInput {}

/// Payload of the submit-form action.
pub struct SubmitFormInput {
    /// Pre-encrypted envelope, hex-encoded, from client-side encryption.
    pub encrypted_answers: String,
}

/// The result of a successful action.
pub enum Output {
    /// Decrypted submissions.
    ReadResponses(ReadResponsesOutput),
    /// Confirmation of a stored submission.
    SubmitForm(SubmitFormOutput),
    /// The master public key.
    GetMasterPublicKey(GetMasterPublicKeyOutput),
}

/// Result of the read-responses action.
pub struct ReadResponsesOutput {
    /// Decrypted form responses, in storage order.
    pub responses: Vec<Response>,
    /// How many stored submissions could not be decrypted: a data-loss
    /// signal, surfaced to the caller rather than silently dropped.
    pub skipped_count: usize,
}

/// Result of the submit-form action.
pub struct SubmitFormOutput {
    pub success: bool,
    /// Identifier the storage collaborator assigned to the submission.
    pub submission_id: String,
}

/// Result of the get-master-public-key action.
pub struct GetMasterPublicKeyOutput {
    /// Hex-encoded 33-byte compressed point.
    pub master_public_key: String,
}

/// Form metadata, as fetched from the storage collaborator.
pub struct FormMetadata {
    /// Identity of the form's creator; read responses are admitted only for
    /// a verified caller equal to it.
    pub creator_id: String,
}

/// The failure shell every error is surfaced in at the boundary.
pub struct ErrorResponse {
    pub success: bool,
    /// Human-readable description of the failure.
    pub error: String,
}

/// Derive the form key and decrypt all stored submissions.
///
/// The post-authorization part of the read-responses flow: fails only when
/// derivation does (a tweak out of range or a zero sum), and otherwise
/// returns the responses of exactly the cleanly decrypting records, in
/// their stored order, with the skip count.
pub fn read_responses(
    master_privkey: &PrivateKey,
    form_id: &str,
    submissions: &Vec<EncryptedSubmission>,
) -> (r: Result<ReadResponsesOutput, DerivationError>)
    requires
        master_privkey.wf(),
    ensures
        r is Ok <==> tweak_ok(form_id.spec_bytes()) && derived_scalar(
            master_privkey.scalar(),
            form_id.spec_bytes(),
        ) != 0,
        r matches Ok(out) ==> ({
            let oks = ok_records(
                derived_scalar(master_privkey.scalar(), form_id.spec_bytes()),
                submissions@,
            );
            &&& out.responses@.len() == oks.len()
            &&& out.responses@.len() + out.skipped_count == submissions@.len()
            &&& forall|j: int|
                #![trigger out.responses@[j]]
                0 <= j < oks.len() ==> out.responses@[j].submitter_id@ == oks[j].submitter_id@
                    && out.responses@[j].submitted_at@ == oks[j].submitted_at@
        }),
{
    let form_privkey = match derive_form_privkey(master_privkey, form_id) {
        Ok(k) => k,
        Err(e) => { return Err(e); },
    };
    let (responses, skipped_count) = decrypt_all(&form_privkey, submissions);
    Ok(ReadResponsesOutput { responses, skipped_count })
}

/// Build the get-master-public-key result.
///
/// The public key is not sensitive; no authorization applies.
pub fn get_master_public_key(master_privkey: &PrivateKey) -> (r: GetMasterPublicKeyOutput)
    requires
        master_privkey.wf(),
    ensures
        r.master_public_key@ == hex_encoded(pubkey_bytes_of(master_privkey.scalar())),
{
    GetMasterPublicKeyOutput { master_public_key: master_public_key_hex(master_privkey) }
}

} // verus!
