//! The batch decrypt pipeline.
//!
//! Applied to the stored submissions when a creator reads responses. Each
//! record is processed independently: decode the stored hex, decrypt the
//! envelope, parse the plaintext as a structured answer payload. A failure
//! at any step skips that single record; it never aborts the batch. The
//! successes keep the input ordering, and the skip count is surfaced to the
//! caller as a data-loss signal, never silently dropped.

use vstd::prelude::*;

use crate::cipher::{decrypt_spec, decrypt_blob};
use crate::hexdata::{hex_ok, hex_decoded, hex_decode};
use crate::keys::PrivateKey;

verus! {

#[verifier::external_type_specification]
#[verifier::external_body]
pub struct ExJsonValue(serde_json::Value);

/// An encrypted form submission, as fetched from the storage collaborator.
#[derive(Debug)]
pub struct EncryptedSubmission {
    /// Wallet address that submitted the form.
    pub submitter_id: String,
    /// Hex-encoded envelope.
    pub encrypted_blob: String,
    /// Timestamp of the submission, an opaque string to this core.
    pub submitted_at: String,
}

/// A decrypted form response; exists only in memory while a read-responses
/// invocation runs.
#[derive(Debug)]
pub struct Response {
    /// Wallet address that submitted the form (plaintext by design).
    pub submitter_id: String,
    /// Decrypted form answers, a structured JSON value.
    pub answers: serde_json::Value,
    /// Timestamp of the submission, copied from the record.
    pub submitted_at: String,
}

/// Whether bytes parse as a structured JSON value.
pub uninterp spec fn json_parse_ok(b: Seq<u8>) -> bool;

/// Relies on `serde_json::from_slice::<Value>`: whether bytes parse as JSON
/// is a function of the bytes alone.
#[verifier::external_body]
fn parse_answers(plaintext: &Vec<u8>) -> (r: Option<serde_json::Value>)
    ensures
        r is Some <==> json_parse_ok(plaintext@),
{
    serde_json::from_slice(plaintext).ok()
}

/// A record decrypts cleanly under a scalar: its blob is hex for an envelope
/// that decrypts, and the plaintext parses as JSON.
pub open spec fn record_ok(scalar: nat, rec: EncryptedSubmission) -> bool {
    &&& hex_ok(rec.encrypted_blob@)
    &&& decrypt_spec(scalar, hex_decoded(rec.encrypted_blob@)) matches Some(p) && json_parse_ok(p)
}

/// The subsequence of records that decrypt cleanly, in input order.
pub open spec fn ok_records(scalar: nat, recs: Seq<EncryptedSubmission>) -> Seq<EncryptedSubmission>
    decreases recs.len(),
{
    if recs.len() == 0 {
        Seq::empty()
    } else if record_ok(scalar, recs.last()) {
        ok_records(scalar, recs.drop_last()).push(recs.last())
    } else {
        ok_records(scalar, recs.drop_last())
    }
}

/// Law: batch isolation. The pipeline's successes are exactly the records
/// that decrypt cleanly — the filter of the batch by `record_ok`, in the
/// original order — so with K clean records among N, `decrypt_all` returns
/// K responses and counts N - K skips, and no clean record is ever lost to
/// another record's corruption.
pub proof fn lemma_ok_records_is_filter(scalar: nat, recs: Seq<EncryptedSubmission>)
    ensures
        ok_records(scalar, recs) == recs.filter(|r: EncryptedSubmission| record_ok(scalar, r)),
    decreases recs.len(),
{
    reveal(Seq::filter);
    if recs.len() == 0 {
        assert(ok_records(scalar, recs) =~= recs.filter(
            |r: EncryptedSubmission| record_ok(scalar, r),
        ));
    } else {
        lemma_ok_records_is_filter(scalar, recs.drop_last());
    }
}

/// Decode, decrypt and parse a single record.
///
/// The pure per-record step of the pipeline: succeeds exactly on records
/// that decrypt cleanly, and carries the submitter identity and timestamp
/// over unchanged.
pub fn decrypt_record(form_privkey: &PrivateKey, submission: &EncryptedSubmission) -> (r: Option<
    Response,
>)
    requires
        form_privkey.wf(),
    ensures
        r is Some <==> record_ok(form_privkey.scalar(), *submission),
        r matches Some(resp) ==> resp.submitter_id@ == submission.submitter_id@
            && resp.submitted_at@ == submission.submitted_at@,
{
    let bytes = match hex_decode(submission.encrypted_blob.as_str()) {
        Some(b) => b,
        None => { return None; },
    };
    let plaintext = match decrypt_blob(form_privkey, bytes.as_slice()) {
        Ok(p) => p,
        Err(_) => { return None; },
    };
    let answers = match parse_answers(&plaintext) {
        Some(a) => a,
        None => { return None; },
    };
    Some(
        Response {
            submitter_id: submission.submitter_id.clone(),
            answers,
            submitted_at: submission.submitted_at.clone(),
        },
    )
}

/// Decrypt a batch of stored submissions, isolating per-record failure.
///
/// Returns the responses of exactly the records that decrypt cleanly, in
/// their original relative order, and the count of skipped records. A
/// corrupted record never affects any other record.
pub fn decrypt_all(form_privkey: &PrivateKey, submissions: &Vec<EncryptedSubmission>) -> (r: (
    Vec<Response>,
    usize,
))
    requires
        form_privkey.wf(),
    ensures
        ({
            let oks = ok_records(form_privkey.scalar(), submissions@);
            &&& r.0@.len() == oks.len()
            &&& r.0@.len() + r.1 == submissions@.len()
            &&& forall|j: int|
                #![trigger r.0@[j]]
                0 <= j < oks.len() ==> r.0@[j].submitter_id@ == oks[j].submitter_id@
                    && r.0@[j].submitted_at@ == oks[j].submitted_at@
        }),
{
    let mut responses: Vec<Response> = Vec::new();
    let mut skipped_count: usize = 0;
    let mut i: usize = 0;
    while i < submissions.len()
        invariant
            form_privkey.wf(),
            i <= submissions@.len(),
            responses@.len() + skipped_count == i,
            responses@.len() == ok_records(
                form_privkey.scalar(),
                submissions@.subrange(0, i as int),
            ).len(),
            forall|j: int|
                #![trigger responses@[j]]
                0 <= j < responses@.len() ==> {
                    let oks = ok_records(form_privkey.scalar(), submissions@.subrange(0, i as int));
                    responses@[j].submitter_id@ == oks[j].submitter_id@
                        && responses@[j].submitted_at@ == oks[j].submitted_at@
                },
        decreases submissions@.len() - i,
    {
        let submission = &submissions[i];
        let processed = decrypt_record(form_privkey, submission);
        proof {
            assert(submissions@.subrange(0, i + 1).drop_last() =~= submissions@.subrange(
                0,
                i as int,
            ));
            assert(submissions@.subrange(0, i + 1).last() == submissions@[i as int]);
        }
        match processed {
            Some(resp) => responses.push(resp),
            None => skipped_count = skipped_count + 1,
        }
        i = i + 1;
    }
    proof {
        assert(submissions@.subrange(0, submissions@.len() as int) =~= submissions@);
    }
    (responses, skipped_count)
}

} // verus!
