//! The authorization gate.
//!
//! The caller identity is verified by an outside collaborator and handed in
//! as a plain value, or absent when verification failed. The matrix:
//! `GetMasterPublicKey` is public, `SubmitForm` needs any verified caller,
//! `ReadResponses` needs the verified caller to equal the form's recorded
//! creator — checked before any key material is touched.

use vstd::prelude::*;

verus! {

/// Missing or non-matching verified identity.
#[derive(Debug, Clone, Copy, PartialEq, Eq, Structural)]
pub struct AuthError;

/// Admit the read-responses flow only for the form's creator.
///
/// Exact string equality between the externally verified caller identity and
/// the recorded creator identity; absence of a verified identity fails too.
pub fn authorize_read(caller: &Option<String>, creator_id: &String) -> (r: Result<(), AuthError>)
    ensures
        r is Ok <==> (caller matches Some(c) && c@ == creator_id@),
{
    match caller {
        Some(c) => {
            if c.eq(creator_id) {
                Ok(())
            } else {
                Err(AuthError)
            }
        },
        None => Err(AuthError),
    }
}

/// Admit a submission from any verified caller.
pub fn authorize_submit(caller: &Option<String>) -> (r: Result<(), AuthError>)
    ensures
        r is Ok <==> caller is Some,
{
    match caller {
        Some(_) => Ok(()),
        None => Err(AuthError),
    }
}

} // verus!
