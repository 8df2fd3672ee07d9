//! Core of an end-to-end-encrypted form service.
//!
//! Respondents encrypt their answers client-side to a public key tied to a
//! specific form; only the form's creator can recover the plaintext, via a
//! key derived on demand from a master secret. This crate holds the verified
//! core: deterministic per-form key derivation, the fixed binary envelope
//! codec, ECDH + AEAD decryption, the pre-storage submission validator, the
//! partial-failure-tolerant batch decryption pipeline, and the authorization
//! gate. Transport, storage and caller verification are outside collaborators.

pub mod hexdata;
pub mod keys;
pub mod envelope;
pub mod cipher;
pub mod validate;
pub mod auth;
pub mod batch;
pub mod actions;
