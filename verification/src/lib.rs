//! Verification engine for W3C Verifiable Credentials (VCs) and Verifiable
//! Presentations (VPs) submitted in an OpenID4VP-style presentation exchange.
//!
//! The crate decides whether a submitted presentation satisfies a relying
//! party's presentation definition and whether every credential it carries is
//! authentic and semantically valid: decoding claims per wire format, matching
//! them against the definition, mapping cryptographic proof outcomes to a
//! structured result taxonomy, checking temporal and subject-binding rules,
//! aggregating results across nested credentials, and verifying domain-linkage
//! configuration documents.
//!
//! Cryptographic proof checks and DID resolution are asynchronous, external
//! capabilities; the caller runs them and reports each outcome as a plain
//! check event. Every decision taken on those events is made here.

pub mod batch;
pub mod config;
pub mod credential;
pub mod presentation;
pub mod decode;
pub mod did;
pub mod domain;
pub mod faults;
pub mod json;
pub mod matcher;
pub mod results;
pub mod text;
pub mod validate;
pub mod web;
