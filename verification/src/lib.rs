//! Attestation of container images on a public ledger.
//!
//! The library binds a content-addressed image digest to a tamper-evident
//! record: a deterministic ledger address is derived from the digest, a
//! write-once record naming the signer is created there, and a small evidence
//! blob attached to the image in its registry lets a verifier find the record
//! again and re-derive trust from a bare image reference.
//!
//! The modules follow the protocol's components:
//! - [`digest`]: parsing and validation of canonical image references;
//! - [`address`]: the deterministic digest-to-address derivation;
//! - [`store`]: the write-once record store and its record type;
//! - [`evidence`]: the evidence and memo blobs and their canonical encoding;
//! - [`artifact`]: registry evidence artifacts, discovery and selection;
//! - [`signer`]: the sign path's decisions and the published annotations;
//! - [`engine`]: the ordered, short-circuiting verification chain;
//! - [`config`]: the tool's configuration values;
//! - [`errors`]: the failure taxonomy shared by all components;
//! - [`strutil`]: the verified text helpers the parsers are built on.

pub mod address;
pub mod artifact;
pub mod config;
pub mod digest;
pub mod engine;
pub mod errors;
pub mod evidence;
pub mod signer;
pub mod store;
pub mod strutil;
