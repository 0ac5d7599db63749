//! The failure taxonomy of the attestation protocol.

use vstd::prelude::*;

verus! {

/// Every failure the protocol can report, one variant per kind.
///
/// Each variant carries the value it complains about (a path, a key, an
/// image reference, a mismatching digest or signer), so that callers can
/// print what was being attempted without re-deriving it.
///
/// `DuplicateAttestation` is the one kind a caller may treat as
/// success-equivalent: the record it failed to create already exists, so the
/// digest is already attested (see [`crate::store::is_success_equivalent`]).
#[derive(Debug)]
pub enum SkelzError {
    /// A configuration file already exists at the named path.
    ConfigExists(String),
    /// No configuration (or required configuration value) was found.
    ConfigNotFound(String),
    /// The named configuration key is not one the tool knows.
    UnknownConfigKey(String),
    /// The image reference carries no canonical digest marker.
    InvalidReference(String),
    /// The reference's registry host is not in the allow-list.
    UnsupportedRegistry(String),
    /// The ledger or its RPC endpoint could not complete a call.
    TransportError(String),
    /// A record already exists at the derived address; the store is
    /// write-once, so the digest is already attested.
    DuplicateAttestation(String),
    /// No record exists at the derived address.
    NotFound(String),
    /// No evidence artifact attached to the image passed the filter.
    NoEvidenceFound(String),
    /// The selected evidence artifact carries no signature annotation.
    MissingSignatureAnnotation(String),
    /// The resolved record names a different signer than expected.
    SignerMismatch(String),
    /// The resolved record holds a different digest than the reference.
    DigestMismatch(String),
    /// The evidence blob could not be attached to the image.
    PublishFailed(String),
    /// A registry helper process exited with a failure.
    ExternalToolError(String),
}

} // verus!
