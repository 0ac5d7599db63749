//! DigestCodec: parsing and validation of canonical image references.
//!
//! A canonical reference has the shape `registry/repository@sha256:<hex>`.
//! The digest — everything after the `@` — is the protocol's primary key
//! material; a reference without the marker carries no digest and is
//! rejected. The evidence chain recognizes exactly one registry host as its
//! canonical source.

use vstd::prelude::*;
use vstd::string::*;

use crate::errors::SkelzError;
use crate::strutil::{
    find_char_from, find_sub, is_prefix_of, lemma_find_char_props, lemma_find_sub_props,
    spec_find_char, spec_find_sub, str_has_prefix,
};

verus! {

/// The digest marker a canonical reference must contain.
pub open spec fn digest_marker() -> Seq<char> {
    "@sha256:"@
}

/// The one registry host the evidence chain treats as canonical.
pub open spec fn canonical_registry_host() -> Seq<char> {
    "ghcr.io"@
}

/// True when the reference carries a digest marker.
pub open spec fn has_digest_marker(s: Seq<char>) -> bool {
    spec_find_sub(s, 0, digest_marker()) is Some
}

/// The digest of a canonical reference: everything after the `@` of the
/// first digest marker; nothing when no marker occurs.
pub open spec fn spec_extract_digest(s: Seq<char>) -> Option<Seq<char>> {
    match spec_find_sub(s, 0, digest_marker()) {
        Some(i) => Some(s.subrange(i + 1, s.len() as int)),
        None => None,
    }
}

/// True when the reference lies in the canonical registry's scope.
pub open spec fn in_registry_scope(s: Seq<char>) -> bool {
    is_prefix_of(canonical_registry_host(), s)
}

/// Extracts the digest from a canonical image reference.
///
/// Returns the digest, `sha256:` included, of the first digest marker;
/// fails with `InvalidReference` exactly when the reference holds no
/// `@sha256:` marker.
pub fn extract_digest_from_reference(image_reference: &str) -> (r: Result<String, SkelzError>)
    ensures
        r is Ok <==> has_digest_marker(image_reference@),
        r matches Ok(d) ==> Some(d@) == spec_extract_digest(image_reference@),
        r matches Err(e) ==> e matches SkelzError::InvalidReference(m) && m@ == image_reference@,
{
    match find_sub(image_reference, "@sha256:") {
        Some(i) => {
            proof {
                reveal_strlit("@sha256:");
                lemma_find_sub_props(image_reference@, 0, digest_marker());
            }
            let n = image_reference.unicode_len();
            let d = image_reference.substring_char(i + 1, n);
            Ok(String::from_str(d))
        },
        None => Err(SkelzError::InvalidReference(String::from_str(image_reference))),
    }
}

/// Checks that the reference lies in the canonical registry's scope; fails
/// with `UnsupportedRegistry` exactly when it does not.
pub fn validate_registry_scope(image_reference: &str) -> (r: Result<(), SkelzError>)
    ensures
        r is Ok <==> in_registry_scope(image_reference@),
        r matches Err(e) ==> e matches SkelzError::UnsupportedRegistry(m) && m@
            == image_reference@,
{
    if str_has_prefix(image_reference, "ghcr.io") {
        Ok(())
    } else {
        Err(SkelzError::UnsupportedRegistry(String::from_str(image_reference)))
    }
}

/// Checks the reference against an allow-list of registry hosts; accepted
/// exactly when some listed host is a prefix of the reference.
pub fn validate_scope(image_reference: &str, allowed_hosts: &Vec<String>) -> (r: Result<
    (),
    SkelzError,
>)
    ensures
        r is Ok <==> exists|i: int|
            0 <= i < allowed_hosts@.len() && is_prefix_of(
                allowed_hosts@[i]@,
                image_reference@,
            ),
        r matches Err(e) ==> e matches SkelzError::UnsupportedRegistry(m) && m@
            == image_reference@,
{
    let n = allowed_hosts.len();
    let mut i: usize = 0;
    while i < n
        invariant
            0 <= i <= n,
            n == allowed_hosts@.len(),
            forall|j: int| 0 <= j < i ==> !is_prefix_of(allowed_hosts@[j]@, image_reference@),
        decreases n - i,
    {
        if str_has_prefix(image_reference, allowed_hosts[i].as_str()) {
            return Ok(());
        }
        i += 1;
    }
    Err(SkelzError::UnsupportedRegistry(String::from_str(image_reference)))
}

/// Full format check of a reference handed to the sign or verify pipeline:
/// the digest marker first, the registry scope second, as the pipeline
/// reports them.
pub fn check_reference_format(image_reference: &str) -> (r: Result<(), SkelzError>)
    ensures
        r is Ok <==> has_digest_marker(image_reference@) && in_registry_scope(image_reference@),
        !has_digest_marker(image_reference@) ==> (r matches Err(e) && e matches
            SkelzError::InvalidReference(m) && m@ == image_reference@),
        has_digest_marker(image_reference@) && !in_registry_scope(image_reference@) ==> (
        r matches Err(e) && e matches SkelzError::UnsupportedRegistry(m) && m@
            == image_reference@),
{
    if find_sub(image_reference, "@sha256:").is_none() {
        return Err(SkelzError::InvalidReference(String::from_str(image_reference)));
    }
    validate_registry_scope(image_reference)
}

/// The reference rewritten onto the canonical registry: kept as it stands
/// when already there, else re-rooted by replacing everything before the
/// first `/`; nothing when no `/` occurs to split at.
pub open spec fn spec_to_ghcr_reference(s: Seq<char>) -> Option<Seq<char>> {
    if is_prefix_of("ghcr.io/"@, s) {
        Some(s)
    } else {
        match spec_find_char(s, 0, '/') {
            Some(p) => Some("ghcr.io/"@ + s.subrange(p + 1, s.len() as int)),
            None => None,
        }
    }
}

/// Rewrites a reference onto the canonical registry host; fails with
/// `InvalidReference` exactly when the reference has no `/` to split at.
pub fn to_ghcr_reference(image_reference: &str) -> (r: Result<String, SkelzError>)
    ensures
        r is Ok <==> spec_to_ghcr_reference(image_reference@) is Some,
        r matches Ok(g) ==> Some(g@) == spec_to_ghcr_reference(image_reference@),
        r matches Err(e) ==> e matches SkelzError::InvalidReference(m) && m@
            == image_reference@,
{
    if str_has_prefix(image_reference, "ghcr.io/") {
        Ok(String::from_str(image_reference))
    } else {
        match find_char_from(image_reference, 0, '/') {
            Some(p) => {
                proof {
                    lemma_find_char_props(image_reference@, 0, '/');
                }
                let n = image_reference.unicode_len();
                let tail = image_reference.substring_char(p + 1, n);
                let mut out = String::from_str("ghcr.io/");
                out.append(tail);
                Ok(out)
            },
            None => Err(SkelzError::InvalidReference(String::from_str(image_reference))),
        }
    }
}

} // verus!
