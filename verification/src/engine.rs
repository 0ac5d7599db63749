//! VerificationEngine: the ordered, short-circuiting verification chain.
//!
//! Verification re-derives trust from a bare image reference: validate the
//! reference, select the authoritative evidence among the image's attached
//! artifacts, read the transaction id off it, resolve the attestation
//! record at the address derived from the reference's digest, then compare
//! the record's signer and digest against what the caller expects. The
//! chain stops at the first failing stage and reports that stage's
//! failure; it succeeds only when every stage passed.
//!
//! The registry and ledger reads are the caller's: the chain takes the
//! discovered artifacts and the record store as values, and decides.

use vstd::prelude::*;
use vstd::string::*;

use crate::address::{
    derive_record_address, parse_pubkey_base58, pubkey_bytes_of, spec_record_address,
};
use crate::artifact::{
    ann_lookup, get_latest_skelz_artifact, is_selected_index, is_skelz_evidence,
    signature_annotation_key, spec_ann_lookup, OciArtifact,
};
use crate::digest::{
    check_reference_format, extract_digest_from_reference, has_digest_marker, in_registry_scope,
    spec_extract_digest,
};
use crate::errors::SkelzError;
use crate::evidence::{decode_signature_memo, spec_decode_memo};
use crate::store::{AttestationStore, Signature};
use crate::strutil::{bytes_eq, copy_bytes, str_eq};

verus! {

/// How the chain resolves the record the evidence points at: from the
/// dedicated record at the derived address (the canonical path), or from
/// a signature memo logged in the ledger transaction itself (the legacy
/// encoding). Configuration picks the variant; the comparisons after
/// resolution are the same.
pub enum RecordResolver {
    DirectRecord,
    MemoLog,
}

/// Reads the signature annotation — the ledger transaction id — off the
/// selected evidence artifact; fails with `MissingSignatureAnnotation`
/// exactly when the artifact carries none.
pub fn extract_tx_id(artifact: &OciArtifact) -> (r: Result<String, SkelzError>)
    ensures
        r is Ok <==> spec_ann_lookup(artifact.annotations@, signature_annotation_key()) is Some,
        r matches Ok(tx) ==> spec_ann_lookup(artifact.annotations@, signature_annotation_key())
            == Some(tx@),
        r matches Err(e) ==> (e matches SkelzError::MissingSignatureAnnotation(m) && m@
            == artifact.reference@),
{
    match ann_lookup(&artifact.annotations, "skelz.signature") {
        Some(v) => Ok(v.clone()),
        None => Err(SkelzError::MissingSignatureAnnotation(artifact.reference.clone())),
    }
}

/// The signer comparison: the record's signer must equal the expected
/// signer, compared as canonical address bytes; fails with
/// `SignerMismatch` exactly when the expected text does not parse to the
/// record's signer bytes.
pub fn compare_signer(record_signer: &Vec<u8>, expected_signer: &str) -> (r: Result<
    (),
    SkelzError,
>)
    ensures
        r is Ok <==> pubkey_bytes_of(expected_signer@) == Some(record_signer@),
        r matches Err(e) ==> (e matches SkelzError::SignerMismatch(m) && m@ == expected_signer@),
{
    match parse_pubkey_base58(expected_signer) {
        Some(expected_bytes) => {
            if bytes_eq(record_signer, &expected_bytes) {
                Ok(())
            } else {
                Err(SkelzError::SignerMismatch(String::from_str(expected_signer)))
            }
        },
        None => Err(SkelzError::SignerMismatch(String::from_str(expected_signer))),
    }
}

/// The digest comparison: the record's digest must equal the digest
/// extracted from the reference, character for character; fails with
/// `DigestMismatch` exactly when the two differ anywhere.
pub fn compare_digest(record_digest: &str, reference_digest: &str) -> (r: Result<(), SkelzError>)
    ensures
        r is Ok <==> record_digest@ == reference_digest@,
        r matches Err(e) ==> (e matches SkelzError::DigestMismatch(m) && m@ == record_digest@),
{
    if str_eq(record_digest, reference_digest) {
        Ok(())
    } else {
        Err(SkelzError::DigestMismatch(String::from_str(record_digest)))
    }
}

/// Checks a resolved record against the reference's digest and the
/// expected signer: the signer first, the digest second, as the chain
/// orders its stages.
pub fn verify_signature(record: &Signature, digest: &str, expected_signer: &str) -> (r: Result<
    (),
    SkelzError,
>)
    ensures
        r is Ok <==> (pubkey_bytes_of(expected_signer@) == Some(record.signer@)
            && record.digest@ == digest@),
        pubkey_bytes_of(expected_signer@) != Some(record.signer@) ==> (r matches Err(e)
            && e is SignerMismatch),
        (pubkey_bytes_of(expected_signer@) == Some(record.signer@) && record.digest@ != digest@)
            ==> (r matches Err(e) && e is DigestMismatch),
{
    match compare_signer(&record.signer, expected_signer) {
        Ok(_) => compare_digest(record.digest.as_str(), digest),
        Err(e) => Err(e),
    }
}

/// Resolves the record the evidence names, by the configured mode. On the
/// canonical path the record is read from the store at the derived
/// address; on the legacy path it is decoded from the memo blob the caller
/// fetched out of the ledger transaction, whose signer the caller passes
/// along. Fails with `NotFound` exactly when the mode's source yields no
/// record.
pub fn resolve_record(
    mode: &RecordResolver,
    store: &AttestationStore,
    address: &Vec<u8>,
    memo_blob: Option<&str>,
    tx_signer: &Vec<u8>,
) -> (r: Result<Signature, SkelzError>)
    requires
        store.wf(),
    ensures
        mode is DirectRecord ==> {
            &&& (r is Ok <==> store.contents().contains_key(address@))
            &&& (r matches Ok(rec) ==> store.contents()[address@] == rec@)
        },
        mode is MemoLog ==> {
            &&& (r is Ok <==> (memo_blob matches Some(blob) && spec_decode_memo(blob@) is Some))
            &&& (r matches Ok(rec) ==> (memo_blob matches Some(blob) && spec_decode_memo(blob@)
                matches Some(m) && rec.digest@ == m.2 && rec.signer@ == tx_signer@))
        },
        r matches Err(e) ==> e is NotFound,
{
    match mode {
        RecordResolver::DirectRecord => {
            match store.read_signature(address) {
                Ok(rec) => Ok(
                    Signature { digest: rec.digest.clone(), signer: copy_bytes(&rec.signer) },
                ),
                Err(e) => Err(e),
            }
        },
        RecordResolver::MemoLog => {
            match memo_blob {
                Some(blob) => match resolve_memo_record(blob, tx_signer) {
                    Some(rec) => Ok(rec),
                    None => Err(
                        SkelzError::NotFound(
                            String::from_str("the transaction logs no canonical signature memo"),
                        ),
                    ),
                },
                None => Err(
                    SkelzError::NotFound(
                        String::from_str("no transaction memo to resolve the record from"),
                    ),
                ),
            }
        },
    }
}

/// The registry-side check alone: the reference's format and the presence
/// of authoritative evidence among the discovered artifacts, returning the
/// authoritative artifact's position; no ledger is consulted.
pub fn verify_oci_artifacts(image_reference: &str, artifacts: &Vec<OciArtifact>) -> (r: Result<
    usize,
    SkelzError,
>)
    ensures
        r is Ok <==> (has_digest_marker(image_reference@) && in_registry_scope(image_reference@)
            && exists|j: int|
            0 <= j < artifacts@.len() && is_skelz_evidence(artifacts@[j], image_reference@)),
        r matches Ok(i) ==> is_selected_index(artifacts@, image_reference@, i as int),
        !has_digest_marker(image_reference@) ==> (r matches Err(e) && e is InvalidReference),
        (has_digest_marker(image_reference@) && !in_registry_scope(image_reference@)) ==> (
        r matches Err(e) && e is UnsupportedRegistry),
        (has_digest_marker(image_reference@) && in_registry_scope(image_reference@) && !(exists|
            j: int,
        | 0 <= j < artifacts@.len() && is_skelz_evidence(artifacts@[j], image_reference@))) ==> (
        r matches Err(e) && e is NoEvidenceFound),
{
    match check_reference_format(image_reference) {
        Ok(_) => get_latest_skelz_artifact(artifacts, image_reference),
        Err(e) => Err(e),
    }
}

/// Resolves an attestation record from a legacy signature memo: the digest
/// comes from the memo's artifact, the signer from the ledger transaction
/// that logged the memo; nothing when the blob is no canonical memo.
pub fn resolve_memo_record(blob: &str, tx_signer: &Vec<u8>) -> (r: Option<Signature>)
    ensures
        r is Some <==> spec_decode_memo(blob@) is Some,
        r matches Some(rec) ==> (spec_decode_memo(blob@) matches Some(m) && rec.digest@ == m.2
            && rec.signer@ == tx_signer@),
{
    match decode_signature_memo(blob) {
        Some(m) => Some(Signature { digest: m.artifact.digest, signer: copy_bytes(tx_signer) }),
        None => None,
    }
}

/// Whether the chain's stages all pass: the reference is well-formed and
/// in scope, some evidence exists, the derivation and the store yield a
/// record, and that record names the expected signer and the reference's
/// own digest.
pub open spec fn spec_verified(
    reference: Seq<char>,
    expected_signer: Seq<char>,
    contents: Map<Seq<u8>, (Seq<char>, Seq<u8>)>,
    arts: Seq<OciArtifact>,
) -> bool {
    &&& has_digest_marker(reference)
    &&& in_registry_scope(reference)
    &&& exists|j: int| 0 <= j < arts.len() && is_skelz_evidence(arts[j], reference)
    &&& {
        let digest = spec_extract_digest(reference).unwrap();
        match spec_record_address(digest) {
            Some(addr) => contents.contains_key(addr) && {
                let record = contents[addr];
                &&& pubkey_bytes_of(expected_signer) == Some(record.1)
                &&& record.0 == digest
            },
            None => false,
        }
    }
}

/// The whole verification chain over values the caller discovered: the
/// image's attached artifacts and the record store's state. Succeeds
/// exactly when every stage passes; otherwise reports the first failing
/// stage's error.
pub fn verify_image_signature(
    image_reference: &str,
    expected_signer: &str,
    store: &AttestationStore,
    artifacts: &Vec<OciArtifact>,
) -> (r: Result<(), SkelzError>)
    requires
        store.wf(),
    ensures
        r is Ok <==> spec_verified(
            image_reference@,
            expected_signer@,
            store.contents(),
            artifacts@,
        ),
        !has_digest_marker(image_reference@) ==> (r matches Err(e) && e is InvalidReference),
        (has_digest_marker(image_reference@) && !in_registry_scope(image_reference@)) ==> (
        r matches Err(e) && e is UnsupportedRegistry),
        (has_digest_marker(image_reference@) && in_registry_scope(image_reference@) && !(exists|
            j: int,
        | 0 <= j < artifacts@.len() && is_skelz_evidence(artifacts@[j], image_reference@))) ==> (
        r matches Err(e) && e is NoEvidenceFound),
        ({
            let digest = spec_extract_digest(image_reference@).unwrap();
            has_digest_marker(image_reference@) && in_registry_scope(image_reference@) && (exists|
                j: int,
            | 0 <= j < artifacts@.len() && is_skelz_evidence(artifacts@[j], image_reference@)) && (
            match spec_record_address(digest) {
                Some(addr) => !store.contents().contains_key(addr),
                None => false,
            })
        }) ==> (r matches Err(e) && e is NotFound),
        ({
            let digest = spec_extract_digest(image_reference@).unwrap();
            has_digest_marker(image_reference@) && in_registry_scope(image_reference@) && (exists|
                j: int,
            | 0 <= j < artifacts@.len() && is_skelz_evidence(artifacts@[j], image_reference@)) && (
            match spec_record_address(digest) {
                Some(addr) => store.contents().contains_key(addr) && pubkey_bytes_of(
                    expected_signer@,
                ) != Some(store.contents()[addr].1),
                None => false,
            })
        }) ==> (r matches Err(e) && e is SignerMismatch),
        ({
            let digest = spec_extract_digest(image_reference@).unwrap();
            has_digest_marker(image_reference@) && in_registry_scope(image_reference@) && (exists|
                j: int,
            | 0 <= j < artifacts@.len() && is_skelz_evidence(artifacts@[j], image_reference@)) && (
            match spec_record_address(digest) {
                Some(addr) => store.contents().contains_key(addr) && pubkey_bytes_of(
                    expected_signer@,
                ) == Some(store.contents()[addr].1) && store.contents()[addr].0 != digest,
                None => false,
            })
        }) ==> (r matches Err(e) && e is DigestMismatch),
{
    match check_reference_format(image_reference) {
        Ok(_) => (),
        Err(e) => {
            return Err(e);
        },
    }
    let digest = match extract_digest_from_reference(image_reference) {
        Ok(d) => d,
        Err(e) => {
            return Err(e);
        },
    };
    let selected = match get_latest_skelz_artifact(artifacts, image_reference) {
        Ok(i) => i,
        Err(e) => {
            return Err(e);
        },
    };
    let _tx_id = match extract_tx_id(&artifacts[selected]) {
        Ok(t) => t,
        Err(e) => {
            return Err(e);
        },
    };
    let address = match derive_record_address(digest.as_str()) {
        Ok(a) => a,
        Err(e) => {
            return Err(e);
        },
    };
    let record = match store.read_signature(&address) {
        Ok(rec) => rec,
        Err(e) => {
            return Err(e);
        },
    };
    verify_signature(record, digest.as_str(), expected_signer)
}

} // verus!
