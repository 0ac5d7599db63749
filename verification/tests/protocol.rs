//! Addressing, the write-once store, and the verification chain end to end.

use std::str::FromStr;

use sha2::Digest;
use skelz::address::{derive_record_address, program_id_bytes, skelz_program_id_base58};
use skelz::artifact::OciArtifact;
use skelz::engine::{
    compare_digest, resolve_memo_record, resolve_record, verify_image_signature,
    verify_signature, RecordResolver,
};
use skelz::errors::SkelzError;
use skelz::evidence::{encode_signature_memo, MemoArtifact, SignatureMemo};
use skelz::signer::{build_evidence_annotations, sign_digest};
use skelz::store::{is_success_equivalent, AttestationStore, Signature};

const SIGNER: &str = "4uw8DwTRdUMwGmbNrK5GZ5kgdVtco4aUaTGDnEUBrYKt";
const OTHER_SIGNER: &str = "11111111111111111111111111111111";

fn digest_of(c: char) -> String {
    format!("sha256:{}", c.to_string().repeat(64))
}

fn signer_bytes(base58: &str) -> Vec<u8> {
    solana_sdk::pubkey::Pubkey::from_str(base58).unwrap().to_bytes().to_vec()
}

#[test]
fn program_id_bytes_match_their_base58_form() {
    let decoded = solana_sdk::pubkey::Pubkey::from_str(skelz_program_id_base58()).unwrap();
    assert_eq!(program_id_bytes(), decoded.to_bytes().to_vec());
}

#[test]
fn distinct_digests_derive_distinct_addresses() {
    let a1 = derive_record_address(&digest_of('a')).unwrap();
    let a2 = derive_record_address(&digest_of('b')).unwrap();
    assert_eq!(a1.len(), 32);
    assert_eq!(a2.len(), 32);
    assert_ne!(a1, a2);
}

#[test]
fn derivation_is_reproducible_and_matches_the_ledger_convention() {
    let digest = digest_of('a');
    let derived = derive_record_address(&digest).unwrap();
    assert_eq!(derived, derive_record_address(&digest).unwrap());
    let hash = sha2::Sha256::digest(digest.as_bytes());
    let program = solana_sdk::pubkey::Pubkey::from_str(skelz_program_id_base58()).unwrap();
    let (expected, _bump) =
        solana_sdk::pubkey::Pubkey::find_program_address(&[b"signature", &hash], &program);
    assert_eq!(derived, expected.to_bytes().to_vec());
}

#[test]
fn second_write_at_same_address_is_duplicate() {
    let mut store = AttestationStore::new();
    let address = derive_record_address(&digest_of('a')).unwrap();
    let first = store.write_signature(&address, &digest_of('a'), &signer_bytes(SIGNER));
    assert_eq!(first.unwrap(), 0);
    assert!(store.has_record(&address));
    let second = store.write_signature(&address, &digest_of('a'), &signer_bytes(OTHER_SIGNER));
    assert!(matches!(second, Err(SkelzError::DuplicateAttestation(_))));
    assert!(is_success_equivalent(&second));
    let record = store.read_signature(&address).unwrap();
    assert_eq!(record.digest, digest_of('a'));
    assert_eq!(record.signer, signer_bytes(SIGNER));
}

#[test]
fn read_of_empty_address_is_not_found() {
    let store = AttestationStore::new();
    let address = derive_record_address(&digest_of('a')).unwrap();
    let r = store.read_signature(&address);
    assert!(matches!(r, Err(SkelzError::NotFound(_))));
}

#[test]
fn digest_comparison_is_exact() {
    let exact = digest_of('a');
    let mut off_by_one = digest_of('a');
    off_by_one.pop();
    off_by_one.push('b');
    assert!(compare_digest(&exact, &exact).is_ok());
    let r = compare_digest(&off_by_one, &exact);
    assert!(matches!(r, Err(SkelzError::DigestMismatch(_))));
}

#[test]
fn record_check_orders_signer_before_digest() {
    let record = Signature { digest: digest_of('a'), signer: signer_bytes(SIGNER) };
    assert!(verify_signature(&record, &digest_of('a'), SIGNER).is_ok());
    let r = verify_signature(&record, &digest_of('b'), OTHER_SIGNER);
    assert!(matches!(r, Err(SkelzError::SignerMismatch(_))));
    let r = verify_signature(&record, &digest_of('b'), SIGNER);
    assert!(matches!(r, Err(SkelzError::DigestMismatch(_))));
    let r = verify_signature(&record, &digest_of('a'), "not-a-key");
    assert!(matches!(r, Err(SkelzError::SignerMismatch(_))));
}

fn evidence_for(reference: &str, tx: &str) -> OciArtifact {
    OciArtifact {
        reference: format!("{reference}-evidence"),
        media_type: "application/vnd.oci.image.manifest.v1+json".to_string(),
        digest: "sha256:evidence".to_string(),
        size: 64,
        annotations: build_evidence_annotations(
            tx,
            reference,
            "2024-06-01T00:00:00Z",
            "skelz-cli@v1.0.0",
        ),
        artifact_type: "application/vnd.skelz.proof.v1+json".to_string(),
        referrers: Vec::new(),
    }
}

#[test]
fn sign_then_verify_round_trip() {
    let reference = format!("ghcr.io/acme/app@{}", digest_of('a'));
    let mut store = AttestationStore::new();

    let tx = sign_digest(&mut store, &reference, &signer_bytes(SIGNER)).unwrap();
    let artifacts = vec![evidence_for(&reference, &tx.to_string())];

    assert!(verify_image_signature(&reference, SIGNER, &store, &artifacts).is_ok());
    let r = verify_image_signature(&reference, OTHER_SIGNER, &store, &artifacts);
    assert!(matches!(r, Err(SkelzError::SignerMismatch(_))));
}

#[test]
fn verification_chain_reports_the_first_failing_stage() {
    let reference = format!("ghcr.io/acme/app@{}", digest_of('a'));
    let store = AttestationStore::new();
    let artifacts = vec![evidence_for(&reference, "tx-1")];

    let r = verify_image_signature("ghcr.io/acme/app:latest", SIGNER, &store, &artifacts);
    assert!(matches!(r, Err(SkelzError::InvalidReference(_))));

    let tagged = format!("docker.io/acme/app@{}", digest_of('a'));
    let r = verify_image_signature(&tagged, SIGNER, &store, &artifacts);
    assert!(matches!(r, Err(SkelzError::UnsupportedRegistry(_))));

    let r = verify_image_signature(&reference, SIGNER, &store, &Vec::new());
    assert!(matches!(r, Err(SkelzError::NoEvidenceFound(_))));

    let r = verify_image_signature(&reference, SIGNER, &store, &artifacts);
    assert!(matches!(r, Err(SkelzError::NotFound(_))));
}

#[test]
fn verification_catches_a_record_for_another_digest() {
    let reference = format!("ghcr.io/acme/app@{}", digest_of('a'));
    let address = derive_record_address(&digest_of('a')).unwrap();
    let mut store = AttestationStore::new();
    store.write_signature(&address, &digest_of('b'), &signer_bytes(SIGNER)).unwrap();
    let artifacts = vec![evidence_for(&reference, "tx-1")];
    let r = verify_image_signature(&reference, SIGNER, &store, &artifacts);
    assert!(matches!(r, Err(SkelzError::DigestMismatch(_))));
}

#[test]
fn signing_twice_is_success_equivalent() {
    let reference = format!("ghcr.io/acme/app@{}", digest_of('a'));
    let mut store = AttestationStore::new();
    sign_digest(&mut store, &reference, &signer_bytes(SIGNER)).unwrap();
    let again = sign_digest(&mut store, &reference, &signer_bytes(SIGNER));
    assert!(matches!(again, Err(SkelzError::DuplicateAttestation(_))));
    assert!(is_success_equivalent(&again));
}

#[test]
fn record_resolution_follows_the_configured_mode() {
    let digest = digest_of('a');
    let address = derive_record_address(&digest).unwrap();
    let mut store = AttestationStore::new();
    store.write_signature(&address, &digest, &signer_bytes(SIGNER)).unwrap();

    let direct =
        resolve_record(&RecordResolver::DirectRecord, &store, &address, None, &signer_bytes(SIGNER))
            .unwrap();
    assert_eq!(direct.digest, digest);
    assert_eq!(direct.signer, signer_bytes(SIGNER));

    let memo = SignatureMemo {
        version: 1,
        artifact: MemoArtifact { kind: "oci-image".to_string(), digest: digest.clone() },
    };
    let blob = encode_signature_memo(&memo);
    let legacy = resolve_record(
        &RecordResolver::MemoLog,
        &AttestationStore::new(),
        &address,
        Some(&blob),
        &signer_bytes(SIGNER),
    )
    .unwrap();
    assert_eq!(legacy.digest, digest);
    assert_eq!(legacy.signer, signer_bytes(SIGNER));

    let r = resolve_record(
        &RecordResolver::MemoLog,
        &store,
        &address,
        None,
        &signer_bytes(SIGNER),
    );
    assert!(matches!(r, Err(SkelzError::NotFound(_))));
}

#[test]
fn memo_resolution_feeds_the_same_checks() {
    let memo = SignatureMemo {
        version: 1,
        artifact: MemoArtifact { kind: "oci-image".to_string(), digest: digest_of('a') },
    };
    let blob = encode_signature_memo(&memo);
    let record = resolve_memo_record(&blob, &signer_bytes(SIGNER)).unwrap();
    assert!(verify_signature(&record, &digest_of('a'), SIGNER).is_ok());
    let r = verify_signature(&record, &digest_of('a'), OTHER_SIGNER);
    assert!(matches!(r, Err(SkelzError::SignerMismatch(_))));
    assert!(resolve_memo_record("not json", &signer_bytes(SIGNER)).is_none());
}
