//! Evidence discovery and selection of the authoritative artifact.

use skelz::artifact::{ann_lookup, created_timestamp, get_latest_skelz_artifact, OciArtifact};
use skelz::engine::{extract_tx_id, verify_oci_artifacts};
use skelz::errors::SkelzError;

const EVIDENCE_TYPE: &str = "application/vnd.skelz.proof.v1+json";
const IMAGE: &str = "ghcr.io/acme/app@sha256:abc";

fn evidence(tx: &str, image: &str, created: Option<&str>) -> OciArtifact {
    let mut annotations = vec![
        ("skelz.signature".to_string(), tx.to_string()),
        ("skelz.original-image".to_string(), image.to_string()),
        ("skelz.tool".to_string(), "skelz-cli@v1.0.0".to_string()),
    ];
    if let Some(t) = created {
        annotations.push(("org.opencontainers.artifact.created".to_string(), t.to_string()));
    }
    OciArtifact {
        reference: format!("ghcr.io/acme/app@sha256:evidence-{tx}"),
        media_type: "application/vnd.oci.image.manifest.v1+json".to_string(),
        digest: format!("sha256:evidence-{tx}"),
        size: 128,
        annotations,
        artifact_type: EVIDENCE_TYPE.to_string(),
        referrers: Vec::new(),
    }
}

#[test]
fn selects_the_later_created_artifact() {
    let older = evidence("tx-old", IMAGE, Some("2024-01-01T00:00:00Z"));
    let newer = evidence("tx-new", IMAGE, Some("2024-06-01T00:00:00Z"));
    let artifacts = vec![older, newer];
    let i = get_latest_skelz_artifact(&artifacts, IMAGE).unwrap();
    assert_eq!(i, 1);
    assert_eq!(extract_tx_id(&artifacts[i]).unwrap(), "tx-new");

    let artifacts = vec![
        evidence("tx-new", IMAGE, Some("2024-06-01T00:00:00Z")),
        evidence("tx-old", IMAGE, Some("2024-01-01T00:00:00Z")),
    ];
    assert_eq!(get_latest_skelz_artifact(&artifacts, IMAGE).unwrap(), 0);
}

#[test]
fn empty_filter_fails_with_no_evidence_found() {
    let artifacts: Vec<OciArtifact> = Vec::new();
    let r = get_latest_skelz_artifact(&artifacts, IMAGE);
    assert!(matches!(r, Err(SkelzError::NoEvidenceFound(_))));
}

#[test]
fn filter_requires_type_image_and_signature() {
    let mut wrong_type = evidence("tx-1", IMAGE, Some("2024-06-01T00:00:00Z"));
    wrong_type.artifact_type = "application/vnd.oci.empty.v1+json".to_string();
    let wrong_image = evidence("tx-2", "ghcr.io/acme/other@sha256:def", None);
    let mut no_signature = evidence("tx-3", IMAGE, None);
    no_signature.annotations.retain(|(k, _)| k != "skelz.signature");
    let artifacts = vec![wrong_type, wrong_image, no_signature];
    let r = get_latest_skelz_artifact(&artifacts, IMAGE);
    assert!(matches!(r, Err(SkelzError::NoEvidenceFound(_))));
}

#[test]
fn missing_or_unparseable_timestamps_sort_oldest() {
    let dated = evidence("tx-dated", IMAGE, Some("1999-12-31T23:59:59Z"));
    let missing = evidence("tx-missing", IMAGE, None);
    let garbled = evidence("tx-garbled", IMAGE, Some("not-a-timestamp"));
    assert!(created_timestamp(&missing) == i64::MIN);
    assert!(created_timestamp(&garbled) == i64::MIN);
    assert!(created_timestamp(&dated) > i64::MIN);
    let artifacts = vec![missing, garbled, dated];
    assert_eq!(get_latest_skelz_artifact(&artifacts, IMAGE).unwrap(), 2);
}

#[test]
fn equal_timestamps_tie_break_to_the_first() {
    let a = evidence("tx-a", IMAGE, Some("2024-06-01T00:00:00Z"));
    let b = evidence("tx-b", IMAGE, Some("2024-06-01T00:00:00+00:00"));
    let artifacts = vec![a, b];
    assert_eq!(get_latest_skelz_artifact(&artifacts, IMAGE).unwrap(), 0);
}

#[test]
fn fallback_created_key_is_honoured() {
    let mut via_fallback = evidence("tx-fb", IMAGE, None);
    via_fallback.annotations.push((
        "org.opencontainers.image.created".to_string(),
        "2024-06-01T00:00:00Z".to_string(),
    ));
    let plain = evidence("tx-plain", IMAGE, None);
    let artifacts = vec![plain, via_fallback];
    assert_eq!(get_latest_skelz_artifact(&artifacts, IMAGE).unwrap(), 1);
}

#[test]
fn missing_signature_annotation_is_reported() {
    let mut bare = evidence("tx-x", IMAGE, None);
    bare.annotations.retain(|(k, _)| k != "skelz.signature");
    let r = extract_tx_id(&bare);
    assert!(matches!(r, Err(SkelzError::MissingSignatureAnnotation(_))));
}

#[test]
fn registry_side_check_validates_then_selects() {
    let reference = format!("ghcr.io/acme/app@sha256:{}", "a".repeat(64));
    let artifacts = vec![
        evidence("tx-old", &reference, Some("2024-01-01T00:00:00Z")),
        evidence("tx-new", &reference, Some("2024-06-01T00:00:00Z")),
    ];
    assert_eq!(verify_oci_artifacts(&reference, &artifacts).unwrap(), 1);
    let r = verify_oci_artifacts("ghcr.io/acme/app:latest", &artifacts);
    assert!(matches!(r, Err(SkelzError::InvalidReference(_))));
    let r = verify_oci_artifacts(&reference, &Vec::new());
    assert!(matches!(r, Err(SkelzError::NoEvidenceFound(_))));
}

#[test]
fn annotation_lookup_returns_first_match() {
    let a = evidence("tx-1", IMAGE, None);
    assert_eq!(ann_lookup(&a.annotations, "skelz.signature").unwrap(), "tx-1");
    assert!(ann_lookup(&a.annotations, "absent-key").is_none());
}
