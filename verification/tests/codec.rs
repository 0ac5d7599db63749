//! The canonical blob codecs: exact shapes and round trips.

use skelz::evidence::{
    decode_proof_payload, decode_signature_memo, encode_proof_payload, encode_signature_memo,
    is_plain_text, MemoArtifact, SignatureMemo, SolanaProofPayload,
};

fn sample_payload() -> SolanaProofPayload {
    SolanaProofPayload {
        network: "solana-devnet".to_string(),
        tx_hash: "5KtP3xAbc".to_string(),
        tool: "skelz-cli@v1.0.0".to_string(),
    }
}

#[test]
fn payload_encodes_to_exact_json() {
    let blob = encode_proof_payload(&sample_payload());
    assert_eq!(
        blob,
        "{\"network\":\"solana-devnet\",\"tx_hash\":\"5KtP3xAbc\",\"tool\":\"skelz-cli@v1.0.0\"}"
    );
}

#[test]
fn payload_round_trips() {
    let blob = encode_proof_payload(&sample_payload());
    let back = decode_proof_payload(&blob).unwrap();
    assert_eq!(back.network, "solana-devnet");
    assert_eq!(back.tx_hash, "5KtP3xAbc");
    assert_eq!(back.tool, "skelz-cli@v1.0.0");
}

#[test]
fn payload_round_trips_empty_fields() {
    let payload = SolanaProofPayload {
        network: String::new(),
        tx_hash: String::new(),
        tool: String::new(),
    };
    let blob = encode_proof_payload(&payload);
    assert_eq!(blob, "{\"network\":\"\",\"tx_hash\":\"\",\"tool\":\"\"}");
    let back = decode_proof_payload(&blob).unwrap();
    assert_eq!(back.network, "");
    assert_eq!(back.tx_hash, "");
    assert_eq!(back.tool, "");
}

#[test]
fn payload_decode_rejects_other_shapes() {
    assert!(decode_proof_payload("").is_none());
    assert!(decode_proof_payload("{}").is_none());
    assert!(decode_proof_payload("{\"network\":\"x\"}").is_none());
    assert!(
        decode_proof_payload(
            "{\"tool\":\"t\",\"network\":\"n\",\"tx_hash\":\"h\"}"
        )
        .is_none()
    );
    assert!(
        decode_proof_payload(
            "{\"network\":\"n\",\"tx_hash\":\"h\",\"tool\":\"t\"} "
        )
        .is_none()
    );
}

#[test]
fn plain_text_rejects_quote_and_backslash() {
    assert!(is_plain_text("solana-devnet"));
    assert!(is_plain_text(""));
    assert!(!is_plain_text("a\"b"));
    assert!(!is_plain_text("a\\b"));
}

fn sample_memo(version: u32) -> SignatureMemo {
    SignatureMemo {
        version,
        artifact: MemoArtifact {
            kind: "oci-image".to_string(),
            digest: format!("sha256:{}", "a".repeat(64)),
        },
    }
}

#[test]
fn memo_encodes_to_exact_json() {
    let blob = encode_signature_memo(&sample_memo(1));
    let expected = format!(
        "{{\"version\":1,\"artifact\":{{\"kind\":\"oci-image\",\"digest\":\"sha256:{}\"}}}}",
        "a".repeat(64)
    );
    assert_eq!(blob, expected);
}

#[test]
fn memo_round_trips() {
    let blob = encode_signature_memo(&sample_memo(1));
    let back = decode_signature_memo(&blob).unwrap();
    assert_eq!(back.version, 1);
    assert_eq!(back.artifact.kind, "oci-image");
    assert_eq!(back.artifact.digest, sample_memo(1).artifact.digest);
}

#[test]
fn memo_round_trips_largest_version() {
    let blob = encode_signature_memo(&sample_memo(u32::MAX));
    assert!(blob.starts_with("{\"version\":4294967295,"));
    let back = decode_signature_memo(&blob).unwrap();
    assert_eq!(back.version, u32::MAX);
}

#[test]
fn memo_decode_rejects_bad_version_and_shape() {
    assert!(decode_signature_memo("").is_none());
    assert!(decode_signature_memo("{\"version\":,").is_none());
    assert!(
        decode_signature_memo(
            "{\"version\":4294967296,\"artifact\":{\"kind\":\"k\",\"digest\":\"d\"}}"
        )
        .is_none()
    );
    assert!(
        decode_signature_memo(
            "{\"version\":1,\"artifact\":{\"kind\":\"k\",\"digest\":\"d\"}} "
        )
        .is_none()
    );
}
