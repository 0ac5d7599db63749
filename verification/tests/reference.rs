//! Reference parsing, scope checks, and configuration rules.

use skelz::config::{
    default_cluster_rpc_url, expand_tilde, get_config_value, load_config_with_overrides,
    resolve_ghcr_credentials, set_config_value, SkelzConfig,
};
use skelz::digest::{
    check_reference_format, extract_digest_from_reference, to_ghcr_reference, validate_scope,
    validate_registry_scope,
};
use skelz::errors::SkelzError;

fn digest_of(c: char) -> String {
    let mut d = String::from("sha256:");
    for _ in 0..64 {
        d.push(c);
    }
    d
}

#[test]
fn extract_digest_from_canonical_reference() {
    let reference = format!("ghcr.io/acme/app@{}", digest_of('a'));
    let extracted = extract_digest_from_reference(&reference).unwrap();
    assert_eq!(extracted, digest_of('a'));
}

#[test]
fn extract_digest_rejects_tag_reference() {
    let r = extract_digest_from_reference("ghcr.io/acme/app:latest");
    assert!(matches!(r, Err(SkelzError::InvalidReference(_))));
}

#[test]
fn extract_digest_takes_first_marker() {
    let r = extract_digest_from_reference("a@sha256:x@sha256:y").unwrap();
    assert_eq!(r, "sha256:x@sha256:y");
}

#[test]
fn registry_scope_accepts_only_canonical_host() {
    assert!(validate_registry_scope("ghcr.io/acme/app@sha256:abc").is_ok());
    let r = validate_registry_scope("docker.io/acme/app@sha256:abc");
    assert!(matches!(r, Err(SkelzError::UnsupportedRegistry(_))));
}

#[test]
fn scope_allow_list_is_checked_in_order() {
    let hosts = vec!["docker.io".to_string(), "ghcr.io".to_string()];
    assert!(validate_scope("ghcr.io/acme/app", &hosts).is_ok());
    let r = validate_scope("quay.io/acme/app", &hosts);
    assert!(matches!(r, Err(SkelzError::UnsupportedRegistry(_))));
}

#[test]
fn reference_format_check_orders_its_failures() {
    let r = check_reference_format("ghcr.io/acme/app:latest");
    assert!(matches!(r, Err(SkelzError::InvalidReference(_))));
    let r = check_reference_format("docker.io/acme/app@sha256:abc");
    assert!(matches!(r, Err(SkelzError::UnsupportedRegistry(_))));
    assert!(check_reference_format("ghcr.io/acme/app@sha256:abc").is_ok());
}

#[test]
fn ghcr_rewrite_keeps_and_reroots() {
    assert_eq!(
        to_ghcr_reference("ghcr.io/acme/app@sha256:abc").unwrap(),
        "ghcr.io/acme/app@sha256:abc"
    );
    assert_eq!(
        to_ghcr_reference("docker.io/acme/app@sha256:abc").unwrap(),
        "ghcr.io/acme/app@sha256:abc"
    );
    let r = to_ghcr_reference("no-slash-here");
    assert!(matches!(r, Err(SkelzError::InvalidReference(_))));
}

#[test]
fn default_rpc_for_devnet() {
    assert_eq!(default_cluster_rpc_url("devnet"), "https://api.devnet.solana.com");
}

#[test]
fn default_rpc_for_other_clusters() {
    assert_eq!(default_cluster_rpc_url("mainnet-beta"), "https://api.mainnet-beta.solana.com");
    assert_eq!(default_cluster_rpc_url("testnet"), "https://api.testnet.solana.com");
    assert_eq!(default_cluster_rpc_url("local"), "http://127.0.0.1:8899");
    assert_eq!(default_cluster_rpc_url("anything-else"), "https://api.devnet.solana.com");
}

#[test]
fn default_config_is_devnet_confirmed() {
    let cfg = SkelzConfig::default_for_keypair("/keys/id.json".to_string());
    assert_eq!(cfg.cluster, "devnet");
    assert_eq!(cfg.rpc_url, "https://api.devnet.solana.com");
    assert_eq!(cfg.keypair_path, "/keys/id.json");
    assert_eq!(cfg.commitment, "confirmed");
    assert!(cfg.ghcr_user.is_none());
    assert!(cfg.ghcr_token.is_none());
}

#[test]
fn config_get_reads_and_redacts() {
    let mut cfg = SkelzConfig::default_for_keypair("/keys/id.json".to_string());
    cfg.ghcr_token = Some("SECRET-REDACTED".to_string());
    assert_eq!(get_config_value(&cfg, "cluster").unwrap(), "devnet");
    assert_eq!(get_config_value(&cfg, "keypair_path").unwrap(), "/keys/id.json");
    assert_eq!(get_config_value(&cfg, "ghcr_user").unwrap(), "");
    assert_eq!(get_config_value(&cfg, "ghcr_token").unwrap(), "<redacted>");
    let r = get_config_value(&cfg, "color");
    assert!(matches!(r, Err(SkelzError::UnknownConfigKey(_))));
}

#[test]
fn config_set_updates_one_field() {
    let mut cfg = SkelzConfig::default_for_keypair("/keys/id.json".to_string());
    set_config_value(&mut cfg, "rpc_url", "http://127.0.0.1:8899").unwrap();
    assert_eq!(cfg.rpc_url, "http://127.0.0.1:8899");
    assert_eq!(cfg.cluster, "devnet");
    let r = set_config_value(&mut cfg, "color", "green");
    assert!(matches!(r, Err(SkelzError::UnknownConfigKey(_))));
    assert_eq!(cfg.rpc_url, "http://127.0.0.1:8899");
}

#[test]
fn credentials_prefer_environment_over_config() {
    let mut cfg = SkelzConfig::default_for_keypair("id.json".to_string());
    cfg.ghcr_user = Some("file-user".to_string());
    cfg.ghcr_token = Some("file-token".to_string());
    let (u, t) =
        resolve_ghcr_credentials(&cfg, Some("env-user".to_string()), None).unwrap();
    assert_eq!(u, "env-user");
    assert_eq!(t, "file-token");
    let bare = SkelzConfig::default_for_keypair("id.json".to_string());
    let r = resolve_ghcr_credentials(&bare, None, Some("env-token".to_string()));
    assert!(matches!(r, Err(SkelzError::ConfigNotFound(_))));
}

#[test]
fn overrides_beat_environment_beats_file() {
    let base = SkelzConfig::default_for_keypair("/keys/id.json".to_string());
    let cfg = load_config_with_overrides(
        base,
        Some("http://explicit".to_string()),
        Some("http://env".to_string()),
        None,
        Some("/env/id.json".to_string()),
    );
    assert_eq!(cfg.rpc_url, "http://explicit");
    assert_eq!(cfg.keypair_path, "/env/id.json");
    assert_eq!(cfg.cluster, "devnet");
}

#[test]
fn tilde_expansion_joins_home() {
    assert_eq!(expand_tilde("~/keys/id.json", Some("/home/u")), "/home/u/keys/id.json");
    assert_eq!(expand_tilde("~/keys/id.json", None), "~/keys/id.json");
    assert_eq!(expand_tilde("/abs/id.json", Some("/home/u")), "/abs/id.json");
}
