//! The tool's configuration values and the rules that govern them.
//!
//! Configuration is a plain value, constructed once per invocation and
//! passed into the pipelines; no component re-reads the environment on its
//! own. Reading the file, the environment variables and the home directory
//! is the caller's: the functions here decide what the values mean —
//! defaults, precedence of overrides, key lookup and update. Paths are
//! stored as given; a caller expands a leading tilde first, with
//! [`expand_tilde`] and the home directory it resolved.

use vstd::prelude::*;
use vstd::string::*;

use crate::errors::SkelzError;
use crate::strutil::{is_prefix_of, str_eq, str_has_prefix};

verus! {

/// The tool's configuration: which cluster to reach, through which RPC
/// endpoint, signing with which keypair, at which commitment level, and
/// optional registry credentials.
pub struct SkelzConfig {
    pub cluster: String,
    pub rpc_url: String,
    pub keypair_path: String,
    pub commitment: String,
    pub ghcr_user: Option<String>,
    pub ghcr_token: Option<String>,
}

/// The public RPC endpoint of a cluster name; unknown names fall back to
/// the devnet endpoint.
pub open spec fn spec_default_rpc_url(cluster: Seq<char>) -> Seq<char> {
    if cluster == "mainnet"@ || cluster == "mainnet-beta"@ {
        "https://api.mainnet-beta.solana.com"@
    } else if cluster == "testnet"@ {
        "https://api.testnet.solana.com"@
    } else if cluster == "localnet"@ || cluster == "local"@ {
        "http://127.0.0.1:8899"@
    } else {
        "https://api.devnet.solana.com"@
    }
}

/// The public RPC endpoint of a cluster name.
pub fn default_cluster_rpc_url(cluster: &str) -> (r: String)
    ensures
        r@ == spec_default_rpc_url(cluster@),
{
    if str_eq(cluster, "mainnet") || str_eq(cluster, "mainnet-beta") {
        String::from_str("https://api.mainnet-beta.solana.com")
    } else if str_eq(cluster, "testnet") {
        String::from_str("https://api.testnet.solana.com")
    } else if str_eq(cluster, "localnet") || str_eq(cluster, "local") {
        String::from_str("http://127.0.0.1:8899")
    } else {
        String::from_str("https://api.devnet.solana.com")
    }
}

impl SkelzConfig {
    /// The default configuration around a given keypair path: the devnet
    /// cluster through its public endpoint, confirmed commitment, no
    /// registry credentials.
    pub fn default_for_keypair(keypair_path: String) -> (r: SkelzConfig)
        ensures
            r.cluster@ == "devnet"@,
            r.rpc_url@ == spec_default_rpc_url("devnet"@),
            r.keypair_path == keypair_path,
            r.commitment@ == "confirmed"@,
            r.ghcr_user is None,
            r.ghcr_token is None,
    {
        SkelzConfig {
            cluster: String::from_str("devnet"),
            rpc_url: default_cluster_rpc_url("devnet"),
            keypair_path,
            commitment: String::from_str("confirmed"),
            ghcr_user: None,
            ghcr_token: None,
        }
    }
}

/// Reads one configuration value by key. The token is never shown in
/// clear; an absent user reads as empty; an unknown key fails with
/// `UnknownConfigKey`.
pub fn get_config_value(cfg: &SkelzConfig, key: &str) -> (r: Result<String, SkelzError>)
    ensures
        key@ == "cluster"@ ==> (r matches Ok(v) && v@ == cfg.cluster@),
        key@ == "rpc_url"@ ==> (r matches Ok(v) && v@ == cfg.rpc_url@),
        key@ == "keypair_path"@ ==> (r matches Ok(v) && v@ == cfg.keypair_path@),
        key@ == "commitment"@ ==> (r matches Ok(v) && v@ == cfg.commitment@),
        key@ == "ghcr_user"@ ==> (r matches Ok(v) && v@ == (match cfg.ghcr_user {
            Some(u) => u@,
            None => Seq::<char>::empty(),
        })),
        key@ == "ghcr_token"@ ==> (r matches Ok(v) && v@ == "<redacted>"@),
        (key@ != "cluster"@ && key@ != "rpc_url"@ && key@ != "keypair_path"@ && key@
            != "commitment"@ && key@ != "ghcr_user"@ && key@ != "ghcr_token"@) ==> (
        r matches Err(e) && e matches SkelzError::UnknownConfigKey(m) && m@ == key@),
{
    proof {
        reveal_strlit("cluster");
        reveal_strlit("rpc_url");
        reveal_strlit("keypair_path");
        reveal_strlit("commitment");
        reveal_strlit("ghcr_user");
        reveal_strlit("ghcr_token");
        assert("cluster"@.len() == 7);
        assert("rpc_url"@.len() == 7);
        assert("keypair_path"@.len() == 12);
        assert("commitment"@.len() == 10);
        assert("ghcr_user"@.len() == 9);
        assert("ghcr_token"@.len() == 10);
        assert("cluster"@[0] != "rpc_url"@[0]);
        assert("commitment"@[0] != "ghcr_token"@[0]);
    }
    if str_eq(key, "cluster") {
        Ok(cfg.cluster.clone())
    } else if str_eq(key, "rpc_url") {
        Ok(cfg.rpc_url.clone())
    } else if str_eq(key, "keypair_path") {
        Ok(cfg.keypair_path.clone())
    } else if str_eq(key, "commitment") {
        Ok(cfg.commitment.clone())
    } else if str_eq(key, "ghcr_user") {
        match &cfg.ghcr_user {
            Some(u) => Ok(u.clone()),
            None => Ok(String::new()),
        }
    } else if str_eq(key, "ghcr_token") {
        Ok(String::from_str("<redacted>"))
    } else {
        Err(SkelzError::UnknownConfigKey(String::from_str(key)))
    }
}

/// Sets one configuration value by key, leaving every other field as it
/// was; an unknown key fails with `UnknownConfigKey` and changes nothing.
pub fn set_config_value(cfg: &mut SkelzConfig, key: &str, value: &str) -> (r: Result<
    (),
    SkelzError,
>)
    ensures
        key@ == "cluster"@ ==> (r is Ok
            && final(cfg).cluster@ == value@
            && final(cfg).rpc_url == old(cfg).rpc_url
            && final(cfg).keypair_path == old(cfg).keypair_path
            && final(cfg).commitment == old(cfg).commitment
            && final(cfg).ghcr_user == old(cfg).ghcr_user
            && final(cfg).ghcr_token == old(cfg).ghcr_token),
        key@ == "rpc_url"@ ==> (r is Ok
            && final(cfg).rpc_url@ == value@
            && final(cfg).cluster == old(cfg).cluster
            && final(cfg).keypair_path == old(cfg).keypair_path
            && final(cfg).commitment == old(cfg).commitment
            && final(cfg).ghcr_user == old(cfg).ghcr_user
            && final(cfg).ghcr_token == old(cfg).ghcr_token),
        key@ == "keypair_path"@ ==> (r is Ok
            && final(cfg).keypair_path@ == value@
            && final(cfg).cluster == old(cfg).cluster
            && final(cfg).rpc_url == old(cfg).rpc_url
            && final(cfg).commitment == old(cfg).commitment
            && final(cfg).ghcr_user == old(cfg).ghcr_user
            && final(cfg).ghcr_token == old(cfg).ghcr_token),
        key@ == "commitment"@ ==> (r is Ok
            && final(cfg).commitment@ == value@
            && final(cfg).cluster == old(cfg).cluster
            && final(cfg).rpc_url == old(cfg).rpc_url
            && final(cfg).keypair_path == old(cfg).keypair_path
            && final(cfg).ghcr_user == old(cfg).ghcr_user
            && final(cfg).ghcr_token == old(cfg).ghcr_token),
        key@ == "ghcr_user"@ ==> (r is Ok
            && (final(cfg).ghcr_user matches Some(u) && u@ == value@)
            && final(cfg).cluster == old(cfg).cluster
            && final(cfg).rpc_url == old(cfg).rpc_url
            && final(cfg).keypair_path == old(cfg).keypair_path
            && final(cfg).commitment == old(cfg).commitment
            && final(cfg).ghcr_token == old(cfg).ghcr_token),
        key@ == "ghcr_token"@ ==> (r is Ok
            && (final(cfg).ghcr_token matches Some(t) && t@ == value@)
            && final(cfg).cluster == old(cfg).cluster
            && final(cfg).rpc_url == old(cfg).rpc_url
            && final(cfg).keypair_path == old(cfg).keypair_path
            && final(cfg).commitment == old(cfg).commitment
            && final(cfg).ghcr_user == old(cfg).ghcr_user),
        (key@ != "cluster"@ && key@ != "rpc_url"@ && key@ != "keypair_path"@ && key@
            != "commitment"@ && key@ != "ghcr_user"@ && key@ != "ghcr_token"@) ==> (
        r matches Err(e) && e matches SkelzError::UnknownConfigKey(m) && m@ == key@ && *final(cfg)
            == *old(cfg)),
{
    proof {
        reveal_strlit("cluster");
        reveal_strlit("rpc_url");
        reveal_strlit("keypair_path");
        reveal_strlit("commitment");
        reveal_strlit("ghcr_user");
        reveal_strlit("ghcr_token");
        assert("cluster"@.len() == 7);
        assert("rpc_url"@.len() == 7);
        assert("keypair_path"@.len() == 12);
        assert("commitment"@.len() == 10);
        assert("ghcr_user"@.len() == 9);
        assert("ghcr_token"@.len() == 10);
        assert("cluster"@[0] != "rpc_url"@[0]);
        assert("commitment"@[0] != "ghcr_token"@[0]);
    }
    if str_eq(key, "cluster") {
        cfg.cluster = String::from_str(value);
        Ok(())
    } else if str_eq(key, "rpc_url") {
        cfg.rpc_url = String::from_str(value);
        Ok(())
    } else if str_eq(key, "keypair_path") {
        cfg.keypair_path = String::from_str(value);
        Ok(())
    } else if str_eq(key, "commitment") {
        cfg.commitment = String::from_str(value);
        Ok(())
    } else if str_eq(key, "ghcr_user") {
        cfg.ghcr_user = Some(String::from_str(value));
        Ok(())
    } else if str_eq(key, "ghcr_token") {
        cfg.ghcr_token = Some(String::from_str(value));
        Ok(())
    } else {
        Err(SkelzError::UnknownConfigKey(String::from_str(key)))
    }
}

/// The registry user that applies: the environment's, else the
/// configuration's.
pub open spec fn spec_resolved_credential(env: Option<String>, cfg: Option<String>) -> Option<
    Seq<char>,
> {
    match env {
        Some(u) => Some(u@),
        None => match cfg {
            Some(u) => Some(u@),
            None => None,
        },
    }
}

/// Resolves the registry credentials: the environment's values win over
/// the configuration's; fails with `ConfigNotFound` exactly when either
/// the user or the token is found in neither. The caller passes the
/// environment values, blank ones already dropped.
pub fn resolve_ghcr_credentials(
    cfg: &SkelzConfig,
    env_user: Option<String>,
    env_token: Option<String>,
) -> (r: Result<(String, String), SkelzError>)
    ensures
        r is Ok <==> (spec_resolved_credential(env_user, cfg.ghcr_user) is Some
            && spec_resolved_credential(env_token, cfg.ghcr_token) is Some),
        r matches Ok(p) ==> (Some(p.0@) == spec_resolved_credential(env_user, cfg.ghcr_user)
            && Some(p.1@) == spec_resolved_credential(env_token, cfg.ghcr_token)),
        r matches Err(e) ==> e is ConfigNotFound,
{
    let user = match env_user {
        Some(u) => Some(u),
        None => match &cfg.ghcr_user {
            Some(u) => Some(u.clone()),
            None => None,
        },
    };
    let token = match env_token {
        Some(t) => Some(t),
        None => match &cfg.ghcr_token {
            Some(t) => Some(t.clone()),
            None => None,
        },
    };
    match (user, token) {
        (Some(u), Some(t)) => Ok((u, t)),
        _ => Err(
            SkelzError::ConfigNotFound(String::from_str("registry credentials")),
        ),
    }
}

/// Applies the override precedence to a loaded configuration: an explicit
/// value wins over the environment's, which wins over the file's; every
/// other field stays. The caller passes the environment values, blank
/// ones already dropped and tildes already expanded.
pub fn load_config_with_overrides(
    base: SkelzConfig,
    rpc_url: Option<String>,
    env_rpc: Option<String>,
    keypair_path: Option<String>,
    env_keypair: Option<String>,
) -> (r: SkelzConfig)
    ensures
        r.rpc_url@ == (match rpc_url {
            Some(u) => u@,
            None => match env_rpc {
                Some(u) => u@,
                None => base.rpc_url@,
            },
        }),
        r.keypair_path@ == (match keypair_path {
            Some(p) => p@,
            None => match env_keypair {
                Some(p) => p@,
                None => base.keypair_path@,
            },
        }),
        r.cluster == base.cluster,
        r.commitment == base.commitment,
        r.ghcr_user == base.ghcr_user,
        r.ghcr_token == base.ghcr_token,
{
    let mut cfg = base;
    match rpc_url {
        Some(u) => {
            cfg.rpc_url = u;
        },
        None => match env_rpc {
            Some(u) => {
                cfg.rpc_url = u;
            },
            None => (),
        },
    }
    match keypair_path {
        Some(p) => {
            cfg.keypair_path = p;
        },
        None => match env_keypair {
            Some(p) => {
                cfg.keypair_path = p;
            },
            None => (),
        },
    }
    cfg
}

/// Replaces a leading `~/` with the home directory the caller resolved,
/// joining with a path separator; a path without the prefix, or a missing
/// home, passes through unchanged.
pub fn expand_tilde(path: &str, home: Option<&str>) -> (r: String)
    ensures
        (is_prefix_of("~/"@, path@) && home is Some) ==> (match home {
            Some(h) => r@ == h@ + "/"@ + path@.subrange(2, path@.len() as int),
            None => false,
        }),
        !(is_prefix_of("~/"@, path@) && home is Some) ==> r@ == path@,
{
    if str_has_prefix(path, "~/") {
        match home {
            Some(h) => {
                proof {
                    reveal_strlit("~/");
                }
                let n = path.unicode_len();
                let rest = path.substring_char(2, n);
                let mut out = String::from_str(h);
                out.append("/");
                out.append(rest);
                out
            },
            None => String::from_str(path),
        }
    } else {
        String::from_str(path)
    }
}

} // verus!
