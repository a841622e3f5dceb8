use propfirm::auth::{hex_fmt, parse_service_token_spec, AuthConfig, AuthedIdentity};
use propfirm::error::Error;
use sha2::{Digest, Sha256};

fn digest_hex(token: &str) -> String {
    hex_fmt(Sha256::digest(token.as_bytes()).as_slice())
}

/// A configuration where each service's bearer token is its own name,
/// with an optional previous token during a rotation.
fn config_with_services(entries: &[(&str, Option<&str>)]) -> AuthConfig {
    let mut parts: Vec<String> = Vec::new();
    for (service, previous) in entries {
        parts.push(format!("{}:active:{}", service, digest_hex(service)));
        if let Some(p) = previous {
            parts.push(format!("{}:previous:{}", service, digest_hex(p)));
        }
    }
    let spec = parts.join(",");
    AuthConfig::from_settings(Some(spec.as_str()), None).unwrap()
}

#[test]
fn parse_service_token_spec_roundtrip() {
    let spec = "web:active:abc123,workers:active:def456";
    let map = parse_service_token_spec(spec).unwrap();
    assert_eq!(map.get("web").map(|(a, _)| a.as_str()), Some("abc123"));
    assert_eq!(map.get("workers").map(|(a, _)| a.as_str()), Some("def456"));
}

#[test]
fn parse_service_token_spec_rejects_garbage() {
    assert!(parse_service_token_spec("").is_err());
    assert!(parse_service_token_spec("no-kind-here").is_err());
    assert!(parse_service_token_spec("web:unknown:abc").is_err());
}

#[test]
fn authenticate_active_token() {
    let cfg = config_with_services(&[("web-secret", None), ("workers-secret", None)]);
    assert_eq!(
        cfg.authenticate(Some("Bearer web-secret")),
        Some(AuthedIdentity::new("web-secret"))
    );
}

#[test]
fn authenticate_previous_token_during_rotation() {
    let cfg = config_with_services(&[("web", Some("web-previous")), ("workers", None)]);
    assert_eq!(
        cfg.authenticate(Some("Bearer web-previous")),
        Some(AuthedIdentity::new("web"))
    );
}

#[test]
fn authenticate_rejects_wrong_token() {
    let cfg = config_with_services(&[("web", None)]);
    assert!(cfg.authenticate(Some("Bearer wrong")).is_none());
    assert!(cfg.authenticate(Some("Bearer ")).is_none());
    assert!(cfg.authenticate(None).is_none());
}

#[test]
fn constant_time_digest_compare() {
    let digest = digest_hex("same");
    assert!(AuthConfig::digest_matches("same", &digest));
    assert!(!AuthConfig::digest_matches("different", &digest));
}

#[test]
fn exempt_paths() {
    assert!(AuthConfig::is_exempt("/health"));
    assert!(AuthConfig::is_exempt("/ready"));
    assert!(!AuthConfig::is_exempt("/internal/v1/evaluate"));
    assert!(!AuthConfig::is_exempt("/v1/accounts/1"));
}

#[test]
fn from_env_fails_closed_without_tokens() {
    assert!(AuthConfig::from_settings(None, Some("")).is_err());
    let cfg = AuthConfig::from_settings(None, Some("1")).unwrap();
    assert!(cfg.allow_insecure);
    assert!(!cfg.insecure_warnings().is_empty());
}

#[test]
fn insecure_flag_needs_exactly_one() {
    assert!(AuthConfig::from_settings(None, Some("true")).is_err());
    assert!(AuthConfig::from_settings(None, None).is_err());
}

#[test]
fn malformed_tokens_are_invalid_config() {
    let r = AuthConfig::from_settings(Some("web:active"), Some("1"));
    assert!(matches!(r, Err(Error::InvalidConfig(_))));
}

#[test]
fn lowercase_bearer_prefix_is_accepted() {
    let cfg = config_with_services(&[("web", None)]);
    assert_eq!(cfg.authenticate(Some("bearer web")), Some(AuthedIdentity::new("web")));
    assert!(cfg.authenticate(Some("Token web")).is_none());
}

#[test]
fn configured_tokens_give_no_warning() {
    let cfg = config_with_services(&[("web", None)]);
    assert!(cfg.insecure_warnings().is_empty());
}

#[test]
fn hex_digest_is_lowercase_sixty_four_chars() {
    let h = digest_hex("abc");
    assert_eq!(h, "ba7816bf8f01cfea414140de5dae2223b00361a396177a9cb410ff61f20015ad");
}

#[test]
fn service_token_pairs_are_active_digests() {
    let map = parse_service_token_spec("web:abc123, workers: def456 ,web:previous:0ld").unwrap();
    assert_eq!(map.get("web").map(|(a, _)| a.as_str()), Some("abc123"));
    assert_eq!(map.get("web").and_then(|(_, p)| p.as_deref()), Some("0ld"));
    assert_eq!(map.get("workers").map(|(a, _)| a.as_str()), Some("def456"));
    assert!(matches!(parse_service_token_spec("web:abc,web:def"), Err(Error::InvalidConfig(_))));
    assert!(matches!(parse_service_token_spec("web:active"), Err(Error::InvalidConfig(_))));
}
