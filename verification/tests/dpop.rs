use atrium::dpop::{check_algorithm, DpopClient, DpopKey, Error, ErrorResponse, KeyKind, ResponseParts};
use atrium::store::MemoryMapStore;
use base64::Engine;
use sha2::Digest;
use std::sync::Arc;

type Client = DpopClient<(), MemoryMapStore<String, String>>;

fn p256() -> jose_jwk::Key {
    serde_json::from_str(
        r#"{"kty":"EC","crv":"P-256","x":"AAAAAAAAAAAAAAAAAAAAAAAAAAAAAAAAAAAAAAAAAAA","y":"AAAAAAAAAAAAAAAAAAAAAAAAAAAAAAAAAAAAAAAAAAA"}"#,
    )
    .unwrap()
}

fn oct() -> jose_jwk::Key {
    serde_json::from_str(r#"{"kty":"oct","k":"AAAA"}"#).unwrap()
}

fn response(status: u16, body: &str, www: Option<&str>, nonce: Option<&str>) -> ResponseParts {
    ResponseParts {
        status,
        error_response: serde_json::from_str::<serde_json::Value>(body)
            .ok()
            .and_then(|v| v.get("error").and_then(|e| e.as_str()).map(|e| ErrorResponse { error: e.to_string() })),
        www_authenticate: www.map(String::from),
        dpop_nonce: nonce.map(String::from),
    }
}

#[test]
fn algorithm_must_be_supported() {
    assert!(check_algorithm(KeyKind::EcP256, &None).is_ok());
    assert!(check_algorithm(KeyKind::EcP256, &Some(vec!["RS256".to_string(), "ES256".to_string()])).is_ok());
    assert!(matches!(check_algorithm(KeyKind::EcP256, &Some(vec!["RS256".to_string()])), Err(Error::UnsupportedKey)));
    assert!(DpopKey::from_jwk(p256()).is_p256());
    assert!(!DpopKey::from_jwk(oct()).is_p256());
    assert!(Client::new(DpopKey::from_jwk(p256()), Arc::new(()), &Some(vec!["ES256".to_string()])).is_ok());
    assert!(Client::new(DpopKey::from_jwk(p256()), Arc::new(()), &None).is_ok());
    assert!(matches!(Client::new(DpopKey::from_jwk(p256()), Arc::new(()), &Some(vec![])), Err(Error::UnsupportedKey)));
    assert!(matches!(
        Client::new(DpopKey::from_jwk(p256()), Arc::new(()), &Some(vec!["RS256".to_string()])),
        Err(Error::UnsupportedKey)
    ));
    assert!(Client::new(DpopKey::from_jwk(oct()), Arc::new(()), &None).is_ok());
}

#[test]
fn prepare_reads_the_request() {
    let r = Client::prepare("POST", "https://pds.example/xrpc/x", "pds.example", "/xrpc/x", Some("DPoP tok"));
    assert_eq!(r.nonce_key, "pds.example");
    assert_eq!(r.htm, "POST");
    assert_eq!(r.htu, "https://pds.example/xrpc/x");
    assert!(!r.is_auth_server);
    let b64 = base64::engine::general_purpose::URL_SAFE_NO_PAD;
    assert_eq!(r.ath, Some(b64.encode(sha2::Sha256::digest(b"tok"))));
    let a = Client::prepare("POST", "https://auth.example/oauth/token", "auth.example", "/oauth/token", Some("Bearer tok"));
    assert!(a.is_auth_server);
    assert!(a.ath.is_none());
    let n = Client::prepare("GET", "https://x/y", "x", "/y", None);
    assert!(n.ath.is_none());
}

#[test]
fn use_dpop_nonce_errors() {
    let c = Client::new(DpopKey::from_jwk(p256()), Arc::new(()), &None).ok().unwrap();
    assert!(c.is_use_dpop_nonce_error(&response(400, r#"{"error":"use_dpop_nonce"}"#, None, None), true));
    assert!(!c.is_use_dpop_nonce_error(&response(400, r#"{"error":"invalid_grant"}"#, None, None), true));
    assert!(!c.is_use_dpop_nonce_error(&response(400, "not json", None, None), true));
    assert!(!c.is_use_dpop_nonce_error(&response(401, r#"{"error":"use_dpop_nonce"}"#, None, None), true));
    assert!(c.is_use_dpop_nonce_error(&response(401, "", Some(r#"DPoP error="use_dpop_nonce", error_description="x""#), None), false));
    assert!(!c.is_use_dpop_nonce_error(&response(401, "", Some(r#"Bearer error="use_dpop_nonce""#), None), false));
    assert!(!c.is_use_dpop_nonce_error(&response(401, "", None, None), false));
    assert!(!c.is_use_dpop_nonce_error(&response(400, "", Some(r#"DPoP error="use_dpop_nonce""#), None), false));
}

#[test]
fn nonces_are_kept_and_retried_with() {
    let mut c = Client::new(DpopKey::from_jwk(p256()), Arc::new(()), &None).ok().unwrap();
    let req = Client::prepare("POST", "https://auth.example/oauth/par", "auth.example", "/oauth/par", None);
    let init = c.init_nonce(&req).ok().unwrap();
    assert!(init.is_none());
    // a fresh nonce with a use_dpop_nonce error: keep it and retry with it
    let retry = c.after_response(&req, &init, &response(400, r#"{"error":"use_dpop_nonce"}"#, None, Some("n1"))).ok().unwrap();
    assert_eq!(retry.as_deref(), Some("n1"));
    assert_eq!(c.init_nonce(&req).ok().unwrap().as_deref(), Some("n1"));
    // the same nonce again: nothing to do
    let same = c.after_response(&req, &Some("n1".to_string()), &response(400, r#"{"error":"use_dpop_nonce"}"#, None, Some("n1"))).ok().unwrap();
    assert!(same.is_none());
    // a fresh nonce on success: keep it, no retry
    let ok = c.after_response(&req, &Some("n1".to_string()), &response(200, "{}", None, Some("n2"))).ok().unwrap();
    assert!(ok.is_none());
    assert_eq!(c.init_nonce(&req).ok().unwrap().as_deref(), Some("n2"));
    // no nonce: nothing to do
    assert!(c.after_response(&req, &None, &response(200, "{}", None, None)).ok().unwrap().is_none());
}

#[test]
fn jti_is_base64_of_twelve_bytes() {
    let j = Client::generate_jti().unwrap();
    assert_eq!(j.len(), 16);
    assert!(j.chars().all(|c| c.is_ascii_alphanumeric() || c == '-' || c == '_'));
    let b64 = base64::engine::general_purpose::URL_SAFE_NO_PAD;
    assert_eq!(b64.decode(&j).unwrap().len(), 12);
}
