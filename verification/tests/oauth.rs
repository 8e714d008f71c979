use atrium::oauth::{
    authorization_url, check_callback_issuer, generate_pkce, pkce_from_bytes, AtpStageMapStore,
    AuthorizeOptions, CallbackParams, Error, OAuthAuthorizationServerMetadata, OAuthClient,
    OAuthClientConfig, OAuthClientMetadata, Stage, TokenSet,
};
use atrium::store::MemoryMapStore;
use atrium::xrpc::JwtTokenType;
use base64::Engine;
use sha2::Digest;

fn key() -> jose_jwk::Key {
    serde_json::from_str(
        r#"{"kty":"EC","crv":"P-256","x":"AAAAAAAAAAAAAAAAAAAAAAAAAAAAAAAAAAAAAAAAAAA","y":"AAAAAAAAAAAAAAAAAAAAAAAAAAAAAAAAAAAAAAAAAAA"}"#,
    )
    .unwrap()
}

fn metadata(par: bool, require_par: Option<bool>, iss_supported: Option<bool>) -> OAuthAuthorizationServerMetadata {
    OAuthAuthorizationServerMetadata {
        issuer: "https://auth.example".to_string(),
        authorization_endpoint: "https://auth.example/oauth/authorize".to_string(),
        token_endpoint: "https://auth.example/oauth/token".to_string(),
        pushed_authorization_request_endpoint: if par { Some("https://auth.example/oauth/par".to_string()) } else { None },
        require_pushed_authorization_requests: require_par,
        authorization_response_iss_parameter_supported: iss_supported,
        dpop_signing_alg_values_supported: None,
    }
}

fn client() -> OAuthClient<MemoryMapStore<String, Stage>, ()> {
    OAuthClient::new(OAuthClientConfig {
        client_metadata: OAuthClientMetadata {
            client_id: "https://app.example/client-metadata.json".to_string(),
            redirect_uris: vec!["https://app.example/callback".to_string(), "https://app.example/other".to_string()],
        },
        store: MemoryMapStore::default(),
        http_client: (),
    })
}

fn options(redirect: Option<&str>) -> AuthorizeOptions {
    AuthorizeOptions {
        redirect_uri: redirect.map(String::from),
        scopes: Some(vec!["atproto".to_string(), "transition:generic".to_string()]),
        prompt: None,
    }
}

#[test]
fn pkce_challenge_is_hash_of_verifier() {
    let bytes = [7u8; 32];
    let (challenge, verifier) = pkce_from_bytes(&bytes);
    let b64 = base64::engine::general_purpose::URL_SAFE_NO_PAD;
    assert_eq!(verifier, b64.encode(bytes));
    let (_, short) = pkce_from_bytes(&[0xfb, 0xff, 0x01, 0x02]);
    assert_eq!(short, "-_8BAg");
    assert_eq!(challenge, b64.encode(sha2::Sha256::digest(verifier.as_bytes())));
    let (c2, v2) = generate_pkce().unwrap();
    assert_eq!(v2.len(), 43);
    assert!(v2.chars().all(|c| c.is_ascii_alphanumeric() || c == '-' || c == '_'));
    assert_eq!(c2, b64.encode(sha2::Sha256::digest(v2.as_bytes())));
}

#[test]
fn redirect_uri_must_be_registered() {
    let c = client();
    assert_eq!(c.redirect_uri(None).ok().unwrap(), "https://app.example/callback");
    assert_eq!(c.redirect_uri(Some("https://app.example/other".to_string())).ok().unwrap(), "https://app.example/other");
    assert!(matches!(c.redirect_uri(Some("https://evil.example".to_string())), Err(Error::Authorize(ref m)) if m == "invalid redirect_uri"));
}

#[test]
fn authorize_keeps_stage_and_builds_request() {
    let mut c = client();
    let p = c
        .authorize("alice.test", options(None), &metadata(true, None, None), true, key(), "state-1".to_string())
        .ok()
        .unwrap();
    assert_eq!(p.redirect_uri, "https://app.example/callback");
    assert_eq!(p.state, "state-1");
    assert_eq!(p.scope.as_deref(), Some("atproto transition:generic"));
    assert_eq!(p.login_hint.as_deref(), Some("alice.test"));
    assert!(p.prompt.is_none());
    match c.callback(&CallbackParams { code: "c".to_string(), state: Some("state-1".to_string()), iss: None }) {
        Ok(data) => {
            assert_eq!(data.iss, "https://auth.example");
            let b64 = base64::engine::general_purpose::URL_SAFE_NO_PAD;
            assert_eq!(p.code_challenge, b64.encode(sha2::Sha256::digest(data.verifier.as_bytes())));
            assert_eq!(data.dpop_key, key());
        }
        Err(_) => panic!("callback refused"),
    }
    // the state is consumed
    assert!(matches!(
        c.callback(&CallbackParams { code: "c".to_string(), state: Some("state-1".to_string()), iss: None }),
        Err(Error::Callback(ref m)) if m == "unknown authorization state: state-1"
    ));
}

#[test]
fn authorize_refusals() {
    let mut c = client();
    assert!(matches!(
        c.authorize("alice.test", options(Some("https://evil.example")), &metadata(true, None, None), false, key(), "s".to_string()),
        Err(Error::Authorize(ref m)) if m == "invalid redirect_uri"
    ));
    assert!(matches!(
        c.authorize("alice.test", options(None), &metadata(false, Some(true), None), false, key(), "s2".to_string()),
        Err(Error::Authorize(ref m)) if m == "server requires PAR but no endpoint is available"
    ));
}

#[test]
fn callback_without_state() {
    let mut c = client();
    assert!(matches!(
        c.callback(&CallbackParams { code: "c".to_string(), state: None, iss: None }),
        Err(Error::Callback(ref m)) if m == "missing `state` parameter"
    ));
}

#[test]
fn callback_issuer_checks() {
    let md = metadata(true, None, Some(true));
    assert!(check_callback_issuer(&Some("https://auth.example".to_string()), &md).is_ok());
    assert!(matches!(
        check_callback_issuer(&Some("https://other.example".to_string()), &md),
        Err(Error::Callback(ref m)) if m == "issuer mismatch: expected https://auth.example, got https://other.example"
    ));
    assert!(matches!(check_callback_issuer(&None, &md), Err(Error::Callback(ref m)) if m == "missing `iss` parameter"));
    assert!(check_callback_issuer(&None, &metadata(true, None, None)).is_ok());
}

#[test]
fn callback_keeps_session_under_subject() {
    let mut c = client();
    let tokens = TokenSet {
        iss: "https://auth.example".to_string(),
        sub: "did:plc:alice".to_string(),
        aud: "https://pds.example".to_string(),
        scope: Some("atproto".to_string()),
        refresh_token: None,
        access_token: "at".to_string(),
        token_type: JwtTokenType::DPoP,
        expires_at: Some(100),
    };
    let t = c.finish_callback(key(), Ok(tokens)).ok().unwrap();
    assert_eq!(t.sub, "did:plc:alice");
    assert!(matches!(c.finish_callback(key(), Err(Error::Callback("exchange failed".to_string()))), Err(Error::Callback(ref m)) if m == "exchange failed"));
    let mut store: MemoryMapStore<String, Stage> = MemoryMapStore::default();
    store.set_stage("k".to_string(), Stage::Authorization(atrium::oauth::AuthorizationData {
        iss: "i".to_string(),
        dpop_key: key(),
        verifier: "v".to_string(),
    }));
    assert!(matches!(store.get_stage(&"k".to_string()), Some(Stage::Authorization(_))));
    store.del_stage(&"k".to_string());
    assert!(store.get_stage(&"k".to_string()).is_none());
}

#[test]
fn authorization_url_is_form_encoded() {
    let url = authorization_url(
        &"https://auth.example/oauth/authorize".to_string(),
        &"https://app.example/client-metadata.json".to_string(),
        "urn:ietf:params:oauth:request_uri:abc".to_string(),
    );
    assert_eq!(
        url,
        "https://auth.example/oauth/authorize?client_id=https%3A%2F%2Fapp.example%2Fclient-metadata.json&request_uri=urn%3Aietf%3Aparams%3Aoauth%3Arequest_uri%3Aabc"
    );
}

#[test]
fn start_authorization_uses_the_given_pair() {
    let mut c = client();
    let pair = ("challenge-x".to_string(), "verifier-x".to_string());
    let p = c
        .start_authorization("alice.test", options(None), &metadata(true, None, None), false, key(), "st".to_string(), Some(pair))
        .ok()
        .unwrap();
    assert_eq!(p.code_challenge, "challenge-x");
    assert!(p.login_hint.is_none());
    assert_eq!(c.pending_issuer(&Some("st".to_string())).as_deref(), Some("https://auth.example"));
    assert!(c.pending_issuer(&Some("other".to_string())).is_none());
    assert!(c.pending_issuer(&None).is_none());
    match c.callback(&CallbackParams { code: "c".to_string(), state: Some("st".to_string()), iss: None }) {
        Ok(data) => assert_eq!(data.verifier, "verifier-x"),
        Err(_) => panic!("callback refused"),
    }
}

#[test]
fn start_authorization_without_random_bytes() {
    let mut c = client();
    assert!(matches!(
        c.start_authorization("alice.test", options(None), &metadata(true, None, None), false, key(), "st".to_string(), None),
        Err(Error::Authorize(ref m)) if m == "no random bytes available"
    ));
    assert!(matches!(
        c.start_authorization("alice.test", options(None), &metadata(false, Some(true), None), false, key(), "st".to_string(), None),
        Err(Error::Authorize(ref m)) if m == "server requires PAR but no endpoint is available"
    ));
    assert!(matches!(
        c.start_authorization("alice.test", options(Some("https://evil.example")), &metadata(true, None, None), false, key(), "st".to_string(), None),
        Err(Error::Authorize(ref m)) if m == "invalid redirect_uri"
    ));
    assert!(c.pending_issuer(&Some("st".to_string())).is_none());
}

#[test]
fn accept_callback_checks_issuer_after_consuming_state() {
    let mut c = client();
    let _ = c.authorize("alice.test", options(None), &metadata(true, None, None), false, key(), "s1".to_string());
    let md = metadata(true, None, Some(true));
    assert!(matches!(
        c.accept_callback(&CallbackParams { code: "c".to_string(), state: Some("s1".to_string()), iss: Some("https://evil.example".to_string()) }, &md),
        Err(Error::Callback(ref m)) if m == "issuer mismatch: expected https://auth.example, got https://evil.example"
    ));
    assert!(c.pending_issuer(&Some("s1".to_string())).is_none());
    let _ = c.authorize("alice.test", options(None), &metadata(true, None, None), false, key(), "s2".to_string());
    assert!(matches!(
        c.accept_callback(&CallbackParams { code: "c".to_string(), state: Some("s2".to_string()), iss: None }, &md),
        Err(Error::Callback(ref m)) if m == "missing `iss` parameter"
    ));
    let _ = c.authorize("alice.test", options(None), &metadata(true, None, None), false, key(), "s3".to_string());
    let ok = c.accept_callback(&CallbackParams { code: "c".to_string(), state: Some("s3".to_string()), iss: Some("https://auth.example".to_string()) }, &md);
    assert!(matches!(ok, Ok(ref d) if d.iss == "https://auth.example"));
    assert!(matches!(
        c.accept_callback(&CallbackParams { code: "c".to_string(), state: Some("s3".to_string()), iss: None }, &md),
        Err(Error::Callback(ref m)) if m == "unknown authorization state: s3"
    ));
}

#[test]
fn form_encoding_of_special_characters() {
    let url = authorization_url(&"https://a.example/auth".to_string(), &"a b*é~".to_string(), "x/y".to_string());
    assert_eq!(url, "https://a.example/auth?client_id=a+b*%C3%A9%7E&request_uri=x%2Fy");
}
