use atrium::agent::{
    labelers_header_values, proxy_header_value, Client, CreateAccountOutput, CredentialSession,
    GetSessionOutput, RefreshSessionOutput, RefreshStart, Session, Store, WrapperClient,
};
use atrium::store::MemoryCellStore;
use atrium::types::{Did, DidDocument, Service};

fn did(s: &str) -> Did {
    Did::new(s.to_string()).ok().unwrap()
}

fn doc_with_pds(id: &str, endpoint: &str) -> DidDocument {
    DidDocument {
        context: None,
        verification_method: None,
        id: id.to_string(),
        also_known_as: None,
        service: Some(vec![Service {
            id: "#atproto_pds".to_string(),
            type_: "AtprotoPersonalDataServer".to_string(),
            service_endpoint: endpoint.to_string(),
        }]),
    }
}

fn session(access: &str, refresh: &str) -> Session {
    Session {
        access_jwt: access.to_string(),
        active: Some(true),
        did: did("did:plc:alice"),
        did_doc: None,
        email: Some("alice@example.com".to_string()),
        email_auth_factor: Some(false),
        email_confirmed: Some(true),
        handle: "alice.test".to_string(),
        refresh_jwt: refresh.to_string(),
        status: None,
    }
}

fn store() -> Store<MemoryCellStore<Session>> {
    Store::new(MemoryCellStore::default(), "https://bsky.social".to_string())
}

#[test]
fn store_session_round_trip() {
    let mut s = store();
    assert!(s.get_session().is_none());
    s.set_session(session("a1", "r1"));
    assert_eq!(s.get_session().unwrap().access_jwt, "a1");
    s.clear_session();
    assert!(s.get_session().is_none());
}

#[test]
fn store_follows_pds_of_did_document() {
    let mut s = store();
    assert_eq!(s.get_endpoint(), "https://bsky.social");
    s.update_endpoint(&DidDocument { context: None, verification_method: None, id: "did:plc:alice".to_string(), also_known_as: None, service: None });
    assert_eq!(s.get_endpoint(), "https://bsky.social");
    s.update_endpoint(&doc_with_pds("did:plc:alice", "https://pds.example"));
    assert_eq!(s.get_endpoint(), "https://pds.example");
}

#[test]
fn proxy_header_joins_did_and_service() {
    assert_eq!(proxy_header_value(&did("did:web:labeler.test"), "atproto_labeler"), "did:web:labeler.test#atproto_labeler");
}

#[test]
fn labelers_header_marks_redaction() {
    let v = labelers_header_values(&vec![(did("did:plc:one"), false), (did("did:plc:two"), true)]);
    assert_eq!(v, vec!["did:plc:one".to_string(), "did:plc:two;redact".to_string()]);
    assert!(labelers_header_values(&vec![]).is_empty());
}

#[test]
fn wrapper_client_headers_and_tokens() {
    let mut w = WrapperClient::new(store());
    assert!(w.atproto_proxy_header().is_none());
    assert!(w.atproto_accept_labelers_header().is_none());
    assert!(w.authentication_token(false).is_none());
    w.configure_proxy_header("did:web:x#svc".to_string());
    assert_eq!(w.atproto_proxy_header().as_deref(), Some("did:web:x#svc"));
    w.configure_labelers_header(Some(vec![(did("did:plc:l"), true)]));
    assert_eq!(w.atproto_accept_labelers_header(), Some(vec!["did:plc:l;redact".to_string()]));
    w.configure_labelers_header(None);
    assert!(w.atproto_accept_labelers_header().is_none());
    assert_eq!(w.base_uri(), "https://bsky.social");
}

#[test]
fn client_refreshes_one_at_a_time() {
    let mut s = store();
    s.set_session(session("old-access", "old-refresh"));
    let mut c = Client::new(s);
    assert!(matches!(c.begin_refresh(), RefreshStart::Refresh));
    assert!(matches!(c.begin_refresh(), RefreshStart::Wait));
    c.finish_refresh(Some(RefreshSessionOutput {
        access_jwt: "new-access".to_string(),
        active: None,
        did: did("did:plc:alice"),
        did_doc: Some(doc_with_pds("did:plc:alice", "https://moved.example")),
        handle: "alice2.test".to_string(),
        refresh_jwt: "new-refresh".to_string(),
        status: None,
    }));
    assert!(matches!(c.begin_refresh(), RefreshStart::Refresh));
    assert_eq!(c.base_uri(), "https://moved.example");
    c.finish_refresh(None);
    assert!(matches!(c.begin_refresh(), RefreshStart::Refresh));
}

#[test]
fn client_refresh_updates_tokens_and_keeps_profile() {
    let mut s = store();
    s.set_session(session("old-access", "old-refresh"));
    let mut c = Client::new(s);
    let _ = c.begin_refresh();
    c.finish_refresh(Some(RefreshSessionOutput {
        access_jwt: "new-access".to_string(),
        active: Some(false),
        did: did("did:plc:alice"),
        did_doc: None,
        handle: "alice2.test".to_string(),
        refresh_jwt: "new-refresh".to_string(),
        status: None,
    }));
    let w = c.get_proxy_header();
    assert!(w.is_none());
    c.configure_proxy_header(&did("did:web:svc.test"), "bsky_appview");
    assert_eq!(c.get_proxy_header().as_deref(), Some("did:web:svc.test#bsky_appview"));
    c.configure_endpoint("https://other.example".to_string());
    assert_eq!(c.base_uri(), "https://other.example");
}

#[test]
fn failed_refresh_drops_session() {
    let mut s = store();
    s.set_session(session("a", "r"));
    let mut c = Client::new(s);
    let _ = c.begin_refresh();
    c.finish_refresh(None);
    c.configure_labelers_header(Some(vec![(did("did:plc:x"), false)]));
    assert_eq!(c.get_labelers_header(), Some(vec!["did:plc:x".to_string()]));
}

#[test]
fn credential_session_login_and_logout() {
    let mut agent = CredentialSession::new("https://bsky.social".to_string(), MemoryCellStore::default());
    assert!(agent.get_did().is_none());
    let mut s = session("a", "r");
    s.did_doc = Some(doc_with_pds("did:plc:alice", "https://pds.alice.example"));
    let out = agent.login(s);
    assert_eq!(out.access_jwt, "a");
    assert_eq!(agent.get_did().unwrap().as_str(), "did:plc:alice");
    assert_eq!(agent.get_endpoint(), "https://pds.alice.example");
    agent.logout();
    assert!(agent.get_did().is_none());
    assert_eq!(agent.get_endpoint(), "https://pds.alice.example");
}

#[test]
fn credential_session_create_account() {
    let mut agent = CredentialSession::new("https://bsky.social".to_string(), MemoryCellStore::default());
    agent.create_account(
        Some("bob@example.com".to_string()),
        CreateAccountOutput {
            access_jwt: "a".to_string(),
            did: did("did:plc:bob"),
            did_doc: None,
            handle: "bob.test".to_string(),
            refresh_jwt: "r".to_string(),
        },
    );
    assert_eq!(agent.get_did().unwrap().as_str(), "did:plc:bob");
    assert_eq!(agent.get_endpoint(), "https://bsky.social");
}

#[test]
fn credential_session_resume() {
    let mut agent = CredentialSession::new("https://bsky.social".to_string(), MemoryCellStore::default());
    agent.resume_session(session("a", "r"));
    let ok: Result<(), String> = agent.finish_resume_session(Ok(GetSessionOutput {
        active: Some(true),
        did: did("did:plc:alice"),
        did_doc: Some(doc_with_pds("did:plc:alice", "https://resumed.example")),
        email: None,
        email_auth_factor: None,
        email_confirmed: None,
        handle: "alice-new.test".to_string(),
        status: None,
    }));
    assert!(ok.is_ok());
    assert_eq!(agent.get_endpoint(), "https://resumed.example");
    assert_eq!(agent.get_did().unwrap().as_str(), "did:plc:alice");
    let err: Result<(), String> = agent.finish_resume_session(Err("expired".to_string()));
    assert_eq!(err, Err("expired".to_string()));
    assert!(agent.get_did().is_none());
}

#[test]
fn following_a_did_document_twice_changes_nothing_more() {
    let mut s = store();
    let doc = doc_with_pds("did:plc:alice", "https://pds.example");
    s.update_endpoint(&doc);
    let once = s.get_endpoint();
    s.update_endpoint(&doc);
    assert_eq!(s.get_endpoint(), once);
}

#[test]
fn proxy_header_splits_back_into_did_and_service() {
    let value = proxy_header_value(&did("did:web:api.example.com:u:1"), "bsky_fg#x");
    let (d, service) = value.split_once('#').unwrap();
    assert_eq!(d, "did:web:api.example.com:u:1");
    assert_eq!(service, "bsky_fg#x");
}
