use atrium::types::{VerificationMethod, check_did_syntax, Did, DidDocument, Service};

#[test]
fn did_accepts_plc_and_web_dids() {
    let d = Did::new("did:plc:z72i7hdynmk6r22z27h6tvur".to_string()).ok().unwrap();
    assert_eq!(d.as_str(), "did:plc:z72i7hdynmk6r22z27h6tvur");
    assert!(Did::new("did:web:example.com".to_string()).is_ok());
    assert!(Did::new("did:method:val:two".to_string()).is_ok());
    assert!(Did::new("did:m:v".to_string()).is_ok());
}

#[test]
fn did_rejects_bad_shapes() {
    for bad in [
        "", "did", "did:", "did:plc", "did:plc:", "did::abc", "DID:plc:abc", "did:PLC:abc",
        "did:plc:abc:", "did:plc:abc%", "did:plc:a b", "did:plc:é", "xid:plc:abc",
    ] {
        assert!(!check_did_syntax(bad), "{bad}");
        match Did::new(bad.to_string()) {
            Err(m) => assert_eq!(m, "Invalid DID"),
            Ok(_) => panic!("accepted {bad}"),
        }
    }
}

#[test]
fn did_rejects_long_text() {
    let long = format!("did:plc:{}", "a".repeat(2041));
    assert_eq!(long.len(), 2049);
    assert!(matches!(Did::new(long), Err(ref m) if m == "DID too long"));
    let max = format!("did:plc:{}", "a".repeat(2040));
    assert!(Did::new(max).is_ok());
}

fn service(id: &str, ty: &str, endpoint: &str) -> Service {
    Service { id: id.to_string(), type_: ty.to_string(), service_endpoint: endpoint.to_string() }
}

#[test]
fn pds_endpoint_by_fragment_or_full_id() {
    let doc = DidDocument {
        context: None,
        verification_method: None,
        id: "did:plc:abc".to_string(),
        also_known_as: None,
        service: Some(vec![
            service("#other", "AtprotoPersonalDataServer", "https://wrong.example"),
            service("#atproto_pds", "Other", "https://wrong2.example"),
            service("#atproto_pds", "AtprotoPersonalDataServer", "https://pds.example"),
        ]),
    };
    assert_eq!(doc.get_pds_endpoint().as_deref(), Some("https://pds.example"));
    let full = DidDocument {
        context: None,
        verification_method: None,
        id: "did:plc:abc".to_string(),
        also_known_as: Some(vec!["at://alice.test".to_string()]),
        service: Some(vec![service(
            "did:plc:abc#atproto_pds",
            "AtprotoPersonalDataServer",
            "https://full.example",
        )]),
    };
    assert_eq!(full.get_pds_endpoint().as_deref(), Some("https://full.example"));
    let none = DidDocument { context: None, verification_method: None, id: "did:plc:abc".to_string(), also_known_as: None, service: None };
    assert_eq!(none.get_pds_endpoint(), None);
    let empty = DidDocument { context: None, verification_method: None, id: "did:plc:abc".to_string(), also_known_as: None, service: Some(vec![]) };
    assert_eq!(empty.get_pds_endpoint(), None);
}

#[test]
fn first_matching_service_wins() {
    let doc = DidDocument {
        context: None,
        verification_method: None,
        id: "did:plc:abc".to_string(),
        also_known_as: None,
        service: Some(vec![
            service("#atproto_pds", "AtprotoPersonalDataServer", "https://first.example"),
            service("#atproto_pds", "AtprotoPersonalDataServer", "https://second.example"),
        ]),
    };
    assert_eq!(doc.get_pds_endpoint().as_deref(), Some("https://first.example"));
    assert_eq!(
        doc.get_service_endpoint("#atproto_pds", "AtprotoPersonalDataServer").as_deref(),
        Some("https://first.example")
    );
}

#[test]
fn document_clone_keeps_every_field() {
    let doc = DidDocument {
        context: Some(vec!["https://www.w3.org/ns/did/v1".to_string()]),
        id: "did:plc:abc".to_string(),
        also_known_as: Some(vec!["at://alice.test".to_string()]),
        verification_method: Some(vec![VerificationMethod {
            id: "did:plc:abc#atproto".to_string(),
            type_: "Multikey".to_string(),
            controller: "did:plc:abc".to_string(),
            public_key_multibase: Some("zQ3sh".to_string()),
        }]),
        service: None,
    };
    let copy = doc.clone();
    assert_eq!(copy.context, doc.context);
    assert_eq!(copy.also_known_as, doc.also_known_as);
    let m = &copy.verification_method.as_ref().unwrap()[0];
    assert_eq!(m.id, "did:plc:abc#atproto");
    assert_eq!(m.type_, "Multikey");
    assert_eq!(m.controller, "did:plc:abc");
    assert_eq!(m.public_key_multibase.as_deref(), Some("zQ3sh"));
}
