use atrium::identity::{
    DefaultOAuthProtectedResourceResolver, Error, IdentityError, OAuthProtectedResourceMetadata,
    PlcDidResolver, PlcDidResolverConfig, ResolverError, WellKnownHandleResolver,
    WellKnownHandleResolverConfig, DEFAULT_PLC_DIRECTORY_URL,
};
use atrium::types::{Did, DidDocument};
use std::sync::Arc;

#[test]
fn plc_request_uri() {
    let r = PlcDidResolver::new(PlcDidResolverConfig {
        plc_directory_url: DEFAULT_PLC_DIRECTORY_URL.to_string(),
        http_client: Arc::new(()),
    });
    let did = Did::new("did:plc:z72i7hdynmk6r22z27h6tvur".to_string()).ok().unwrap();
    assert_eq!(r.request_uri(&did).ok().unwrap(), "https://plc.directory/did:plc:z72i7hdynmk6r22z27h6tvur");
    let bad = PlcDidResolver::new(PlcDidResolverConfig { plc_directory_url: "not a uri".to_string(), http_client: Arc::new(()) });
    assert!(matches!(bad.request_uri(&did), Err(Error::Resolver(ResolverError::Uri(_)))));
}

#[test]
fn plc_response_outcomes() {
    let doc = DidDocument { context: None, verification_method: None, id: "did:plc:abc".to_string(), also_known_as: None, service: None };
    assert!(matches!(PlcDidResolver::<()>::response(200, Ok(doc)), Ok(Some(ref d)) if d.id == "did:plc:abc"));
    assert!(matches!(PlcDidResolver::<()>::response(404, Err("x".to_string())), Err(Error::Resolver(ResolverError::HttpStatus(404)))));
    assert!(matches!(PlcDidResolver::<()>::response(299, Err("bad json".to_string())), Err(Error::Resolver(ResolverError::SerdeJson(ref m))) if m == "bad json"));
}

#[test]
fn well_known_url_and_response() {
    let _r = WellKnownHandleResolver::new(WellKnownHandleResolverConfig { http_client: Arc::new(()) });
    assert_eq!(WellKnownHandleResolver::<()>::request_url("alice.test"), "https://alice.test/.well-known/atproto-did");
    assert!(matches!(WellKnownHandleResolver::<()>::response(200, b"did:plc:abc"), Ok(Some(ref d)) if d.as_str() == "did:plc:abc"));
    assert!(matches!(WellKnownHandleResolver::<()>::response(200, b"not a did"), Err(Error::Identity(IdentityError::Did(ref m))) if m == "Invalid DID"));
    assert!(matches!(WellKnownHandleResolver::<()>::response(500, b"did:plc:abc"), Err(Error::Resolver(ResolverError::HttpStatus(500)))));
    assert!(matches!(WellKnownHandleResolver::<()>::response(200, b"did:plc:\xff"), Err(Error::Identity(IdentityError::Did(_)))));
}

#[test]
fn protected_resource_checks() {
    let _r = DefaultOAuthProtectedResourceResolver::new(Arc::new(()));
    assert_eq!(
        DefaultOAuthProtectedResourceResolver::<()>::request_uri("https://pds.example").ok().unwrap(),
        "https://pds.example/.well-known/oauth-protected-resource"
    );
    let resource = "https://pds.example".to_string();
    let good = OAuthProtectedResourceMetadata { resource: resource.clone(), authorization_servers: None };
    assert!(matches!(DefaultOAuthProtectedResourceResolver::<()>::response(&resource, 200, Ok(good)), Ok(Some(_))));
    let other = OAuthProtectedResourceMetadata { resource: "https://evil.example".to_string(), authorization_servers: None };
    assert!(matches!(
        DefaultOAuthProtectedResourceResolver::<()>::response(&resource, 200, Ok(other)),
        Err(Error::Identity(IdentityError::ProtectedResourceMetadata(ref m))) if m == "invalid resource: https://evil.example"
    ));
    assert!(matches!(
        DefaultOAuthProtectedResourceResolver::<()>::response(&resource, 201, Err("x".to_string())),
        Err(Error::Resolver(ResolverError::HttpStatus(201)))
    ));
}
