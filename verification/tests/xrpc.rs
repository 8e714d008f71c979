use atrium::xrpc::{
    is_expired, Error, ErrorResponseBody, Header, JwtTokenType, OutputDataOrBytes, XrpcError,
    XrpcErrorKind,
};

#[test]
fn token_type_names() {
    assert_eq!(JwtTokenType::Bearer.to_string(), "Bearer");
    assert_eq!(JwtTokenType::DPoP.to_string(), "DPoP");
}

#[test]
fn header_names() {
    assert_eq!(Header::ContentType.as_str(), "content-type");
    assert_eq!(Header::Authorization.as_str(), "authorization");
    assert_eq!(Header::AtprotoProxy.as_str(), "atproto-proxy");
    assert_eq!(Header::AtprotoAcceptLabelers.as_str(), "atproto-accept-labelers");
    assert_eq!(Header::ContentType.to_header_name(), http::header::CONTENT_TYPE);
    assert_eq!(Header::Authorization.to_header_name(), http::header::AUTHORIZATION);
    assert_eq!(Header::AtprotoProxy.to_header_name().as_str(), "atproto-proxy");
    assert_eq!(Header::AtprotoAcceptLabelers.to_header_name().as_str(), "atproto-accept-labelers");
}

fn undefined(name: Option<&str>) -> Result<OutputDataOrBytes<u8>, Error<u8>> {
    Err(Error::XrpcResponse(XrpcError {
        status: 400,
        error: Some(XrpcErrorKind::Undefined(ErrorResponseBody {
            error: name.map(String::from),
            message: None,
        })),
    }))
}

#[test]
fn expired_token_is_detected() {
    assert!(is_expired(&undefined(Some("ExpiredToken"))));
    assert!(!is_expired(&undefined(Some("InvalidToken"))));
    assert!(!is_expired(&undefined(None)));
    let ok: Result<OutputDataOrBytes<u8>, Error<u8>> = Ok(OutputDataOrBytes::Data(1));
    assert!(!is_expired(&ok));
    let custom: Result<OutputDataOrBytes<u8>, Error<u8>> =
        Err(Error::XrpcResponse(XrpcError { status: 400, error: Some(XrpcErrorKind::Custom(3)) }));
    assert!(!is_expired(&custom));
    let other: Result<OutputDataOrBytes<u8>, Error<u8>> = Err(Error::UnexpectedResponseType);
    assert!(!is_expired(&other));
}
