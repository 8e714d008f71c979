//! Types of XRPC requests and responses: token types, headers, and errors.

use vstd::prelude::*;
use vstd::string::*;

verus! {

/// Supported token types which can be used for authentication.
pub enum JwtTokenType {
    Bearer,
    DPoP,
}

impl JwtTokenType {
    /// The name of the token type, as it stands in an `Authorization` header.
    pub open spec fn spec_text(&self) -> Seq<char> {
        match self {
            JwtTokenType::Bearer => seq!['B', 'e', 'a', 'r', 'e', 'r'],
            JwtTokenType::DPoP => seq!['D', 'P', 'o', 'P'],
        }
    }

    /// The name of the token type, as it stands in an `Authorization` header.
    pub fn to_string(&self) -> (r: String)
        ensures
            r@ == self.spec_text(),
    {
        proof {
            reveal_strlit("Bearer");
            reveal_strlit("DPoP");
        }
        match self {
            JwtTokenType::Bearer => String::from_str("Bearer"),
            JwtTokenType::DPoP => String::from_str("DPoP"),
        }
    }
}

/// HTTP headers which can be used in XRPC requests.
pub enum Header {
    ContentType,
    Authorization,
    AtprotoProxy,
    AtprotoAcceptLabelers,
}

impl Header {
    /// The name of the header.
    pub open spec fn spec_name(&self) -> Seq<char> {
        match self {
            Header::ContentType => "content-type"@,
            Header::Authorization => "authorization"@,
            Header::AtprotoProxy => "atproto-proxy"@,
            Header::AtprotoAcceptLabelers => "atproto-accept-labelers"@,
        }
    }

    /// The name of the header.
    pub fn as_str(&self) -> (r: &'static str)
        ensures
            r@ == self.spec_name(),
    {
        match self {
            Header::ContentType => "content-type",
            Header::Authorization => "authorization",
            Header::AtprotoProxy => "atproto-proxy",
            Header::AtprotoAcceptLabelers => "atproto-accept-labelers",
        }
    }
}

/// Whether `name` is a header name that `http::HeaderName::from_static` takes: lower-case
/// letters, digits and `-`, at least one and at most 65535.
pub open spec fn is_static_header_name(name: Seq<char>) -> bool {
    0 < name.len() <= 65535 && forall|i: int|
        0 <= i < name.len() ==> ('a' <= #[trigger] name[i] <= 'z' || '0' <= name[i] <= '9' || name[i]
            == '-')
}

/// The header name that `http::HeaderName::from_static` makes of `name`.
pub uninterp spec fn static_header_name(name: Seq<char>) -> http::HeaderName;

#[verifier::external_type_specification]
#[verifier::external_body]
pub struct ExHeaderName(http::HeaderName);

#[verifier::external_type_specification]
#[verifier::external_body]
pub struct ExMethod(http::Method);

/// `http::HeaderName::from_static`, which panics on names that are not lower-case tokens;
/// the contract names its result, which depends on `name` alone.
#[verifier::external_body]
fn header_name_from_static(name: &'static str) -> (r: http::HeaderName)
    requires
        is_static_header_name(name@),
    ensures
        r == static_header_name(name@),
{
    http::HeaderName::from_static(name)
}

impl Header {
    /// The HTTP header name.
    pub fn to_header_name(&self) -> (r: http::HeaderName)
        ensures
            r == static_header_name(self.spec_name()),
    {
        proof {
            reveal_strlit("content-type");
            reveal_strlit("authorization");
            reveal_strlit("atproto-proxy");
            reveal_strlit("atproto-accept-labelers");
        }
        header_name_from_static(self.as_str())
    }
}

/// A request which can be executed by an XRPC client.
pub struct XrpcRequest<P, I> {
    pub method: http::Method,
    pub nsid: String,
    pub parameters: Option<P>,
    pub input: Option<InputDataOrBytes<I>>,
    pub encoding: Option<String>,
}

/// The body of an error response that no schema describes.
pub struct ErrorResponseBody {
    pub error: Option<String>,
    pub message: Option<String>,
}

/// The kinds of error that an XRPC response can carry.
pub enum XrpcErrorKind<E> {
    Custom(E),
    Undefined(ErrorResponseBody),
}

/// An error response of an XRPC call.
pub struct XrpcError<E> {
    pub status: u16,
    pub error: Option<XrpcErrorKind<E>>,
}

/// What can go wrong in an XRPC call.
pub enum Error<E> {
    HttpRequest(String),
    HttpClient(String),
    SerdeJson(String),
    SerdeHtmlForm(String),
    UnexpectedResponseType,
    XrpcResponse(XrpcError<E>),
}

/// JSON data or raw bytes, as a request carries them.
pub enum InputDataOrBytes<T> {
    Data(T),
    Bytes(Vec<u8>),
}

/// JSON data or raw bytes, as a response carries them.
pub enum OutputDataOrBytes<T> {
    Data(T),
    Bytes(Vec<u8>),
}

/// The error name with which a server says that the access token has expired.
pub open spec fn expired_token_name() -> Seq<char> {
    "ExpiredToken"@
}

/// Whether a result is an undefined error response whose error name is `ExpiredToken`.
pub open spec fn spec_is_expired<O, E>(result: Result<OutputDataOrBytes<O>, Error<E>>) -> bool {
    match result {
        Err(Error::XrpcResponse(response)) => match response.error {
            Some(XrpcErrorKind::Undefined(body)) => match body.error {
                Some(name) => name@ == expired_token_name(),
                None => false,
            },
            _ => false,
        },
        _ => false,
    }
}

/// Whether `result` says that the access token has expired.
pub fn is_expired<O, E>(result: &Result<OutputDataOrBytes<O>, Error<E>>) -> (r: bool)
    ensures
        r == spec_is_expired(*result),
{
    if let Err(Error::XrpcResponse(response)) = result {
        if let Some(XrpcErrorKind::Undefined(body)) = &response.error {
            if let Some(name) = &body.error {
                let expired = String::from_str("ExpiredToken");
                return *name == expired;
            }
        }
    }
    false
}

} // verus!
