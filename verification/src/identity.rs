//! Identity resolution: DIDs through a PLC directory, handles through the well-known
//! path of their domain, and OAuth protected-resource metadata.

use std::sync::Arc;
use vstd::prelude::*;
use vstd::string::*;
use vstd::utf8::*;
use crate::types::{Did, DidDocument, did_too_long_message, invalid_did_message, is_did_syntax};

verus! {

/// What can go wrong while resolving.
pub enum ResolverError {
    DnsResolver(String),
    Http(String),
    HttpClient(String),
    HttpStatus(u16),
    SerdeJson(String),
    SerdeHtmlForm(String),
    Uri(String),
    NotFound,
}

/// Identities and documents that are not what they should be.
pub enum IdentityError {
    AtIdentifier(String),
    Did(String),
    DidDocument(String),
    ProtectedResourceMetadata(String),
    AuthorizationServerMetadata(String),
    UnsupportedDidMethod(Did),
}

/// What can go wrong in identity resolution.
pub enum Error {
    Identity(IdentityError),
    Resolver(ResolverError),
}

/// The URI that `http::uri::Builder` makes of the URI `base` with its path and query
/// replaced by `path_and_query`, where it makes one.
pub uninterp spec fn built_uri(base: Seq<char>, path_and_query: Seq<char>) -> Option<Seq<char>>;

/// Parses `base` as an `http::Uri` and replaces its path and query with `path_and_query`
/// through `http::uri::Builder`. The contract says that the result is the one that
/// `built_uri` names; what the URI grammar accepts, and the error messages, it leaves
/// unsaid.
#[verifier::external_body]
fn build_uri(base: &str, path_and_query: &str) -> (r: Result<String, ResolverError>)
    ensures
        match r {
            Ok(u) => built_uri(base@, path_and_query@) == Some(u@),
            Err(_) => built_uri(base@, path_and_query@) is None,
        },
{
    let uri = base.parse::<http::Uri>().map_err(|e| ResolverError::Uri(e.to_string()))?;
    let built = http::uri::Builder::from(uri).path_and_query(path_and_query).build();
    built.map(|u| u.to_string()).map_err(|e| ResolverError::Http(e.to_string()))
}

/// The text that `String::from_utf8_lossy` makes of `bytes`.
pub uninterp spec fn utf8_lossy(bytes: Seq<u8>) -> Seq<char>;

/// `String::from_utf8_lossy`: valid UTF-8 decodes as it is, and each invalid sequence
/// becomes U+FFFD; the contract names the result and states the valid case.
#[verifier::external_body]
fn from_utf8_lossy(bytes: &[u8]) -> (r: String)
    ensures
        r@ == utf8_lossy(bytes@),
        valid_utf8(bytes@) ==> r@ == decode_utf8(bytes@),
{
    String::from_utf8_lossy(bytes).into_owned()
}

/// Whether an HTTP status is a success (2xx).
pub open spec fn is_success(status: u16) -> bool {
    200 <= status <= 299
}

/// The default PLC directory.
pub const DEFAULT_PLC_DIRECTORY_URL: &'static str = "https://plc.directory/";

/// The configuration of a PLC directory resolver.
pub struct PlcDidResolverConfig<T> {
    pub plc_directory_url: String,
    pub http_client: Arc<T>,
}

/// Resolves DIDs through a PLC directory.
pub struct PlcDidResolver<T> {
    plc_directory_url: String,
    http_client: Arc<T>,
}

impl<T> PlcDidResolver<T> {
    /// The directory the resolver asks.
    pub closed spec fn directory(&self) -> Seq<char> {
        self.plc_directory_url@
    }

    /// The HTTP client the resolver sends with.
    pub closed spec fn client(&self) -> Arc<T> {
        self.http_client
    }

    /// A resolver that asks the directory of `config`.
    pub fn new(config: PlcDidResolverConfig<T>) -> (r: Self)
        ensures
            r.directory() == config.plc_directory_url@,
            r.client() == config.http_client,
    {
        PlcDidResolver { plc_directory_url: config.plc_directory_url, http_client: config.http_client }
    }

    /// The HTTP client the resolver sends with.
    pub fn http_client(&self) -> (r: &Arc<T>)
        ensures
            *r == self.client(),
    {
        &self.http_client
    }

    /// The URI at which the directory serves the document of `did`: the directory with
    /// path `/` followed by the DID.
    pub fn request_uri(&self, did: &Did) -> (r: Result<String, Error>)
        ensures
            match r {
                Ok(u) => built_uri(self.directory(), seq!['/'] + did@) == Some(u@),
                Err(e) => built_uri(self.directory(), seq!['/'] + did@) is None && e is Resolver,
            },
    {
        proof {
            reveal_strlit("/");
            assert("/"@ =~= seq!['/']);
        }
        let mut path = String::from_str("/");
        path.append(did.as_str());
        match build_uri(self.plc_directory_url.as_str(), path.as_str()) {
            Ok(u) => Ok(u),
            Err(e) => Err(Error::Resolver(e)),
        }
    }

    /// The outcome of resolving from the directory's answer: its status and its body
    /// read as a DID document.
    pub fn response(status: u16, document: Result<DidDocument, String>) -> (r: Result<Option<DidDocument>, Error>)
        ensures
            is_success(status) ==> match document {
                Ok(d) => r matches Ok(Some(x)) && x@ == d@,
                Err(m) => r matches Err(Error::Resolver(ResolverError::SerdeJson(x))) && x@ == m@,
            },
            !is_success(status) ==> (r matches Err(Error::Resolver(ResolverError::HttpStatus(s)))
                && s == status),
    {
        if 200 <= status && status <= 299 {
            match document {
                Ok(d) => Ok(Some(d)),
                Err(m) => Err(Error::Resolver(ResolverError::SerdeJson(m))),
            }
        } else {
            Err(Error::Resolver(ResolverError::HttpStatus(status)))
        }
    }
}

/// The path at which a domain names the DID of its handle.
pub open spec fn well_known_path() -> Seq<char> {
    "/.well-known/atproto-did"@
}

/// The configuration of a well-known handle resolver.
pub struct WellKnownHandleResolverConfig<T> {
    pub http_client: Arc<T>,
}

/// Resolves handles through the well-known path of their domain.
pub struct WellKnownHandleResolver<T> {
    http_client: Arc<T>,
}

impl<T> WellKnownHandleResolver<T> {
    /// The HTTP client the resolver sends with.
    pub closed spec fn client(&self) -> Arc<T> {
        self.http_client
    }

    /// A resolver that sends with the client of `config`.
    pub fn new(config: WellKnownHandleResolverConfig<T>) -> (r: Self)
        ensures
            r.client() == config.http_client,
    {
        WellKnownHandleResolver { http_client: config.http_client }
    }

    /// The HTTP client the resolver sends with.
    pub fn http_client(&self) -> (r: &Arc<T>)
        ensures
            *r == self.client(),
    {
        &self.http_client
    }

    /// The URL at which the domain of `handle` names its DID.
    pub fn request_url(handle: &str) -> (r: String)
        ensures
            r@ == "https://"@ + handle@ + well_known_path(),
    {
        let mut url = String::from_str("https://");
        url.append(handle);
        url.append("/.well-known/atproto-did");
        url
    }

    /// The outcome of resolving from the domain's answer: on success its body, read as
    /// text, must be a DID.
    pub fn response(status: u16, body: &[u8]) -> (r: Result<Option<Did>, Error>)
        ensures
            is_success(status) ==> match r {
                Ok(o) => o matches Some(d) && d@ == utf8_lossy(body@) && is_did_syntax(d@)
                    && encode_utf8(d@).len() <= crate::types::MAX_DID_BYTES,
                Err(e) => e matches Error::Identity(IdentityError::Did(m)) && if encode_utf8(
                    utf8_lossy(body@),
                ).len() > crate::types::MAX_DID_BYTES {
                    m@ == did_too_long_message()
                } else {
                    !is_did_syntax(utf8_lossy(body@)) && m@ == invalid_did_message()
                },
            },
            !is_success(status) ==> (r matches Err(Error::Resolver(ResolverError::HttpStatus(s)))
                && s == status),
            is_success(status) && valid_utf8(body@) ==> (r matches Ok(Some(d)) ==> d@ == decode_utf8(
                body@,
            )),
    {
        if 200 <= status && status <= 299 {
            let text = from_utf8_lossy(body);
            match Did::new(text) {
                Ok(d) => Ok(Some(d)),
                Err(m) => Err(Error::Identity(IdentityError::Did(m))),
            }
        } else {
            Err(Error::Resolver(ResolverError::HttpStatus(status)))
        }
    }
}

/// The metadata that an OAuth protected resource publishes.
pub struct OAuthProtectedResourceMetadata {
    pub resource: String,
    pub authorization_servers: Option<Vec<String>>,
}

/// The path at which a resource publishes its metadata.
pub open spec fn protected_resource_path() -> Seq<char> {
    "/.well-known/oauth-protected-resource"@
}

/// The message of metadata that names another resource.
pub open spec fn invalid_resource_message(resource: Seq<char>) -> Seq<char> {
    "invalid resource: "@ + resource
}

/// Resolves the metadata of OAuth protected resources.
pub struct DefaultOAuthProtectedResourceResolver<T> {
    http_client: Arc<T>,
}

impl<T> DefaultOAuthProtectedResourceResolver<T> {
    /// The HTTP client the resolver sends with.
    pub closed spec fn client(&self) -> Arc<T> {
        self.http_client
    }

    /// A resolver that sends with `http_client`.
    pub fn new(http_client: Arc<T>) -> (r: Self)
        ensures
            r.client() == http_client,
    {
        DefaultOAuthProtectedResourceResolver { http_client }
    }

    /// The HTTP client the resolver sends with.
    pub fn http_client(&self) -> (r: &Arc<T>)
        ensures
            *r == self.client(),
    {
        &self.http_client
    }

    /// The URI at which `resource` publishes its metadata.
    pub fn request_uri(resource: &str) -> (r: Result<String, Error>)
        ensures
            match r {
                Ok(u) => built_uri(resource@, protected_resource_path()) == Some(u@),
                Err(e) => built_uri(resource@, protected_resource_path()) is None && e is Resolver,
            },
    {
        match build_uri(resource, "/.well-known/oauth-protected-resource") {
            Ok(u) => Ok(u),
            Err(e) => Err(Error::Resolver(e)),
        }
    }

    /// The outcome of resolving `resource` from its answer: the status must be 200 and
    /// the metadata must name `resource` itself.
    pub fn response(
        resource: &String,
        status: u16,
        metadata: Result<OAuthProtectedResourceMetadata, String>,
    ) -> (r: Result<Option<OAuthProtectedResourceMetadata>, Error>)
        ensures
            status != 200 ==> (r matches Err(Error::Resolver(ResolverError::HttpStatus(s))) && s
                == status),
            status == 200 ==> match metadata {
                Err(m) => r matches Err(Error::Resolver(ResolverError::SerdeJson(x))) && x@ == m@,
                Ok(md) => if md.resource@ == resource@ {
                    r matches Ok(Some(x)) && x == md
                } else {
                    r matches Err(Error::Identity(IdentityError::ProtectedResourceMetadata(x))) && x@
                        == invalid_resource_message(md.resource@)
                },
            },
    {
        if status != 200 {
            return Err(Error::Resolver(ResolverError::HttpStatus(status)));
        }
        match metadata {
            Err(m) => Err(Error::Resolver(ResolverError::SerdeJson(m))),
            Ok(md) => {
                if md.resource == *resource {
                    Ok(Some(md))
                } else {
                    let mut msg = String::from_str("invalid resource: ");
                    msg.append(md.resource.as_str());
                    Err(Error::Identity(IdentityError::ProtectedResourceMetadata(msg)))
                }
            },
        }
    }
}

} // verus!
