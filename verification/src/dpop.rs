//! DPoP: the proof-of-possession client that binds requests to a key, and the server
//! nonces that it keeps and retries with.

use std::sync::Arc;
use vstd::prelude::*;
use vstd::string::*;
use vstd::utf8::*;
use crate::crypto::{
    base64_url_no_pad, encode_base64_url, is_base64_url_char, lemma_base64_url_shape, sha256, sha256_digest,
    small_rng_bytes,
};
use crate::store::{MapStore, MemoryMapStore};
use crate::text::{contains, seq_contains, starts_with};

verus! {

/// What can go wrong in the DPoP client.
pub enum Error {
    JwkCrypto(String),
    UnsupportedKey,
    Nonces,
    SerdeJson(String),
}

/// The kinds of key that the DPoP client tells apart.
pub enum KeyKind {
    /// An elliptic-curve key on P-256.
    EcP256,
    /// Any other key.
    Other,
}

/// Tells a P-256 elliptic-curve `jose_jwk::Key` from any other key, by its variants.
#[verifier::external_body]
fn key_kind(key: &jose_jwk::Key) -> (r: KeyKind) {
    match key {
        jose_jwk::Key::Ec(ec) => match ec.crv {
            jose_jwk::EcCurves::P256 => KeyKind::EcP256,
            _ => KeyKind::Other,
        },
        _ => KeyKind::Other,
    }
}

/// The error body of an OAuth response: its `error` code.
pub struct ErrorResponse {
    pub error: String,
}

/// The JWT type of a DPoP proof.
pub const JWT_HEADER_TYP_DPOP: &'static str = "dpop+jwt";

/// The algorithm name of a P-256 key.
pub open spec fn es256() -> Seq<char> {
    "ES256"@
}

/// The parts of a response that the DPoP client reads: the status, the body where it
/// reads as an error response, and the `WWW-Authenticate` and `DPoP-Nonce` headers where
/// they are text.
pub struct ResponseParts {
    pub status: u16,
    pub error_response: Option<ErrorResponse>,
    pub www_authenticate: Option<String>,
    pub dpop_nonce: Option<String>,
}

/// What a request contributes to its DPoP proof.
pub struct DpopRequest {
    /// The authority of the URI, under which the server's nonce is kept.
    pub nonce_key: String,
    /// The method.
    pub htm: String,
    /// The URI.
    pub htu: String,
    /// Whether the request goes to an authorization server.
    pub is_auth_server: bool,
    /// The hash of the access token that the request carries, if it carries one.
    pub ath: Option<String>,
}

/// Whether a response asks for a retry with the nonce it carries: an authorization
/// server answers 400 with the error `use_dpop_nonce`; a resource server answers 401
/// with a `DPoP` challenge whose error is `use_dpop_nonce`.
pub open spec fn spec_is_use_dpop_nonce_error(response: ResponseParts, is_auth_server: bool) -> bool {
    ||| is_auth_server && response.status == 400 && (response.error_response matches Some(e)
        && e.error@ == "use_dpop_nonce"@)
    ||| !is_auth_server && response.status == 401 && (response.www_authenticate matches Some(w)
        && "DPoP"@.is_prefix_of(w@) && seq_contains(w@, "error=\"use_dpop_nonce\""@))
}

/// The hash of the access token in an `Authorization` header value, where the value is a
/// DPoP one.
pub open spec fn spec_ath(authorization: Option<Seq<char>>) -> Option<Seq<char>> {
    match authorization {
        Some(a) => if "DPoP "@.is_prefix_of(a) {
            Some(base64_url_no_pad(sha256_digest(encode_utf8(a.skip(5)))))
        } else {
            None
        },
        None => None,
    }
}

/// Checks that the server supports the algorithm of a key of kind `kind`.
#[verifier::loop_isolation(false)]
pub fn check_algorithm(kind: KeyKind, supported_algs: &Option<Vec<String>>) -> (r: Result<(), Error>)
    requires
        supported_algs is Some ==> kind is EcP256,
    ensures
        match supported_algs {
            Some(algs) => if crate::text::strings_view(algs@).contains(es256()) {
                r is Ok
            } else {
                r matches Err(Error::UnsupportedKey)
            },
            None => r is Ok,
        },
{
    if let Some(algs) = supported_algs {
        let alg = String::from_str("ES256");
        let mut i: usize = 0;
        while i < algs.len()
            invariant
                i <= algs@.len(),
                alg@ == es256(),
                forall|j: int| 0 <= j < i ==> algs@[j]@ != es256(),
            decreases algs@.len() - i,
        {
            if algs[i] == alg {
                assert(crate::text::strings_view(algs@)[i as int] == es256());
                assert(crate::text::strings_view(algs@).contains(es256()));
                return Ok(());
            }
            i = i + 1;
        }
        proof {
            if crate::text::strings_view(algs@).contains(es256()) {
                let j = choose|j: int| 0 <= j < crate::text::strings_view(algs@).len()
                    && crate::text::strings_view(algs@)[j] == es256();
                assert(algs@[j]@ == es256());
            }
        }
        return Err(Error::UnsupportedKey);
    }
    Ok(())
}

/// A key for DPoP proofs: the JWK, with its kind read once from its variants.
pub struct DpopKey {
    kind: KeyKind,
    jwk: jose_jwk::Key,
}

impl DpopKey {
    /// The kind of the key, as read from the JWK.
    pub closed spec fn kind(&self) -> KeyKind {
        self.kind
    }

    /// The JWK.
    pub closed spec fn jwk(&self) -> jose_jwk::Key {
        self.jwk
    }

    /// The key `jwk`, with its kind.
    pub fn from_jwk(jwk: jose_jwk::Key) -> (r: DpopKey)
        ensures
            r.jwk() == jwk,
    {
        let kind = key_kind(&jwk);
        DpopKey { kind, jwk }
    }

    /// Whether the key is a P-256 elliptic-curve one.
    pub fn is_p256(&self) -> (r: bool)
        ensures
            r == (self.kind() is EcP256),
    {
        match self.kind {
            KeyKind::EcP256 => true,
            KeyKind::Other => false,
        }
    }
}

/// A DPoP client: it sends through `T` with proofs made with its key, and keeps the
/// nonces that servers hand out in `S`.
pub struct DpopClient<T, S> {
    inner: Arc<T>,
    pub key: jose_jwk::Key,
    nonces: S,
}

impl<T> DpopClient<T, MemoryMapStore<String, String>> {
    /// A client with `key` for a server that supports `supported_algs`, with no nonce
    /// kept: where the server names its algorithms, the key must be a P-256 one, and the
    /// client is refused unless `ES256` is among them.
    pub fn new(key: DpopKey, http_client: Arc<T>, supported_algs: &Option<Vec<String>>) -> (r: Result<Self, Error>)
        requires
            supported_algs is Some ==> key.kind() is EcP256,
        ensures
            match supported_algs {
                Some(algs) => if crate::text::strings_view(algs@).contains(es256()) {
                    r is Ok
                } else {
                    r matches Err(Error::UnsupportedKey)
                },
                None => r is Ok,
            },
            r matches Ok(c) ==> c.dpop_key() == key.jwk() && c.client() == http_client && c.nonces().contents()
                == Map::<Seq<char>, String>::empty(),
    {
        match check_algorithm(key.kind, supported_algs) {
            Ok(()) => {},
            Err(e) => return Err(e),
        }
        Ok(DpopClient { inner: http_client, key: key.jwk, nonces: MemoryMapStore::default() })
    }
}

impl<T, S: MapStore<String, String>> DpopClient<T, S> {
    /// The HTTP client the proofs go out with.
    pub closed spec fn client(&self) -> Arc<T> {
        self.inner
    }

    /// The key the proofs are made with.
    pub closed spec fn dpop_key(&self) -> jose_jwk::Key {
        self.key
    }

    /// The nonces kept.
    pub closed spec fn nonces(&self) -> S {
        self.nonces
    }

    /// The HTTP client the proofs go out with.
    pub fn http_client(&self) -> (r: &Arc<T>)
        ensures
            *r == self.client(),
    {
        &self.inner
    }

    /// What a request with `method`, `uri`, `authority`, `path` and `Authorization`
    /// header `authorization` contributes to its proof.
    pub fn prepare(method: &str, uri: &str, authority: &str, path: &str, authorization: Option<&str>) -> (r: DpopRequest)
        ensures
            r.nonce_key@ == authority@,
            r.htm@ == method@,
            r.htu@ == uri@,
            r.is_auth_server == "/oauth"@.is_prefix_of(path@),
            opt_string(r.ath) == spec_ath(opt_str_slice(authorization)),
    {
        let is_auth_server = starts_with(path, "/oauth");
        let ath = match authorization {
            Some(a) => if starts_with(a, "DPoP ") {
                proof {
                    reveal_strlit("DPoP ");
                }
                let rest = a.substring_char(5, a.unicode_len());
                let digest = sha256(rest.as_bytes());
                Some(encode_base64_url(digest.as_slice()))
            } else {
                None
            },
            None => None,
        };
        DpopRequest {
            nonce_key: String::from_str(authority),
            htm: String::from_str(method),
            htu: String::from_str(uri),
            is_auth_server,
            ath,
        }
    }

    /// The nonce kept for the server of `request`, if any.
    pub fn init_nonce(&self, request: &DpopRequest) -> (r: Result<Option<String>, Error>)
        ensures
            self.nonces().infallible() ==> r is Ok,
            r matches Ok(o) ==> opt_string(o) == if self.nonces().contents().contains_key(
                request.nonce_key@,
            ) {
                Some(self.nonces().contents()[request.nonce_key@]@)
            } else {
                None
            },
    {
        match self.nonces.get(&request.nonce_key) {
            Ok(o) => Ok(o),
            Err(_) => Err(Error::Nonces),
        }
    }

    /// Whether `response` asks for a retry with the nonce it carries.
    pub fn is_use_dpop_nonce_error(&self, response: &ResponseParts, is_auth_server: bool) -> (r: bool)
        ensures
            r == spec_is_use_dpop_nonce_error(*response, is_auth_server),
    {
        if is_auth_server && response.status == 400 {
            if let Some(e) = &response.error_response {
                let expected = String::from_str("use_dpop_nonce");
                return e.error == expected;
            }
        }
        if !is_auth_server && response.status == 401 {
            if let Some(w) = &response.www_authenticate {
                return starts_with(w.as_str(), "DPoP") && contains(
                    w.as_str(),
                    "error=\"use_dpop_nonce\"",
                );
            }
        }
        false
    }

    /// Takes in the answer to a request that went out with `init_nonce`: a new nonce is
    /// kept for the server, and where the answer asks for it the result is the nonce to
    /// retry with; else the answer stands.
    pub fn after_response(&mut self, request: &DpopRequest, init_nonce: &Option<String>, response: &ResponseParts) -> (r: Result<Option<String>, Error>)
        ensures
            old(self).nonces().infallible() ==> r is Ok,
            final(self).nonces().infallible() == old(self).nonces().infallible(),
            match response.dpop_nonce {
                Some(n) if opt_string(Some(n)) != opt_string(*init_nonce) => r is Ok ==> {
                    &&& final(self).nonces().contents() == old(self).nonces().contents().insert(
                        request.nonce_key@,
                        n,
                    )
                    &&& if spec_is_use_dpop_nonce_error(*response, request.is_auth_server) {
                        r matches Ok(Some(x)) && x@ == n@
                    } else {
                        r matches Ok(None)
                    }
                },
                _ => r matches Ok(None) && final(self).nonces() == old(self).nonces(),
            },
    {
        match &response.dpop_nonce {
            Some(n) => {
                let fresh = match init_nonce {
                    Some(i) => *n != *i,
                    None => true,
                };
                if !fresh {
                    return Ok(None);
                }
                match self.nonces.set(request.nonce_key.clone(), n.clone()) {
                    Ok(()) => {},
                    Err(_) => return Err(Error::Nonces),
                }
                if !self.is_use_dpop_nonce_error(response, request.is_auth_server) {
                    return Ok(None);
                }
                Ok(Some(n.clone()))
            },
            None => Ok(None),
        }
    }

    /// A fresh JWT ID: the base64 of 12 random bytes, so 16 characters of the URL-safe
    /// alphabet; `None` where the generator cannot be seeded.
    pub fn generate_jti() -> (r: Option<String>)
        ensures
            r matches Some(j) ==> {
                &&& exists|bytes: Seq<u8>| bytes.len() == 12 && j@ == base64_url_no_pad(bytes)
                &&& j@.len() == 16
                &&& forall|i: int| 0 <= i < j@.len() ==> is_base64_url_char(#[trigger] j@[i])
            },
    {
        match small_rng_bytes(12) {
            Some(bytes) => {
                proof {
                    lemma_base64_url_shape(bytes@);
                }
                Some(encode_base64_url(bytes.as_slice()))
            },
            None => None,
        }
    }
}

/// The view of an optional string.
pub open spec fn opt_string(o: Option<String>) -> Option<Seq<char>> {
    match o {
        Some(s) => Some(s@),
        None => None,
    }
}

/// The view of an optional string slice.
pub open spec fn opt_str_slice(o: Option<&str>) -> Option<Seq<char>> {
    match o {
        Some(s) => Some(s@),
        None => None,
    }
}

} // verus!
