//! The OAuth client: its stored stages, the authorization request it builds, and the
//! checks of the callback that ends an authorization.

use std::sync::Arc;
use vstd::prelude::*;
use vstd::string::*;
use vstd::utf8::*;
use crate::crypto::{
    base64_url_no_pad, encode_base64_url, is_base64_url_char, is_os_random_draw, lemma_base64_url_shape, lemma_os_random_draw, os_rng_bytes, sha256,
    sha256_digest,
};
use crate::store::{CellStore, MapStore};
use crate::text::{join, seq_join, strings_view};
use crate::xrpc::JwtTokenType;

verus! {

#[verifier::external_type_specification]
#[verifier::external_body]
pub struct ExKey(jose_jwk::Key);

/// The `Clone` that `jose_jwk::Key` derives: every part of the key is copied, so the
/// copy equals the key it was made from.
pub assume_specification[ <jose_jwk::Key as Clone>::clone ](key: &jose_jwk::Key) -> (r: jose_jwk::Key)
    ensures
        r == *key,
;

/// Values whose validity ends at a time.
pub trait Expired {
    /// When the value stops being valid, in nanoseconds since the Unix epoch (negative
    /// before it); `None` for never.
    spec fn spec_expires_at(&self) -> Option<i128>;

    /// When the value stops being valid, in nanoseconds since the Unix epoch (negative
    /// before it); `None` for never.
    fn expires_at(&self) -> (r: Option<i128>)
        ensures
            r == self.spec_expires_at(),
    ;
}

/// The tokens that an authorization server issued.
pub struct TokenSet {
    pub iss: String,
    pub sub: String,
    pub aud: String,
    pub scope: Option<String>,
    pub refresh_token: Option<String>,
    pub access_token: String,
    pub token_type: JwtTokenType,
    pub expires_at: Option<i128>,
}

impl Expired for TokenSet {
    open spec fn spec_expires_at(&self) -> Option<i128> {
        self.expires_at
    }

    fn expires_at(&self) -> (r: Option<i128>) {
        self.expires_at
    }
}

fn copy_opt_string(o: &Option<String>) -> (r: Option<String>)
    ensures
        r == *o,
{
    match o {
        Some(s) => Some(s.clone()),
        None => None,
    }
}

impl Clone for TokenSet {
    fn clone(&self) -> (r: Self)
        ensures
            r == *self,
    {
        TokenSet {
            iss: self.iss.clone(),
            sub: self.sub.clone(),
            aud: self.aud.clone(),
            scope: copy_opt_string(&self.scope),
            refresh_token: copy_opt_string(&self.refresh_token),
            access_token: self.access_token.clone(),
            token_type: match self.token_type {
                JwtTokenType::Bearer => JwtTokenType::Bearer,
                JwtTokenType::DPoP => JwtTokenType::DPoP,
            },
            expires_at: self.expires_at,
        }
    }
}

/// What an authorization in progress keeps: the issuer, the DPoP key, and the PKCE
/// verifier.
pub struct AuthorizationData {
    pub iss: String,
    pub dpop_key: jose_jwk::Key,
    pub verifier: String,
}

/// What an established session keeps: the DPoP key and the tokens.
pub struct SessionData {
    pub dpop_key: jose_jwk::Key,
    pub token_set: TokenSet,
}

/// A stage of the OAuth flow, as a store keeps it.
pub enum Stage {
    Authorization(AuthorizationData),
    Session(SessionData),
}

impl From<AuthorizationData> for Stage {
    fn from(authorization_data: AuthorizationData) -> (r: Self) {
        Stage::Authorization(authorization_data)
    }
}

impl vstd::std_specs::convert::FromSpecImpl<AuthorizationData> for Stage {
    open spec fn obeys_from_spec() -> bool {
        true
    }

    open spec fn from_spec(v: AuthorizationData) -> Self {
        Stage::Authorization(v)
    }
}

impl From<SessionData> for Stage {
    fn from(session_data: SessionData) -> (r: Self) {
        Stage::Session(session_data)
    }
}

impl vstd::std_specs::convert::FromSpecImpl<SessionData> for Stage {
    open spec fn obeys_from_spec() -> bool {
        true
    }

    open spec fn from_spec(v: SessionData) -> Self {
        Stage::Session(v)
    }
}

impl Clone for AuthorizationData {
    fn clone(&self) -> (r: Self)
        ensures
            r == *self,
    {
        AuthorizationData {
            iss: self.iss.clone(),
            dpop_key: self.dpop_key.clone(),
            verifier: self.verifier.clone(),
        }
    }
}

impl Clone for SessionData {
    fn clone(&self) -> (r: Self)
        ensures
            r == *self,
    {
        SessionData { dpop_key: self.dpop_key.clone(), token_set: self.token_set.clone() }
    }
}

impl Clone for Stage {
    fn clone(&self) -> (r: Self)
        ensures
            r == *self,
    {
        match self {
            Stage::Authorization(a) => Stage::Authorization(a.clone()),
            Stage::Session(s) => Stage::Session(s.clone()),
        }
    }
}

/// A session of the OAuth flow: the DPoP key and the tokens.
pub struct Session {
    dpop_key: jose_jwk::Key,
    token_set: TokenSet,
}

impl Session {
    /// The DPoP key.
    pub closed spec fn spec_dpop_key(&self) -> jose_jwk::Key {
        self.dpop_key
    }

    /// The tokens.
    pub closed spec fn spec_token_set(&self) -> TokenSet {
        self.token_set
    }

    /// A session of `dpop_key` and `token_set`.
    pub fn new(dpop_key: jose_jwk::Key, token_set: TokenSet) -> (r: Self)
        ensures
            r.spec_dpop_key() == dpop_key,
            r.spec_token_set() == token_set,
    {
        Session { dpop_key, token_set }
    }
}

/// A store of tokens by DID.
pub trait SessionStore: crate::store::SimpleStore<crate::types::Did, TokenSet> {}

/// A stage store keyed by text, such as the authorization state or the subject.
pub trait AtpStageMapStore: MapStore<String, Stage> {
    /// The stage stored under `key`, if any.
    fn get_stage(&self, key: &String) -> (r: Option<Stage>)
        requires
            self.infallible(),
        ensures
            match r {
                Some(s) => self.contents().contains_key(key@) && self.contents()[key@] == s,
                None => !self.contents().contains_key(key@),
            },
    ;

    /// Stores `stage` under `key`.
    fn set_stage(&mut self, key: String, stage: Stage)
        requires
            old(self).infallible(),
        ensures
            final(self).infallible(),
            final(self).contents() == old(self).contents().insert(key@, stage),
    ;

    /// Removes the stage stored under `key`.
    fn del_stage(&mut self, key: &String)
        requires
            old(self).infallible(),
        ensures
            final(self).infallible(),
            final(self).contents() == old(self).contents().remove(key@),
    ;
}

impl<T: MapStore<String, Stage>> AtpStageMapStore for T {
    fn get_stage(&self, key: &String) -> (r: Option<Stage>) {
        match self.get(key) {
            Ok(o) => o,
            Err(_) => None,
        }
    }

    fn set_stage(&mut self, key: String, stage: Stage) {
        let _ = self.set(key, stage);
    }

    fn del_stage(&mut self, key: &String) {
        let _ = self.del(key);
    }
}

/// A store of one stage, such as the session of one user.
pub trait AtpStageCellStore: CellStore<Stage> {
    /// The stage held, if any.
    fn get_stage(&self) -> (r: Option<Stage>)
        requires
            self.infallible(),
        ensures
            match r {
                Some(s) => self.cell() == Some(s),
                None => self.cell() is None,
            },
    ;

    /// Holds `stage`.
    fn set_stage(&mut self, stage: Stage)
        requires
            old(self).infallible(),
        ensures
            final(self).infallible(),
            final(self).cell() == Some(stage),
    ;

    /// Empties the store.
    fn del_stage(&mut self)
        requires
            old(self).infallible(),
        ensures
            final(self).infallible(),
            final(self).cell() is None,
    ;
}

impl<T: CellStore<Stage>> AtpStageCellStore for T {
    fn get_stage(&self) -> (r: Option<Stage>) {
        match self.get() {
            Ok(o) => o,
            Err(_) => None,
        }
    }

    fn set_stage(&mut self, stage: Stage) {
        let _ = self.set(stage);
    }

    fn del_stage(&mut self) {
        let _ = self.clear();
    }
}

/// What the client publishes about itself.
pub struct OAuthClientMetadata {
    pub client_id: String,
    pub redirect_uris: Vec<String>,
}

/// What an authorization server publishes about itself.
pub struct OAuthAuthorizationServerMetadata {
    pub issuer: String,
    pub authorization_endpoint: String,
    pub token_endpoint: String,
    pub pushed_authorization_request_endpoint: Option<String>,
    pub require_pushed_authorization_requests: Option<bool>,
    pub authorization_response_iss_parameter_supported: Option<bool>,
    pub dpop_signing_alg_values_supported: Option<Vec<String>>,
}

/// What the caller asks of an authorization.
pub struct AuthorizeOptions {
    pub redirect_uri: Option<String>,
    pub scopes: Option<Vec<String>>,
    pub prompt: Option<String>,
}

/// The response type asked for.
pub enum AuthorizationResponseType {
    Code,
}

/// The PKCE method.
pub enum AuthorizationCodeChallengeMethod {
    S256,
}

/// The parameters of a pushed authorization request.
pub struct PushedAuthorizationRequestParameters {
    pub response_type: AuthorizationResponseType,
    pub redirect_uri: String,
    pub state: String,
    pub scope: Option<String>,
    pub response_mode: Option<String>,
    pub code_challenge: String,
    pub code_challenge_method: AuthorizationCodeChallengeMethod,
    pub login_hint: Option<String>,
    pub prompt: Option<String>,
}

/// The parameters that the authorization server redirects back with.
pub struct CallbackParams {
    pub code: String,
    pub state: Option<String>,
    pub iss: Option<String>,
}

/// What can go wrong in the OAuth flow.
pub enum Error {
    Authorize(String),
    Callback(String),
    Identity(crate::identity::Error),
}

/// Whether the form encoding keeps the byte `b` as it is: `*`, `-`, `.`, `_`, digits and
/// ASCII letters.
pub open spec fn form_unchanged(b: u8) -> bool {
    ||| b == 42
    ||| b == 45
    ||| b == 46
    ||| 48 <= b <= 57
    ||| 65 <= b <= 90
    ||| b == 95
    ||| 97 <= b <= 122
}

/// The upper-case hexadecimal digit for `v` (0 to 15).
pub open spec fn upper_hex_digit(v: int) -> char {
    if v < 10 {
        (v + 48) as char
    } else {
        (v - 10 + 65) as char
    }
}

/// The form encoding of one byte: kept as it is, a space as `+`, any other byte as `%`
/// and two upper-case hexadecimal digits.
pub open spec fn form_byte(b: u8) -> Seq<char> {
    if form_unchanged(b) {
        seq![b as char]
    } else if b == 32 {
        seq!['+']
    } else {
        seq!['%', upper_hex_digit(b as int / 16), upper_hex_digit(b as int % 16)]
    }
}

/// The form encoding of `bytes`, byte by byte.
pub open spec fn form_bytes(bytes: Seq<u8>) -> Seq<char>
    decreases bytes.len(),
{
    if bytes.len() == 0 {
        Seq::empty()
    } else {
        form_byte(bytes[0]) + form_bytes(bytes.drop_first())
    }
}

/// One pair of a form: the encoded UTF-8 of its name, `=`, and the encoded UTF-8 of its
/// value.
pub open spec fn form_pair(pair: (Seq<char>, Seq<char>)) -> Seq<char> {
    form_bytes(encode_utf8(pair.0)) + seq!['='] + form_bytes(encode_utf8(pair.1))
}

/// The text of an HTML form made of `pairs`, as `serde_html_form` writes it: the pairs
/// in order, joined by `&`.
pub open spec fn html_form(pairs: Seq<(Seq<char>, Seq<char>)>) -> Seq<char>
    decreases pairs.len(),
{
    if pairs.len() == 0 {
        Seq::empty()
    } else if pairs.len() == 1 {
        form_pair(pairs[0])
    } else {
        html_form(pairs.drop_last()) + seq!['&'] + form_pair(pairs.last())
    }
}

/// The views of a list of pairs of strings.
pub open spec fn pairs_view(pairs: Seq<(String, String)>) -> Seq<(Seq<char>, Seq<char>)> {
    Seq::new(pairs.len(), |i: int| (pairs[i].0@, pairs[i].1@))
}

/// `serde_html_form::to_string` on a list of pairs of strings, which does not fail on
/// them: the contract states the text it writes, each pair through
/// `form_urlencoded::Serializer::append_pair`.
#[verifier::external_body]
fn to_form_string(pairs: &Vec<(String, String)>) -> (r: String)
    ensures
        r@ == html_form(pairs_view(pairs@)),
{
    serde_html_form::to_string(pairs).unwrap()
}

/// The PKCE verifier made of `bytes`, and its challenge: the base64 of the SHA-256 of the
/// verifier's text.
pub open spec fn pkce_verifier(bytes: Seq<u8>) -> Seq<char> {
    base64_url_no_pad(bytes)
}

/// The PKCE challenge of `verifier`.
pub open spec fn pkce_challenge(verifier: Seq<char>) -> Seq<char> {
    base64_url_no_pad(sha256_digest(encode_utf8(verifier)))
}

/// The PKCE challenge and verifier made of `bytes`.
pub fn pkce_from_bytes(bytes: &[u8]) -> (r: (String, String))
    requires
        bytes@.len() <= 0x3fff_ffff,
    ensures
        r.1@ == pkce_verifier(bytes@),
        r.0@ == pkce_challenge(r.1@),
{
    let verifier = encode_base64_url(bytes);
    let digest = sha256(verifier.as_str().as_bytes());
    (encode_base64_url(digest.as_slice()), verifier)
}

/// The message of a redirect URI that the client did not register.
pub open spec fn invalid_redirect_uri_message() -> Seq<char> {
    "invalid redirect_uri"@
}

/// The message of an authorization that could not draw the random bytes of its verifier.
pub open spec fn no_randomness_message() -> Seq<char> {
    "no random bytes available"@
}

/// The message of a server that requires pushed requests but offers no endpoint for them.
pub open spec fn par_unavailable_message() -> Seq<char> {
    "server requires PAR but no endpoint is available"@
}

/// The configuration of an OAuth client.
pub struct OAuthClientConfig<S, T> {
    pub client_metadata: OAuthClientMetadata,
    pub store: S,
    pub http_client: T,
}

/// An OAuth client: its metadata, the store of its stages, and its HTTP client.
pub struct OAuthClient<S, T> {
    pub client_metadata: OAuthClientMetadata,
    store: S,
    http_client: Arc<T>,
}

impl<S: AtpStageMapStore, T> OAuthClient<S, T> {
    /// The client's metadata.
    pub closed spec fn metadata(&self) -> OAuthClientMetadata {
        self.client_metadata
    }

    /// The stage store.
    pub closed spec fn store(&self) -> S {
        self.store
    }

    /// The HTTP client.
    pub closed spec fn http(&self) -> Arc<T> {
        self.http_client
    }

    /// A client with the metadata, store and HTTP client of `config`.
    pub fn new(config: OAuthClientConfig<S, T>) -> (r: Self)
        ensures
            r.metadata() == config.client_metadata,
            r.store() == config.store,
            r.http() == config.http_client,
    {
        OAuthClient {
            client_metadata: config.client_metadata,
            store: config.store,
            http_client: Arc::new(config.http_client),
        }
    }

    /// The HTTP client.
    pub fn http_client(&self) -> (r: &Arc<T>)
        ensures
            *r == self.http(),
    {
        &self.http_client
    }

    /// The redirect URI of an authorization: the one asked for, which must be registered,
    /// else the first one registered.
    #[verifier::loop_isolation(false)]
    pub fn redirect_uri(&self, requested: Option<String>) -> (r: Result<String, Error>)
        requires
            requested is None ==> self.metadata().redirect_uris@.len() > 0,
        ensures
            match requested {
                Some(u) => if strings_view(self.metadata().redirect_uris@).contains(u@) {
                    r matches Ok(x) && x@ == u@
                } else {
                    r matches Err(Error::Authorize(m)) && m@ == invalid_redirect_uri_message()
                },
                None => r matches Ok(x) && x@ == self.metadata().redirect_uris@[0]@,
            },
    {
        match requested {
            Some(uri) => {
                let uris = &self.client_metadata.redirect_uris;
                let mut i: usize = 0;
                while i < uris.len()
                    invariant
                        i <= uris@.len(),
                        forall|j: int| 0 <= j < i ==> uris@[j]@ != uri@,
                    decreases uris@.len() - i,
                {
                    if uris[i] == uri {
                        assert(strings_view(uris@)[i as int] == uri@);
                        assert(strings_view(uris@).contains(uri@));
                        return Ok(uri);
                    }
                    i = i + 1;
                }
                proof {
                    if strings_view(uris@).contains(uri@) {
                        let j = choose|j: int| 0 <= j < strings_view(uris@).len() && strings_view(uris@)[j] == uri@;
                        assert(uris@[j]@ == uri@);
                    }
                    reveal_strlit("invalid redirect_uri");
                }
                Err(Error::Authorize(String::from_str("invalid redirect_uri")))
            },
            None => Ok(self.client_metadata.redirect_uris[0].clone()),
        }
    }

    /// Whether `after` and `r` are what starting an authorization leaves, once its redirect
    /// URI is accepted and its PKCE pair is `challenge` and `verifier`: the issuer, the DPoP
    /// key and the verifier are kept under `state` and nothing else in the store changes;
    /// with a pushed-request endpoint the parameters of that request are returned, else the
    /// server's demand for pushed requests cannot be met.
    pub open spec fn started(
        before: Self,
        after: Self,
        input: Seq<char>,
        options: AuthorizeOptions,
        metadata: OAuthAuthorizationServerMetadata,
        identity_known: bool,
        dpop_key: jose_jwk::Key,
        state: Seq<char>,
        challenge: Seq<char>,
        verifier: Seq<char>,
        r: Result<PushedAuthorizationRequestParameters, Error>,
    ) -> bool {
        &&& after.store().contents().dom() == before.store().contents().dom().insert(state)
        &&& forall|k: Seq<char>|
            k != state && #[trigger] before.store().contents().contains_key(k)
                ==> after.store().contents()[k] == before.store().contents()[k]
        &&& after.store().contents()[state] matches Stage::Authorization(data) && {
            &&& data.iss@ == metadata.issuer@
            &&& data.dpop_key == dpop_key
            &&& data.verifier@ == verifier
        }
        &&& metadata.pushed_authorization_request_endpoint is None ==> (r matches Err(
            Error::Authorize(m),
        ) && m@ == par_unavailable_message())
        &&& metadata.pushed_authorization_request_endpoint is Some ==> (r matches Ok(p)
            && p.response_type is Code && p.redirect_uri@ == chosen_redirect_uri(
            options.redirect_uri,
            before.metadata().redirect_uris@,
        ) && p.state@ == state && opt_view(p.scope) == joined_scopes(options.scopes)
            && p.response_mode is None && p.code_challenge@ == challenge
            && p.code_challenge_method is S256 && opt_view(p.login_hint) == (if identity_known {
            Some(input)
        } else {
            None
        }) && opt_view(p.prompt) == opt_view(options.prompt))
    }

    /// Starts an authorization of `input` with the server of `metadata`: keeps the issuer,
    /// `dpop_key` and a fresh PKCE verifier under `state`, and returns the parameters of
    /// the pushed authorization request, which names the user where `identity_known`. The
    /// PKCE pair is drawn with `generate_pkce` and handed to `start_authorization`.
    pub fn authorize(
        &mut self,
        input: &str,
        options: AuthorizeOptions,
        metadata: &OAuthAuthorizationServerMetadata,
        identity_known: bool,
        dpop_key: jose_jwk::Key,
        state: String,
    ) -> (r: Result<PushedAuthorizationRequestParameters, Error>)
        requires
            old(self).store().infallible(),
            options.redirect_uri is None ==> old(self).metadata().redirect_uris@.len() > 0,
            metadata.pushed_authorization_request_endpoint is Some
                || metadata.require_pushed_authorization_requests == Some(true),
        ensures
            final(self).store().infallible(),
            final(self).metadata() == old(self).metadata(),
            redirect_uri_rejected(options.redirect_uri, old(self).metadata().redirect_uris@) ==> {
                &&& r matches Err(Error::Authorize(m)) && m@ == invalid_redirect_uri_message()
                &&& final(self).store().contents() == old(self).store().contents()
            },
            !redirect_uri_rejected(options.redirect_uri, old(self).metadata().redirect_uris@)
                && metadata.pushed_authorization_request_endpoint is None ==> (r matches Err(
                Error::Authorize(m),
            ) && m@ == par_unavailable_message()),
            !redirect_uri_rejected(options.redirect_uri, old(self).metadata().redirect_uris@) ==> (({
                &&& metadata.pushed_authorization_request_endpoint is Some ==> (r matches Err(
                    Error::Authorize(m),
                ) && m@ == no_randomness_message())
                &&& final(self).store().contents() == old(self).store().contents()
            }) || (exists|bytes: Seq<u8>|
                bytes.len() == 32 && #[trigger] Self::started(
                    *old(self),
                    *final(self),
                    input@,
                    options,
                    *metadata,
                    identity_known,
                    dpop_key,
                    state@,
                    pkce_challenge(pkce_verifier(bytes)),
                    pkce_verifier(bytes),
                    r,
                ))),
            exists|drawn: Option<(String, String)>|
                #![trigger call_ensures(generate_pkce, (), drawn)]
                call_ensures(generate_pkce, (), drawn) && (!redirect_uri_rejected(
                    options.redirect_uri,
                    old(self).metadata().redirect_uris@,
                ) ==> match drawn {
                    None => {
                        &&& r matches Err(Error::Authorize(m)) && m@ == (if metadata.pushed_authorization_request_endpoint is None {
                            par_unavailable_message()
                        } else {
                            no_randomness_message()
                        })
                        &&& final(self).store().contents() == old(self).store().contents()
                    },
                    Some(p) => Self::started(
                        *old(self),
                        *final(self),
                        input@,
                        options,
                        *metadata,
                        identity_known,
                        dpop_key,
                        state@,
                        p.0@,
                        p.1@,
                        r,
                    ),
                }),
    {
        let draw = generate_pkce;
        let pkce = draw();
        let ghost drawn = pkce;
        proof {
            assert(call_ensures(generate_pkce, (), drawn));
        }
        self.start_authorization(input, options, metadata, identity_known, dpop_key, state, pkce)
    }

    /// Starts an authorization with the PKCE pair `pkce` (challenge, verifier), or, where
    /// none could be drawn, refuses it: a rejected redirect URI is answered first; then
    /// without a pair the store is left as it was and the answer is the server's unmet
    /// demand for pushed requests, or else the want of random bytes; with a pair the stage
    /// is kept and the pushed request's parameters are built as `started` says.
    pub fn start_authorization(
        &mut self,
        input: &str,
        options: AuthorizeOptions,
        metadata: &OAuthAuthorizationServerMetadata,
        identity_known: bool,
        dpop_key: jose_jwk::Key,
        state: String,
        pkce: Option<(String, String)>,
    ) -> (r: Result<PushedAuthorizationRequestParameters, Error>)
        requires
            old(self).store().infallible(),
            options.redirect_uri is None ==> old(self).metadata().redirect_uris@.len() > 0,
            metadata.pushed_authorization_request_endpoint is Some
                || metadata.require_pushed_authorization_requests == Some(true),
        ensures
            final(self).store().infallible(),
            final(self).metadata() == old(self).metadata(),
            redirect_uri_rejected(options.redirect_uri, old(self).metadata().redirect_uris@) ==> {
                &&& r matches Err(Error::Authorize(m)) && m@ == invalid_redirect_uri_message()
                &&& final(self).store().contents() == old(self).store().contents()
            },
            !redirect_uri_rejected(options.redirect_uri, old(self).metadata().redirect_uris@) ==> match pkce {
                None => {
                    &&& r matches Err(Error::Authorize(m)) && m@ == (if metadata.pushed_authorization_request_endpoint is None {
                        par_unavailable_message()
                    } else {
                        no_randomness_message()
                    })
                    &&& final(self).store().contents() == old(self).store().contents()
                },
                Some(p) => Self::started(
                    *old(self),
                    *final(self),
                    input@,
                    options,
                    *metadata,
                    identity_known,
                    dpop_key,
                    state@,
                    p.0@,
                    p.1@,
                    r,
                ),
            },
    {
        let redirect_uri = match self.redirect_uri(options.redirect_uri) {
            Ok(u) => u,
            Err(e) => return Err(e),
        };
        let (code_challenge, verifier) = match pkce {
            Some(p) => p,
            None => {
                if metadata.pushed_authorization_request_endpoint.is_none() {
                    proof {
                        reveal_strlit("server requires PAR but no endpoint is available");
                    }
                    return Err(
                        Error::Authorize(
                            String::from_str("server requires PAR but no endpoint is available"),
                        ),
                    );
                }
                proof {
                    reveal_strlit("no random bytes available");
                }
                return Err(Error::Authorize(String::from_str("no random bytes available")));
            },
        };
        let authorization_data = AuthorizationData {
            iss: metadata.issuer.clone(),
            dpop_key,
            verifier,
        };
        self.store.set_stage(state.clone(), Stage::Authorization(authorization_data));
        proof {
            assert(self.store.contents().dom() =~= old(self).store().contents().dom().insert(state@));
        }
        let login_hint = if identity_known {
            Some(String::from_str(input))
        } else {
            None
        };
        let scope = match &options.scopes {
            Some(v) => {
                proof {
                    reveal_strlit(" ");
                    assert(" "@ =~= seq![' ']);
                }
                Some(join(v, " "))
            },
            None => None,
        };
        let parameters = PushedAuthorizationRequestParameters {
            response_type: AuthorizationResponseType::Code,
            redirect_uri,
            state,
            scope,
            response_mode: None,
            code_challenge,
            code_challenge_method: AuthorizationCodeChallengeMethod::S256,
            login_hint,
            prompt: options.prompt,
        };
        if metadata.pushed_authorization_request_endpoint.is_some() {
            Ok(parameters)
        } else {
            proof {
                reveal_strlit("server requires PAR but no endpoint is available");
            }
            Err(
                Error::Authorize(
                    String::from_str("server requires PAR but no endpoint is available"),
                ),
            )
        }
    }

    /// Starts ending an authorization with the parameters of the callback: the state must
    /// name an authorization in progress, whose stage is removed, so that the callback
    /// cannot be replayed, and returned.
    pub fn callback(&mut self, params: &CallbackParams) -> (r: Result<AuthorizationData, Error>)
        requires
            old(self).store().infallible(),
        ensures
            final(self).store().infallible(),
            final(self).metadata() == old(self).metadata(),
            match params.state {
                None => {
                    &&& r matches Err(Error::Callback(m)) && m@ == missing_state_message()
                    &&& final(self).store().contents() == old(self).store().contents()
                },
                Some(k) => if old(self).store().contents().contains_key(k@)
                    && old(self).store().contents()[k@] is Authorization {
                    &&& r matches Ok(d) && old(self).store().contents()[k@] == Stage::Authorization(d)
                    &&& final(self).store().contents() == old(self).store().contents().remove(k@)
                } else {
                    &&& r matches Err(Error::Callback(m)) && m@ == unknown_state_message(k@)
                    &&& final(self).store().contents() == old(self).store().contents()
                },
            },
    {
        let state_key = match &params.state {
            Some(k) => k,
            None => {
                proof { reveal_strlit("missing `state` parameter"); }
                return Err(Error::Callback(String::from_str("missing `state` parameter")));
            },
        };
        match self.store.get_stage(state_key) {
            Some(Stage::Authorization(data)) => {
                self.store.del_stage(state_key);
                Ok(data)
            },
            _ => {
                let mut m = String::from_str("unknown authorization state: ");
                m.append(state_key.as_str());
                proof { reveal_strlit("unknown authorization state: "); }
                Err(Error::Callback(m))
            },
        }
    }

    /// The issuer of the authorization in progress under `state`, if there is one: the
    /// server whose metadata the callback is checked against.
    pub fn pending_issuer(&self, state: &Option<String>) -> (r: Option<String>)
        requires
            self.store().infallible(),
        ensures
            match *state {
                Some(k) => if self.store().contents().contains_key(k@)
                    && self.store().contents()[k@] is Authorization {
                    r matches Some(i) && (self.store().contents()[k@] matches Stage::Authorization(d)
                        && i@ == d.iss@)
                } else {
                    r is None
                },
                None => r is None,
            },
    {
        match state {
            Some(k) => match self.store.get_stage(k) {
                Some(Stage::Authorization(data)) => Some(data.iss),
                _ => None,
            },
            None => None,
        }
    }

    /// Takes the callback of an authorization with the metadata of its server: the state
    /// must name an authorization in progress, whose stage is removed so that the callback
    /// cannot be replayed; then the issuer that the callback names is checked against
    /// `metadata`. The authorization is returned where both hold.
    pub fn accept_callback(&mut self, params: &CallbackParams, metadata: &OAuthAuthorizationServerMetadata) -> (r: Result<AuthorizationData, Error>)
        requires
            old(self).store().infallible(),
        ensures
            final(self).store().infallible(),
            final(self).metadata() == old(self).metadata(),
            match params.state {
                None => {
                    &&& r matches Err(Error::Callback(m)) && m@ == missing_state_message()
                    &&& final(self).store().contents() == old(self).store().contents()
                },
                Some(k) => if old(self).store().contents().contains_key(k@)
                    && old(self).store().contents()[k@] is Authorization {
                    &&& final(self).store().contents() == old(self).store().contents().remove(k@)
                    &&& if issuer_accepted(params.iss, *metadata) {
                        r matches Ok(d) && old(self).store().contents()[k@] == Stage::Authorization(d)
                    } else {
                        r matches Err(Error::Callback(m)) && m@ == issuer_rejection(params.iss, *metadata)
                    }
                } else {
                    &&& r matches Err(Error::Callback(m)) && m@ == unknown_state_message(k@)
                    &&& final(self).store().contents() == old(self).store().contents()
                },
            },
    {
        let data = match self.callback(params) {
            Ok(d) => d,
            Err(e) => return Err(e),
        };
        match check_callback_issuer(&params.iss, metadata) {
            Ok(()) => Ok(data),
            Err(e) => Err(e),
        }
    }

    /// Ends an authorization with what the code exchange gave: on success the session of
    /// the tokens, with `dpop_key`, is kept under their subject and the tokens returned; a
    /// failed exchange keeps nothing and its error is returned.
    pub fn finish_callback(&mut self, dpop_key: jose_jwk::Key, exchanged: Result<TokenSet, Error>) -> (r: Result<TokenSet, Error>)
        requires
            old(self).store().infallible(),
        ensures
            r == exchanged,
            final(self).store().infallible(),
            final(self).metadata() == old(self).metadata(),
            match exchanged {
                Ok(token_set) => final(self).store().contents() == old(self).store().contents().insert(
                    token_set.sub@,
                    Stage::Session(SessionData { dpop_key, token_set }),
                ),
                Err(_) => final(self).store().contents() == old(self).store().contents(),
            },
    {
        let token_set = match exchanged {
            Ok(t) => t,
            Err(e) => return Err(e),
        };
        let session_data = SessionData { dpop_key, token_set: token_set.clone() };
        self.store.set_stage(token_set.sub.clone(), Stage::Session(session_data));
        Ok(token_set)
    }
}

/// Whether the issuer that a callback names, `iss`, is accepted for the server of
/// `metadata`: it is that server's, or the callback names none and the server did not
/// promise to.
pub open spec fn issuer_accepted(iss: Option<String>, metadata: OAuthAuthorizationServerMetadata) -> bool {
    match iss {
        Some(i) => i@ == metadata.issuer@,
        None => metadata.authorization_response_iss_parameter_supported != Some(true),
    }
}

/// The message of a callback whose issuer is not accepted.
pub open spec fn issuer_rejection(iss: Option<String>, metadata: OAuthAuthorizationServerMetadata) -> Seq<char> {
    match iss {
        Some(i) => issuer_mismatch_message(metadata.issuer@, i@),
        None => missing_iss_message(),
    }
}

/// The redirect URI that an authorization uses: the one asked for, else the first one
/// registered.
pub open spec fn chosen_redirect_uri(requested: Option<String>, registered: Seq<String>) -> Seq<char> {
    match requested {
        Some(u) => u@,
        None => registered[0]@,
    }
}

/// Whether the redirect URI asked for is one that the client did not register.
pub open spec fn redirect_uri_rejected(requested: Option<String>, registered: Seq<String>) -> bool {
    requested matches Some(u) && !strings_view(registered).contains(u@)
}

/// The scope of an authorization: the scopes asked for, separated by spaces.
pub open spec fn joined_scopes(scopes: Option<Vec<String>>) -> Option<Seq<char>> {
    match scopes {
        Some(v) => Some(seq_join(strings_view(v@), seq![' '])),
        None => None,
    }
}

/// The view of an optional string.
pub open spec fn opt_view(o: Option<String>) -> Option<Seq<char>> {
    match o {
        Some(s) => Some(s@),
        None => None,
    }
}

/// The message of a callback without a state.
pub open spec fn missing_state_message() -> Seq<char> {
    "missing `state` parameter"@
}

/// The message of a callback whose state names no authorization in progress.
pub open spec fn unknown_state_message(state: Seq<char>) -> Seq<char> {
    "unknown authorization state: "@ + state
}

/// The message of a callback from another issuer.
pub open spec fn issuer_mismatch_message(expected: Seq<char>, got: Seq<char>) -> Seq<char> {
    "issuer mismatch: expected "@ + expected + ", got "@ + got
}

/// The message of a callback without the issuer that the server promised to send.
pub open spec fn missing_iss_message() -> Seq<char> {
    "missing `iss` parameter"@
}

/// The URL that sends the user to authorize a pushed request: the authorization endpoint,
/// `?`, and the form of the client ID and the request URI.
pub fn authorization_url(authorization_endpoint: &String, client_id: &String, request_uri: String) -> (r: String)
    ensures
        r@ == authorization_endpoint@ + seq!['?'] + html_form(
            seq![("client_id"@, client_id@), ("request_uri"@, request_uri@)],
        ),
{
    let mut pairs: Vec<(String, String)> = Vec::new();
    pairs.push((String::from_str("client_id"), client_id.clone()));
    pairs.push((String::from_str("request_uri"), request_uri));
    let form = to_form_string(&pairs);
    proof {
        reveal_strlit("?");
        assert("?"@ =~= seq!['?']);
        assert(pairs_view(pairs@) =~= seq![("client_id"@, client_id@), ("request_uri"@, pairs@[1].1@)]);
    }
    let mut url = authorization_endpoint.clone();
    url.append("?");
    url.append(form.as_str());
    url
}

/// Checks that the callback comes from the issuer of `metadata`: the issuer it names
/// must be that one, and it must name one where the server promised to.
pub fn check_callback_issuer(iss: &Option<String>, metadata: &OAuthAuthorizationServerMetadata) -> (r: Result<(), Error>)
    ensures
        match iss {
            Some(i) => if i@ == metadata.issuer@ {
                r is Ok
            } else {
                r matches Err(Error::Callback(m)) && m@ == issuer_mismatch_message(metadata.issuer@, i@)
            },
            None => if metadata.authorization_response_iss_parameter_supported == Some(true) {
                r matches Err(Error::Callback(m)) && m@ == missing_iss_message()
            } else {
                r is Ok
            },
        },
{
    match iss {
        Some(i) => {
            if *i != metadata.issuer {
                let mut m = String::from_str("issuer mismatch: expected ");
                m.append(metadata.issuer.as_str());
                m.append(", got ");
                m.append(i.as_str());
                return Err(Error::Callback(m));
            }
            Ok(())
        },
        None => {
            if metadata.authorization_response_iss_parameter_supported == Some(true) {
                return Err(Error::Callback(String::from_str("missing `iss` parameter")));
            }
            Ok(())
        },
    }
}

/// A fresh PKCE challenge and verifier: the verifier is the base64 of 32 random bytes, so
/// 43 characters of the URL-safe alphabet; `None` where no random bytes can be had.
pub fn generate_pkce() -> (r: Option<(String, String)>)
    ensures
        r matches Some(p) ==> {
            &&& exists|bytes: Seq<u8>| bytes.len() == 32 && p.1@ == pkce_verifier(bytes)
            &&& p.0@ == pkce_challenge(p.1@)
            &&& p.1@.len() == 43
            &&& forall|i: int| 0 <= i < p.1@.len() ==> is_base64_url_char(#[trigger] p.1@[i])
        },
        exists|drawn: Option<Vec<u8>>|
            #![trigger is_os_random_draw(32, drawn)]
            is_os_random_draw(32, drawn) && match drawn {
                None => r is None,
                Some(bytes) => r matches Some(p) && p.1@ == pkce_verifier(bytes@) && p.0@ == pkce_challenge(
                    p.1@,
                ),
            },
{
    let draw = os_rng_bytes;
    let drawn = draw(32);
    let ghost drawn_view = drawn;
    proof {
        lemma_os_random_draw(32, drawn_view);
    }
    match drawn {
        Some(bytes) => {
            proof {
                lemma_base64_url_shape(bytes@);
            }
            Some(pkce_from_bytes(bytes.as_slice()))
        },
        None => None,
    }
}

} // verus!
