//! The agent's session state: the stored session, the service endpoint that it
//! talks to, the headers that it adds to requests, and the refreshing of sessions.

use vstd::prelude::*;
use vstd::string::*;
use crate::store::SimpleStore;
use crate::types::{Did, DidDocument, DidDocumentView, spec_pds_endpoint};

verus! {

/// A session with a personal data server, as `com.atproto.server.createSession` returns it.
pub struct Session {
    pub access_jwt: String,
    pub active: Option<bool>,
    pub did: Did,
    pub did_doc: Option<DidDocument>,
    pub email: Option<String>,
    pub email_auth_factor: Option<bool>,
    pub email_confirmed: Option<bool>,
    pub handle: String,
    pub refresh_jwt: String,
    pub status: Option<String>,
}

/// What a session says.
pub struct SessionView {
    pub access_jwt: Seq<char>,
    pub active: Option<bool>,
    pub did: Seq<char>,
    pub did_doc: Option<DidDocumentView>,
    pub email: Option<Seq<char>>,
    pub email_auth_factor: Option<bool>,
    pub email_confirmed: Option<bool>,
    pub handle: Seq<char>,
    pub refresh_jwt: Seq<char>,
    pub status: Option<Seq<char>>,
}

/// The view of an optional string.
pub open spec fn opt_str(o: Option<String>) -> Option<Seq<char>> {
    match o {
        Some(s) => Some(s@),
        None => None,
    }
}

/// The view of an optional DID document.
pub open spec fn opt_doc(o: Option<DidDocument>) -> Option<DidDocumentView> {
    match o {
        Some(d) => Some(d@),
        None => None,
    }
}

impl View for Session {
    type V = SessionView;

    open spec fn view(&self) -> SessionView {
        SessionView {
            access_jwt: self.access_jwt@,
            active: self.active,
            did: self.did@,
            did_doc: opt_doc(self.did_doc),
            email: opt_str(self.email),
            email_auth_factor: self.email_auth_factor,
            email_confirmed: self.email_confirmed,
            handle: self.handle@,
            refresh_jwt: self.refresh_jwt@,
            status: opt_str(self.status),
        }
    }
}

/// A copy of an optional string.
pub fn clone_opt_str(o: &Option<String>) -> (r: Option<String>)
    ensures
        opt_str(r) == opt_str(*o),
{
    match o {
        Some(s) => Some(s.clone()),
        None => None,
    }
}

/// A copy of an optional DID document.
pub fn clone_opt_doc(o: &Option<DidDocument>) -> (r: Option<DidDocument>)
    ensures
        opt_doc(r) == opt_doc(*o),
{
    match o {
        Some(d) => Some(d.clone()),
        None => None,
    }
}

impl Clone for Session {
    fn clone(&self) -> (r: Self)
        ensures
            r@ == self@,
    {
        Session {
            access_jwt: self.access_jwt.clone(),
            active: self.active,
            did: self.did.clone(),
            did_doc: clone_opt_doc(&self.did_doc),
            email: clone_opt_str(&self.email),
            email_auth_factor: self.email_auth_factor,
            email_confirmed: self.email_confirmed,
            handle: self.handle.clone(),
            refresh_jwt: self.refresh_jwt.clone(),
            status: clone_opt_str(&self.status),
        }
    }
}

/// Something that manages the session an HTTP client of type `T` sends with.
pub trait SessionManager<T> {}

/// Resolves sessions.
pub struct SessionResolver;

/// The session store of an agent, with the endpoint of the service it talks to.
pub struct Store<S> {
    inner: S,
    endpoint: String,
}

impl<S: SimpleStore<(), Session>> Store<S> {
    /// The session held, if any.
    pub open spec fn session(&self) -> Option<SessionView> {
        if self.inner_contents().contains_key(()) {
            Some(self.inner_contents()[()]@)
        } else {
            None
        }
    }

    /// The endpoint requests go to.
    pub closed spec fn endpoint(&self) -> Seq<char> {
        self.endpoint@
    }

    /// What the underlying store holds.
    pub closed spec fn inner_contents(&self) -> Map<(), Session> {
        self.inner.contents()
    }

    /// Whether the underlying store never fails.
    pub closed spec fn reliable(&self) -> bool {
        self.inner.infallible()
    }

    /// A store over `inner` that starts out talking to `initial_endpoint`.
    pub fn new(inner: S, initial_endpoint: String) -> (r: Self)
        ensures
            r.inner_contents() == inner.contents(),
            r.reliable() == inner.infallible(),
            r.endpoint() == initial_endpoint@,
    {
        Store { inner, endpoint: initial_endpoint }
    }

    /// The endpoint requests go to.
    pub fn get_endpoint(&self) -> (r: String)
        ensures
            r@ == self.endpoint(),
    {
        self.endpoint.clone()
    }

    /// Takes the endpoint of the personal data server that `did_doc` names, if it names one.
    pub fn update_endpoint(&mut self, did_doc: &DidDocument)
        ensures
            final(self).endpoint() == match spec_pds_endpoint(did_doc@) {
                Some(e) => e,
                None => old(self).endpoint(),
            },
            final(self).inner_contents() == old(self).inner_contents(),
            final(self).reliable() == old(self).reliable(),
    {
        if let Some(endpoint) = did_doc.get_pds_endpoint() {
            self.endpoint = endpoint;
        }
    }

    /// The session held, if any.
    pub fn get_session(&self) -> (r: Option<Session>)
        requires
            self.reliable(),
        ensures
            match r {
                Some(s) => self.session() == Some(s@),
                None => self.session() is None,
            },
    {
        match self.inner.get(&()) {
            Ok(o) => o,
            Err(_) => None,
        }
    }

    /// Holds `session`, replacing what was held.
    pub fn set_session(&mut self, session: Session)
        requires
            old(self).reliable(),
        ensures
            final(self).session() == Some(session@),
            final(self).reliable(),
            final(self).endpoint() == old(self).endpoint(),
    {
        let _ = self.inner.set((), session);
    }

    /// Drops the session held.
    pub fn clear_session(&mut self)
        requires
            old(self).reliable(),
        ensures
            final(self).session() is None,
            final(self).reliable(),
            final(self).endpoint() == old(self).endpoint(),
    {
        let _ = self.inner.del(&());
    }
}

/// The header value that routes requests to the service `service_type` of `did`.
pub open spec fn proxy_header_text(did: Seq<char>, service_type: Seq<char>) -> Seq<char> {
    did + seq!['#'] + service_type
}

/// The header value that names one labeler, asking it to redact where `redact` holds.
pub open spec fn labeler_text(did: Seq<char>, redact: bool) -> Seq<char> {
    if redact {
        did + seq![';', 'r', 'e', 'd', 'a', 'c', 't']
    } else {
        did
    }
}

/// The header values that name the labelers `dids`.
pub open spec fn labelers_texts(dids: Seq<(Did, bool)>) -> Seq<Seq<char>> {
    Seq::new(dids.len(), |i: int| labeler_text(dids[i].0@, dids[i].1))
}

/// The views of a sequence of strings.
pub open spec fn strs_view(v: Seq<String>) -> Seq<Seq<char>> {
    Seq::new(v.len(), |i: int| v[i]@)
}

/// The view of an optional list of strings.
pub open spec fn opt_strs(o: Option<Vec<String>>) -> Option<Seq<Seq<char>>> {
    match o {
        Some(v) => Some(strs_view(v@)),
        None => None,
    }
}

/// The client that sends the agent's requests, with the headers it adds to them.
pub struct WrapperClient<S> {
    store: Store<S>,
    proxy_header: Option<String>,
    labelers_header: Option<Vec<String>>,
}

impl<S: SimpleStore<(), Session>> WrapperClient<S> {
    /// The session store.
    pub closed spec fn store(&self) -> Store<S> {
        self.store
    }

    /// The value of the `atproto-proxy` header, if one is set.
    pub closed spec fn proxy(&self) -> Option<Seq<char>> {
        opt_str(self.proxy_header)
    }

    /// The values of the `atproto-accept-labelers` header, if one is set.
    pub closed spec fn labelers(&self) -> Option<Seq<Seq<char>>> {
        opt_strs(self.labelers_header)
    }

    /// A client over `store`, with no headers set.
    pub fn new(store: Store<S>) -> (r: Self)
        ensures
            r.store() == store,
            r.proxy() is None,
            r.labelers() is None,
    {
        WrapperClient { store, proxy_header: None, labelers_header: None }
    }

    /// The session store.
    pub fn session_store(&self) -> (r: &Store<S>)
        ensures
            *r == self.store(),
    {
        &self.store
    }

    /// Sets the `atproto-proxy` header.
    pub fn configure_proxy_header(&mut self, value: String)
        ensures
            final(self).proxy() == Some(value@),
            final(self).labelers() == old(self).labelers(),
            final(self).store() == old(self).store(),
    {
        self.proxy_header = Some(value);
    }

    /// Sets the `atproto-accept-labelers` header to name `labelers_dids`, or removes it.
    pub fn configure_labelers_header(&mut self, labelers_dids: Option<Vec<(Did, bool)>>)
        ensures
            final(self).labelers() == match labelers_dids {
                Some(dids) => Some(labelers_texts(dids@)),
                None => None,
            },
            final(self).proxy() == old(self).proxy(),
            final(self).store() == old(self).store(),
    {
        self.labelers_header = match labelers_dids {
            Some(dids) => {
                let v = labelers_header_values(&dids);
                Some(v)
            },
            None => None,
        };
    }

    /// The endpoint requests go to.
    pub fn base_uri(&self) -> (r: String)
        ensures
            r@ == self.store().endpoint(),
    {
        self.store.get_endpoint()
    }

    /// The token to authenticate with: the refresh token when refreshing, else the access token.
    pub fn authentication_token(&self, is_refresh: bool) -> (r: Option<String>)
        requires
            self.store().reliable(),
        ensures
            match self.store().session() {
                Some(s) => r matches Some(t) && t@ == if is_refresh {
                    s.refresh_jwt
                } else {
                    s.access_jwt
                },
                None => r is None,
            },
    {
        match self.store.get_session() {
            Some(session) => if is_refresh {
                Some(session.refresh_jwt)
            } else {
                Some(session.access_jwt)
            },
            None => None,
        }
    }

    /// The value of the `atproto-proxy` header, if one is set.
    pub fn atproto_proxy_header(&self) -> (r: Option<String>)
        ensures
            opt_str(r) == self.proxy(),
    {
        clone_opt_str(&self.proxy_header)
    }

    /// The values of the `atproto-accept-labelers` header, if one is set.
    pub fn atproto_accept_labelers_header(&self) -> (r: Option<Vec<String>>)
        ensures
            opt_strs(r) == self.labelers(),
    {
        match &self.labelers_header {
            Some(v) => {
                let c = v.clone();
                assert(strs_view(c@) =~= strs_view(v@));
                Some(c)
            },
            None => None,
        }
    }
}

/// The header values that name the labelers `dids`.
pub fn labelers_header_values(dids: &Vec<(Did, bool)>) -> (r: Vec<String>)
    ensures
        strs_view(r@) == labelers_texts(dids@),
{
    let mut r: Vec<String> = Vec::new();
    let mut i: usize = 0;
    while i < dids.len()
        invariant
            i <= dids@.len(),
            r@.len() == i,
            forall|j: int| 0 <= j < i ==> #[trigger] r@[j]@ == labeler_text(dids@[j].0@, dids@[j].1),
        decreases dids@.len() - i,
    {
        let (did, redact) = &dids[i];
        let mut text = String::from_str(did.as_str());
        if *redact {
            proof { reveal_strlit(";redact"); }
            text.append(";redact");
        }
        r.push(text);
        i = i + 1;
    }
    assert(strs_view(r@) =~= labelers_texts(dids@));
    r
}

/// The header value that routes requests to the service `service_type` of `did`.
pub fn proxy_header_value(did: &Did, service_type: &str) -> (r: String)
    ensures
        r@ == proxy_header_text(did@, service_type@),
{
    let mut text = String::from_str(did.as_str());
    proof { reveal_strlit("#"); }
    text.append("#");
    text.append(service_type);
    text
}

/// The output of `com.atproto.server.refreshSession`.
pub struct RefreshSessionOutput {
    pub access_jwt: String,
    pub active: Option<bool>,
    pub did: Did,
    pub did_doc: Option<DidDocument>,
    pub handle: String,
    pub refresh_jwt: String,
    pub status: Option<String>,
}

/// The session `session` after a refresh that returned `output`: the tokens, the DID,
/// the DID document and the handle come from the refresh.
pub open spec fn refreshed_session(session: SessionView, output: RefreshSessionOutput) -> SessionView {
    SessionView {
        access_jwt: output.access_jwt@,
        did: output.did@,
        did_doc: opt_doc(output.did_doc),
        handle: output.handle@,
        refresh_jwt: output.refresh_jwt@,
        ..session
    }
}

/// The endpoint after a response that carried `did_doc`: the personal data server that the
/// document names, else `endpoint` unchanged.
pub open spec fn endpoint_after(endpoint: Seq<char>, did_doc: Option<DidDocumentView>) -> Seq<char> {
    match did_doc {
        Some(d) => match spec_pds_endpoint(d) {
            Some(e) => e,
            None => endpoint,
        },
        None => endpoint,
    }
}

/// How a caller that asks for a session refresh proceeds.
pub enum RefreshStart {
    /// Another refresh is in flight: wait for it to finish.
    Wait,
    /// This caller refreshes, and reports the outcome with `finish_refresh`.
    Refresh,
}

/// How a request for a refresh proceeds while `refreshing` says whether one is in flight.
pub open spec fn refresh_outcome(refreshing: bool) -> RefreshStart {
    if refreshing {
        RefreshStart::Wait
    } else {
        RefreshStart::Refresh
    }
}

/// The agent's client: it sends requests with the session's tokens and refreshes the
/// session when the access token has expired, one refresh at a time.
pub struct Client<S> {
    inner: WrapperClient<S>,
    is_refreshing: bool,
}

impl<S: SimpleStore<(), Session>> Client<S> {
    /// The client that sends the requests.
    pub closed spec fn inner(&self) -> WrapperClient<S> {
        self.inner
    }

    /// Whether a refresh is in flight.
    pub closed spec fn refreshing(&self) -> bool {
        self.is_refreshing
    }

    /// A client over `store`, with no headers set and no refresh in flight.
    pub fn new(store: Store<S>) -> (r: Self)
        ensures
            r.inner().store() == store,
            r.inner().proxy() is None,
            r.inner().labelers() is None,
            !r.refreshing(),
    {
        Client { inner: WrapperClient::new(store), is_refreshing: false }
    }

    /// The client that sends the requests.
    pub fn wrapper(&self) -> (r: &WrapperClient<S>)
        ensures
            *r == self.inner(),
    {
        &self.inner
    }

    /// Sends later requests to `endpoint`.
    pub fn configure_endpoint(&mut self, endpoint: String)
        ensures
            final(self).inner().store().endpoint() == endpoint@,
            final(self).inner().store().session() == old(self).inner().store().session(),
            final(self).inner().store().reliable() == old(self).inner().store().reliable(),
            final(self).inner().proxy() == old(self).inner().proxy(),
            final(self).inner().labelers() == old(self).inner().labelers(),
            final(self).refreshing() == old(self).refreshing(),
    {
        self.inner.store.endpoint = endpoint;
    }

    /// Routes later requests to the service `service_type` of `did`.
    pub fn configure_proxy_header(&mut self, did: &Did, service_type: &str)
        ensures
            final(self).inner().proxy() == Some(proxy_header_text(did@, service_type@)),
            final(self).inner().labelers() == old(self).inner().labelers(),
            final(self).inner().store() == old(self).inner().store(),
            final(self).refreshing() == old(self).refreshing(),
    {
        self.inner.configure_proxy_header(proxy_header_value(did, service_type));
    }

    /// Asks later requests to be labeled by `labeler_dids`, or stops asking.
    pub fn configure_labelers_header(&mut self, labeler_dids: Option<Vec<(Did, bool)>>)
        ensures
            final(self).inner().labelers() == match labeler_dids {
                Some(dids) => Some(labelers_texts(dids@)),
                None => None,
            },
            final(self).inner().proxy() == old(self).inner().proxy(),
            final(self).inner().store() == old(self).inner().store(),
            final(self).refreshing() == old(self).refreshing(),
    {
        self.inner.configure_labelers_header(labeler_dids);
    }

    /// The values of the `atproto-accept-labelers` header, if one is set.
    pub fn get_labelers_header(&self) -> (r: Option<Vec<String>>)
        ensures
            opt_strs(r) == self.inner().labelers(),
    {
        self.inner.atproto_accept_labelers_header()
    }

    /// The value of the `atproto-proxy` header, if one is set.
    pub fn get_proxy_header(&self) -> (r: Option<String>)
        ensures
            opt_str(r) == self.inner().proxy(),
    {
        self.inner.atproto_proxy_header()
    }

    /// The endpoint requests go to.
    pub fn base_uri(&self) -> (r: String)
        ensures
            r@ == self.inner().store().endpoint(),
    {
        self.inner.base_uri()
    }

    /// Starts a session refresh, unless one is already in flight.
    pub fn begin_refresh(&mut self) -> (r: RefreshStart)
        ensures
            r == refresh_outcome(old(self).refreshing()),
            final(self).refreshing(),
            final(self).inner() == old(self).inner(),
    {
        if self.is_refreshing {
            RefreshStart::Wait
        } else {
            self.is_refreshing = true;
            RefreshStart::Refresh
        }
    }

    /// Ends the refresh in flight with what `com.atproto.server.refreshSession` returned:
    /// on success the held session takes the new tokens and identity, and the endpoint
    /// follows the DID document; on failure the session is dropped.
    pub fn finish_refresh(&mut self, output: Option<RefreshSessionOutput>)
        requires
            old(self).inner().store().reliable(),
        ensures
            !final(self).refreshing(),
            final(self).inner().store().reliable(),
            final(self).inner().proxy() == old(self).inner().proxy(),
            final(self).inner().labelers() == old(self).inner().labelers(),
            match output {
                Some(out) => {
                    &&& final(self).inner().store().session() == match old(self).inner().store().session() {
                        Some(s) => Some(refreshed_session(s, out)),
                        None => None,
                    }
                    &&& old(self).inner().store().session() matches Some(s0) ==> (
                    final(self).inner().store().session() matches Some(s) && {
                        &&& s.access_jwt == out.access_jwt@
                        &&& s.refresh_jwt == out.refresh_jwt@
                        &&& s.did == out.did@
                        &&& s.handle == out.handle@
                        &&& s.did_doc == opt_doc(out.did_doc)
                        &&& s.active == s0.active
                        &&& s.email == s0.email
                        &&& s.email_auth_factor == s0.email_auth_factor
                        &&& s.email_confirmed == s0.email_confirmed
                        &&& s.status == s0.status
                    })
                    &&& final(self).inner().store().endpoint() == endpoint_after(
                        old(self).inner().store().endpoint(),
                        opt_doc(out.did_doc),
                    )
                },
                None => {
                    &&& final(self).inner().store().session() is None
                    &&& final(self).inner().store().endpoint() == old(self).inner().store().endpoint()
                },
            },
    {
        match output {
            Some(out) => {
                if let Some(mut session) = self.inner.store.get_session() {
                    session.access_jwt = out.access_jwt.clone();
                    session.did = out.did.clone();
                    session.did_doc = clone_opt_doc(&out.did_doc);
                    session.handle = out.handle.clone();
                    session.refresh_jwt = out.refresh_jwt.clone();
                    self.inner.store.set_session(session);
                }
                if let Some(did_doc) = &out.did_doc {
                    self.inner.store.update_endpoint(did_doc);
                }
            },
            None => {
                self.inner.store.clear_session();
            },
        }
        self.is_refreshing = false;
    }
}

/// The output of `com.atproto.server.createAccount`.
pub struct CreateAccountOutput {
    pub access_jwt: String,
    pub did: Did,
    pub did_doc: Option<DidDocument>,
    pub handle: String,
    pub refresh_jwt: String,
}

/// The output of `com.atproto.server.getSession`.
pub struct GetSessionOutput {
    pub active: Option<bool>,
    pub did: Did,
    pub did_doc: Option<DidDocument>,
    pub email: Option<String>,
    pub email_auth_factor: Option<bool>,
    pub email_confirmed: Option<bool>,
    pub handle: String,
    pub status: Option<String>,
}

/// The session that a new account starts with: its tokens and identity, active, with the
/// email it was created with.
pub open spec fn created_session(email: Option<Seq<char>>, output: CreateAccountOutput) -> SessionView {
    SessionView {
        access_jwt: output.access_jwt@,
        active: Some(true),
        did: output.did@,
        did_doc: opt_doc(output.did_doc),
        email: email,
        email_auth_factor: None,
        email_confirmed: None,
        handle: output.handle@,
        refresh_jwt: output.refresh_jwt@,
        status: None,
    }
}

/// The session `session` after `com.atproto.server.getSession` returned `output`: the DID
/// document, the email, whether it is confirmed, and the handle come from the output.
pub open spec fn resumed_session(session: SessionView, output: GetSessionOutput) -> SessionView {
    SessionView {
        did_doc: opt_doc(output.did_doc),
        email: opt_str(output.email),
        email_confirmed: output.email_confirmed,
        handle: output.handle@,
        ..session
    }
}

/// An agent that authenticates with credentials: it keeps the session it logged in with
/// and the endpoint of the user's personal data server.
pub struct CredentialSession<S> {
    pds_endpoint: String,
    client: Client<S>,
}

impl<S: SimpleStore<(), Session>> CredentialSession<S> {
    /// The endpoint of the user's personal data server.
    pub closed spec fn pds_endpoint(&self) -> Seq<char> {
        self.pds_endpoint@
    }

    /// The agent's client.
    pub closed spec fn client(&self) -> Client<S> {
        self.client
    }

    /// The session held, if any.
    pub open spec fn session(&self) -> Option<SessionView> {
        self.client().inner().store().session()
    }

    /// Whether the session store never fails.
    pub open spec fn reliable(&self) -> bool {
        self.client().inner().store().reliable()
    }

    /// A new agent that talks to `pds_endpoint` and keeps its session in `store`.
    pub fn new(pds_endpoint: String, store: S) -> (r: Self)
        ensures
            r.pds_endpoint() == pds_endpoint@,
            r.client().inner().store().endpoint() == pds_endpoint@,
            r.client().inner().store().inner_contents() == store.contents(),
            r.reliable() == store.infallible(),
            r.client().inner().proxy() is None,
            r.client().inner().labelers() is None,
            !r.client().refreshing(),
    {
        let endpoint = pds_endpoint.clone();
        CredentialSession { pds_endpoint, client: Client::new(Store::new(store, endpoint)) }
    }

    /// The DID of the session held, if any.
    pub fn get_did(&self) -> (r: Option<Did>)
        requires
            self.reliable(),
        ensures
            match self.session() {
                Some(s) => r matches Some(d) && d@ == s.did,
                None => r is None,
            },
    {
        match self.client.inner.store.get_session() {
            Some(session) => Some(session.did),
            None => None,
        }
    }

    /// Holds the session of an account that `com.atproto.server.createAccount` created
    /// with `email`, and follows its DID document to its personal data server.
    pub fn create_account(&mut self, email: Option<String>, output: CreateAccountOutput)
        requires
            old(self).reliable(),
        ensures
            final(self).reliable(),
            final(self).session() == Some(created_session(opt_str(email), output)),
            final(self).session() matches Some(s) && {
                &&& s.access_jwt == output.access_jwt@
                &&& s.refresh_jwt == output.refresh_jwt@
                &&& s.did == output.did@
                &&& s.handle == output.handle@
                &&& s.did_doc == opt_doc(output.did_doc)
                &&& s.email == opt_str(email)
                &&& s.active == Some(true)
                &&& s.email_auth_factor is None
                &&& s.email_confirmed is None
                &&& s.status is None
            },
            final(self).pds_endpoint() == endpoint_after(
                old(self).pds_endpoint(),
                opt_doc(output.did_doc),
            ),
    {
        let session = Session {
            access_jwt: output.access_jwt,
            active: Some(true),
            did: output.did,
            did_doc: clone_opt_doc(&output.did_doc),
            email: email,
            email_auth_factor: None,
            email_confirmed: None,
            handle: output.handle,
            refresh_jwt: output.refresh_jwt,
            status: None,
        };
        self.client.inner.store.set_session(session);
        if let Some(did_doc) = &output.did_doc {
            self.update_endpoint(did_doc);
        }
    }

    /// Holds the session that `com.atproto.server.createSession` returned, follows its DID
    /// document to its personal data server, and returns it.
    pub fn login(&mut self, output: Session) -> (r: Session)
        requires
            old(self).reliable(),
        ensures
            r@ == output@,
            final(self).reliable(),
            final(self).session() == Some(output@),
            final(self).pds_endpoint() == endpoint_after(old(self).pds_endpoint(), output@.did_doc),
    {
        self.client.inner.store.set_session(output.clone());
        if let Some(did_doc) = &output.did_doc {
            self.update_endpoint(did_doc);
        }
        output
    }

    /// Drops the session held.
    pub fn logout(&mut self)
        requires
            old(self).reliable(),
        ensures
            final(self).reliable(),
            final(self).session() is None,
            final(self).pds_endpoint() == old(self).pds_endpoint(),
    {
        self.client.inner.store.clear_session();
    }

    /// Holds `session`, to be checked with `com.atproto.server.getSession`.
    pub fn resume_session(&mut self, session: Session)
        requires
            old(self).reliable(),
        ensures
            final(self).reliable(),
            final(self).session() == Some(session@),
            final(self).pds_endpoint() == old(self).pds_endpoint(),
    {
        self.client.inner.store.set_session(session);
    }

    /// Ends resuming a session with what `com.atproto.server.getSession` returned: on
    /// success the held session takes the returned profile and the endpoint follows the
    /// DID document; on failure the session is dropped and the error returned.
    pub fn finish_resume_session<E>(&mut self, result: Result<GetSessionOutput, E>) -> (r: Result<(), E>)
        requires
            old(self).reliable(),
            result matches Ok(output) ==> (old(self).session() matches Some(s) ==> s.did
                == output.did@),
        ensures
            final(self).reliable(),
            match result {
                Ok(output) => {
                    &&& r is Ok
                    &&& final(self).session() == match old(self).session() {
                        Some(s) => Some(resumed_session(s, output)),
                        None => None,
                    }
                    &&& old(self).session() matches Some(s0) ==> (final(self).session() matches Some(s) && {
                        &&& s.did_doc == opt_doc(output.did_doc)
                        &&& s.email == opt_str(output.email)
                        &&& s.email_confirmed == output.email_confirmed
                        &&& s.handle == output.handle@
                        &&& s.access_jwt == s0.access_jwt
                        &&& s.refresh_jwt == s0.refresh_jwt
                        &&& s.did == s0.did
                        &&& s.active == s0.active
                        &&& s.email_auth_factor == s0.email_auth_factor
                        &&& s.status == s0.status
                    })
                    &&& final(self).pds_endpoint() == endpoint_after(
                        old(self).pds_endpoint(),
                        opt_doc(output.did_doc),
                    )
                },
                Err(e) => {
                    &&& r == Err::<(), E>(e)
                    &&& final(self).session() is None
                    &&& final(self).pds_endpoint() == old(self).pds_endpoint()
                },
            },
    {
        match result {
            Ok(output) => {
                if let Some(mut session) = self.client.inner.store.get_session() {
                    session.did_doc = clone_opt_doc(&output.did_doc);
                    session.email = output.email;
                    session.email_confirmed = output.email_confirmed;
                    session.handle = output.handle;
                    self.client.inner.store.set_session(session);
                }
                if let Some(did_doc) = &output.did_doc {
                    self.update_endpoint(did_doc);
                }
                Ok(())
            },
            Err(err) => {
                self.client.inner.store.clear_session();
                Err(err)
            },
        }
    }

    /// The endpoint of the user's personal data server.
    pub fn get_endpoint(&self) -> (r: String)
        ensures
            r@ == self.pds_endpoint(),
    {
        self.pds_endpoint.clone()
    }

    /// Takes the endpoint of the personal data server that `did_doc` names, if it names one.
    pub fn update_endpoint(&mut self, did_doc: &DidDocument)
        ensures
            final(self).pds_endpoint() == endpoint_after(old(self).pds_endpoint(), Some(did_doc@)),
            final(self).client() == old(self).client(),
    {
        if let Some(endpoint) = did_doc.get_pds_endpoint() {
            self.pds_endpoint = endpoint;
        }
    }
}

} // verus!
