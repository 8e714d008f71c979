//! Properties that hold across the operations of the library.

use vstd::prelude::*;
use crate::agent::{
    Client, Session, RefreshStart, SessionView, endpoint_after, labeler_text, proxy_header_text, refresh_outcome,
    refreshed_session, RefreshSessionOutput, created_session, resumed_session, CreateAccountOutput,
    GetSessionOutput, opt_doc, opt_str,
};
use crate::cached::{is_fresh, Cached, CachedStep};
use crate::oauth::Expired;
use crate::store::SimpleStore;
use crate::oauth::{
    AtpStageMapStore, AuthorizationData, AuthorizeOptions, Error, OAuthAuthorizationServerMetadata, OAuthClient,
    PushedAuthorizationRequestParameters, Stage, pkce_challenge,
};
use crate::types::{DidDocumentView, is_did_id_char, is_did_syntax};

verus! {

/// A map store reads back what was last written under a key, and writing under one key
/// leaves every other key as it was.
pub proof fn law_map_store_read_after_write<K, V>(contents: Map<K, V>, key: K, value: V, other: K)
    requires
        other != key,
    ensures
        contents.insert(key, value).contains_key(key),
        contents.insert(key, value)[key] == value,
        contents.insert(key, value).contains_key(other) == contents.contains_key(other),
        contents.contains_key(other) ==> contents.insert(key, value)[other] == contents[other],
{
}

/// A map store holds nothing under a key once it is deleted, and nothing at all once it is
/// cleared; deleting one key leaves every other key as it was.
pub proof fn law_map_store_delete<K, V>(contents: Map<K, V>, key: K, other: K)
    requires
        other != key,
    ensures
        !contents.remove(key).contains_key(key),
        contents.remove(key).contains_key(other) == contents.contains_key(other),
        contents.contains_key(other) ==> contents.remove(key)[other] == contents[other],
        !Map::<K, V>::empty().contains_key(key),
{
}

/// Following the DID document of a response twice leads where following it once does.
pub proof fn law_endpoint_update_idempotent(endpoint: Seq<char>, did_doc: Option<DidDocumentView>)
    ensures
        endpoint_after(endpoint_after(endpoint, did_doc), did_doc) == endpoint_after(endpoint, did_doc),
{
}

/// One refresh runs at a time: once a refresh has started, every later request for one
/// waits until it finishes.
pub proof fn law_one_refresh_at_a_time()
    ensures
        refresh_outcome(false) == RefreshStart::Refresh,
        refresh_outcome(true) == RefreshStart::Wait,
{
}

/// Refreshes that overlap share one: of callers that each ask for a refresh while the
/// first one's is still in flight, starting from a client with none in flight, the first
/// refreshes and every later one waits for it. `clients[i + 1]` is the client after the
/// `i`-th caller's `begin_refresh`, which answered `starts[i]`.
pub proof fn law_overlapping_refreshes_share_one<S: SimpleStore<(), Session>>(
    clients: Seq<Client<S>>,
    starts: Seq<RefreshStart>,
)
    requires
        clients.len() == starts.len() + 1,
        !clients[0].refreshing(),
        forall|i: int|
            0 <= i < starts.len() ==> #[trigger] starts[i] == refresh_outcome(clients[i].refreshing())
                && clients[i + 1].refreshing(),
    ensures
        starts.len() > 0 ==> starts[0] == RefreshStart::Refresh,
        forall|i: int| 0 < i < starts.len() ==> #[trigger] starts[i] == RefreshStart::Wait,
{
    assert forall|i: int| 0 < i < starts.len() implies #[trigger] starts[i] == RefreshStart::Wait by {
        assert(starts[i - 1] == refresh_outcome(clients[i - 1].refreshing()) && clients[i].refreshing());
    }
}

/// A refresh that has finished blocks no one: a caller that asks for a refresh once none
/// is in flight sends its own.
pub proof fn law_finished_refresh_blocks_no_one<S: SimpleStore<(), Session>>(client: Client<S>)
    requires
        !client.refreshing(),
    ensures
        refresh_outcome(client.refreshing()) == RefreshStart::Refresh,
{
}

/// Reads of a cached value that overlap share one fetch: where the value held is missing
/// or expired at each read and no fetch is in flight at the first, the first read fetches
/// and every later one waits on the first one's sender. `states[i + 1]` is the cache after
/// the `i`-th read, at time `nows[i]` with `senders[i]`, which answered `steps[i]`.
pub proof fn law_overlapping_reads_share_one_fetch<T: Expired + Clone, W: Clone>(
    states: Seq<Cached<T, W>>,
    nows: Seq<i128>,
    senders: Seq<W>,
    steps: Seq<CachedStep<T, W>>,
)
    requires
        states.len() == steps.len() + 1,
        nows.len() == steps.len(),
        senders.len() == steps.len(),
        states[0].pending() is None,
        forall|i: int|
            0 <= i < steps.len() ==> !(states[0].value() matches Some(v) && is_fresh(
                v.spec_expires_at(),
                #[trigger] nows[i],
            )),
        forall|i: int|
            0 <= i < steps.len() ==> #[trigger] Cached::read_at(
                states[i],
                nows[i],
                senders[i],
                steps[i],
                states[i + 1],
            ),
    ensures
        steps.len() > 0 ==> steps[0] is Fetch,
        forall|i: int|
            0 < i < steps.len() ==> (#[trigger] steps[i] matches CachedStep::Subscribe(w) && cloned(
                senders[0],
                w,
            )),
        steps.len() > 0 ==> states[steps.len() as int].pending() == Some(senders[0]),
        states[steps.len() as int].value() == states[0].value(),
    decreases steps.len(),
{
    if steps.len() > 0 {
        let n = steps.len() - 1;
        let (s0, t0, w0, p0) = (states.take(n + 1), nows.take(n), senders.take(n), steps.take(n));
        assert forall|i: int| 0 <= i < p0.len() implies #[trigger] Cached::read_at(
            s0[i],
            t0[i],
            w0[i],
            p0[i],
            s0[i + 1],
        ) by {
            assert(Cached::read_at(states[i], nows[i], senders[i], steps[i], states[i + 1]));
        }
        assert forall|i: int| 0 <= i < p0.len() implies !(s0[0].value() matches Some(v)
            && is_fresh(v.spec_expires_at(), #[trigger] t0[i])) by {
            assert(!(states[0].value() matches Some(v) && is_fresh(v.spec_expires_at(), nows[i])));
        }
        law_overlapping_reads_share_one_fetch(s0, t0, w0, p0);
        assert(Cached::read_at(states[n], nows[n], senders[n], steps[n], states[n + 1]));
        assert(!(states[0].value() matches Some(v) && is_fresh(v.spec_expires_at(), nows[n])));
        assert forall|i: int| 0 < i < steps.len() implies (#[trigger] steps[i] matches CachedStep::Subscribe(w)
            && cloned(senders[0], w)) by {
            if i < n {
                assert(steps[i] == p0[i]);
                assert(senders[0] == w0[0]);
            }
        }
    }
}

/// What a fetch brings is what later reads get: once `complete` has taken the fetched
/// `value`, a read at a time when it has not expired hands out a clone of it and fetches
/// nothing.
pub proof fn law_fetched_value_is_served<T: Expired + Clone, W: Clone>(
    completed: Cached<T, W>,
    value: T,
    now: i128,
    sender: W,
    step: CachedStep<T, W>,
    after: Cached<T, W>,
)
    requires
        completed.value() == Some(value),
        is_fresh(value.spec_expires_at(), now),
        Cached::read_at(completed, now, sender, step, after),
    ensures
        step matches CachedStep::Fresh(c) && cloned(value, c),
        after.value() == Some(value),
        after.pending() == completed.pending(),
{
}

/// An authorization started with a PKCE verifier, against a server that takes pushed
/// requests, succeeds: the verifier is kept under the state with the issuer and the DPoP
/// key, and the request sent to the server carries that state, the prompt asked for, and
/// the S256 challenge of the very verifier kept.
pub proof fn law_started_authorization_succeeds<S: AtpStageMapStore, T>(
    before: OAuthClient<S, T>,
    after: OAuthClient<S, T>,
    input: Seq<char>,
    options: AuthorizeOptions,
    metadata: OAuthAuthorizationServerMetadata,
    identity_known: bool,
    dpop_key: jose_jwk::Key,
    state: Seq<char>,
    verifier: Seq<char>,
    r: Result<PushedAuthorizationRequestParameters, Error>,
)
    requires
        OAuthClient::started(
            before,
            after,
            input,
            options,
            metadata,
            identity_known,
            dpop_key,
            state,
            pkce_challenge(verifier),
            verifier,
            r,
        ),
        metadata.pushed_authorization_request_endpoint is Some,
    ensures
        r matches Ok(p) && {
            &&& p.state@ == state
            &&& p.code_challenge@ == pkce_challenge(verifier)
            &&& p.code_challenge_method is S256
            &&& crate::oauth::opt_view(p.prompt) == crate::oauth::opt_view(options.prompt)
        },
        after.store().contents().contains_key(state),
        after.store().contents()[state] matches Stage::Authorization(d) && d.verifier@ == verifier
            && d.iss@ == metadata.issuer@ && d.dpop_key == dpop_key,
{
}

/// A read finds an expired value useless: at a time after the value's expiry it is not
/// handed out, and where no fetch is in flight the reader registers its sender and
/// fetches.
pub proof fn law_expired_value_is_fetched_again<T: Expired + Clone, W: Clone>(
    before: Cached<T, W>,
    now: i128,
    sender: W,
    step: CachedStep<T, W>,
    after: Cached<T, W>,
)
    requires
        Cached::read_at(before, now, sender, step, after),
        before.value() matches Some(v) && (v.spec_expires_at() matches Some(e) && e < now),
    ensures
        !(step is Fresh),
        before.pending() is None ==> step is Fetch && after.pending() == Some(sender),
        before.pending() matches Some(w) ==> (step matches CachedStep::Subscribe(c) && cloned(w, c)),
{
}

/// A refresh replaces the tokens and the identity of a session and keeps the rest: whether
/// it is active, the email and its confirmation, the second factor, and the status.
pub proof fn law_refresh_keeps_profile(session: SessionView, output: RefreshSessionOutput)
    ensures
        refreshed_session(session, output).active == session.active,
        refreshed_session(session, output).email == session.email,
        refreshed_session(session, output).email_confirmed == session.email_confirmed,
        refreshed_session(session, output).email_auth_factor == session.email_auth_factor,
        refreshed_session(session, output).status == session.status,
        refreshed_session(session, output).access_jwt == output.access_jwt@,
        refreshed_session(session, output).refresh_jwt == output.refresh_jwt@,
{
}

/// A refresh takes the identity that the server returned: the session's DID, handle and
/// DID document become those of the refresh output, whatever they were.
pub proof fn law_refresh_takes_identity(session: SessionView, output: RefreshSessionOutput)
    ensures
        refreshed_session(session, output).did == output.did@,
        refreshed_session(session, output).handle == output.handle@,
        refreshed_session(session, output).did_doc == opt_doc(output.did_doc),
{
}

/// A created account's session carries the account's tokens in their places, its
/// identity, and the email it was created with; it is active and holds nothing else.
pub proof fn law_created_session_holds_the_account(email: Option<Seq<char>>, output: CreateAccountOutput)
    ensures
        created_session(email, output).access_jwt == output.access_jwt@,
        created_session(email, output).refresh_jwt == output.refresh_jwt@,
        created_session(email, output).did == output.did@,
        created_session(email, output).handle == output.handle@,
        created_session(email, output).did_doc == opt_doc(output.did_doc),
        created_session(email, output).email == email,
        created_session(email, output).active == Some(true),
        created_session(email, output).email_auth_factor is None,
        created_session(email, output).email_confirmed is None,
        created_session(email, output).status is None,
{
}

/// A resumed session takes the profile that `getSession` returned (the DID document, the
/// email, whether it is confirmed, and the handle) and keeps the tokens, the DID and the
/// rest of the session that was resumed.
pub proof fn law_resumed_session_takes_the_profile(session: SessionView, output: GetSessionOutput)
    ensures
        resumed_session(session, output).did_doc == opt_doc(output.did_doc),
        resumed_session(session, output).email == opt_str(output.email),
        resumed_session(session, output).email_confirmed == output.email_confirmed,
        resumed_session(session, output).handle == output.handle@,
        resumed_session(session, output).access_jwt == session.access_jwt,
        resumed_session(session, output).refresh_jwt == session.refresh_jwt,
        resumed_session(session, output).did == session.did,
        resumed_session(session, output).active == session.active,
        resumed_session(session, output).email_auth_factor == session.email_auth_factor,
        resumed_session(session, output).status == session.status,
{
}

/// The value of the `atproto-proxy` header for a DID names the DID and the service apart:
/// its first `#` comes right after the DID.
pub proof fn law_proxy_header_separates(did: Seq<char>, service_type: Seq<char>)
    requires
        is_did_syntax(did),
    ensures
        proxy_header_text(did, service_type).subrange(0, did.len() as int) == did,
        proxy_header_text(did, service_type)[did.len() as int] == '#',
        forall|i: int| 0 <= i < did.len() ==> proxy_header_text(did, service_type)[i] != '#',
        proxy_header_text(did, service_type).skip(did.len() as int + 1) == service_type,
{
    let t = proxy_header_text(did, service_type);
    assert(t.subrange(0, did.len() as int) =~= did);
    assert(t.skip(did.len() as int + 1) =~= service_type);
    assert forall|i: int| 0 <= i < did.len() implies t[i] != '#' by {
        assert(t[i] == did[i]);
        if i >= 4 {
            let j = choose|j: int|
                #![trigger did[j]]
                4 < j < did.len() - 1 && did[j] == ':' && (forall|k: int|
                    4 <= k < j ==> crate::types::is_did_method_char(#[trigger] did[k])) && (forall|
                    k: int,
                | j < k < did.len() ==> is_did_id_char(#[trigger] did[k]));
            if i < j {
                assert(crate::types::is_did_method_char(did[i]));
            } else if i > j {
                assert(is_did_id_char(did[i]));
            }
        }
    }
}

/// The header value of a labeler begins with its DID, and is the DID alone unless the
/// labeler is asked to redact.
pub proof fn law_labeler_text_names_did(did: Seq<char>, redact: bool)
    ensures
        did.is_prefix_of(labeler_text(did, redact)),
        !redact ==> labeler_text(did, redact) == did,
        redact ==> labeler_text(did, redact).len() == did.len() + 7,
{
    assert(labeler_text(did, redact).subrange(0, did.len() as int) =~= did);
}

/// An authorization kept under a state is what a callback with that state finds, and a
/// callback removes it, so that the same state finds nothing a second time.
pub proof fn law_callback_consumes_state(contents: Map<Seq<char>, Stage>, state: Seq<char>, data: AuthorizationData)
    ensures
        contents.insert(state, Stage::Authorization(data)).contains_key(state),
        contents.insert(state, Stage::Authorization(data))[state] == Stage::Authorization(data),
        !contents.insert(state, Stage::Authorization(data)).remove(state).contains_key(state),
{
}

/// A cached value that is fresh at some time was fresh at every earlier time.
pub proof fn law_freshness_is_monotone(expires_at: Option<i128>, earlier: i128, later: i128)
    requires
        earlier <= later,
        is_fresh(expires_at, later),
    ensures
        is_fresh(expires_at, earlier),
{
}

} // verus!
