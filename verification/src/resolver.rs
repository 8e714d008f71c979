//! Resolvers and the wrappers that cache and throttle them.

use std::time::Duration;
use vstd::prelude::*;
use crate::store::{MapStore, MemoryMapStore, StoreKey};

verus! {

/// Something that resolves inputs to outputs, such as handles to DIDs.
pub trait Resolver {
    type Input;
    type Output;
    type Error;

    /// Whether the resolver, as it stands, may answer `r` when asked for `input`; a
    /// resolver that says nothing of its answers may answer anything.
    open spec fn answers(&self, input: Self::Input, r: Result<Option<Self::Output>, Self::Error>) -> bool {
        true
    }

    /// The output for `input`, `None` where there is none: an answer the resolver may give
    /// for `input`.
    fn resolve(&mut self, input: &Self::Input) -> (r: Result<Option<Self::Output>, Self::Error>)
        ensures
            old(self).answers(*input, r),
    ;
}

/// The configuration of a cache.
pub struct CachedResolverConfig {
    pub max_capacity: Option<u64>,
    pub time_to_live: Option<Duration>,
}

/// The configuration of a cache.
pub struct CacheConfig {
    pub max_capacity: Option<u64>,
    pub time_to_live: Option<Duration>,
}

/// A resolver whose outputs are kept, so that an input is resolved once.
pub struct CachedResolver<R: Resolver> where R::Input: View {
    resolver: R,
    cache: MemoryMapStore<R::Input, R::Output>,
    max_capacity: Option<u64>,
    time_to_live: Option<Duration>,
}

impl<R: Resolver> CachedResolver<R> where R::Input: StoreKey, R::Output: Clone {
    /// The outputs kept, by input.
    pub closed spec fn kept(&self) -> Map<<R::Input as View>::V, R::Output> {
        self.cache.map()
    }

    /// The most outputs kept, if bounded.
    pub closed spec fn capacity(&self) -> Option<u64> {
        self.max_capacity
    }

    /// Whether the cache may take one more output.
    pub open spec fn has_room(&self) -> bool {
        match self.capacity() {
            Some(n) => self.kept().len() < n,
            None => true,
        }
    }

    /// The resolver whose outputs are cached.
    pub closed spec fn resolver(&self) -> R {
        self.resolver
    }

    /// A resolver that caches what `resolver` resolves, with the bound of `config`.
    pub fn new(resolver: R, config: CachedResolverConfig) -> (r: Self)
        ensures
            r.resolver() == resolver,
            r.kept() == Map::<<R::Input as View>::V, R::Output>::empty(),
            r.capacity() == config.max_capacity,
    {
        CachedResolver {
            resolver,
            cache: MemoryMapStore::default(),
            max_capacity: config.max_capacity,
            time_to_live: config.time_to_live,
        }
    }

    /// The number of outputs kept.
    fn cached_len(&self) -> (r: usize)
        ensures
            r == self.kept().len(),
    {
        self.cache.len()
    }

    /// What a miss on `key` leaves in the cache for the result `r`: an output is kept when
    /// the cache has room, and nothing else changes.
    pub open spec fn missed(
        before: Self,
        key: <R::Input as View>::V,
        r: Result<Option<R::Output>, R::Error>,
        after: Self,
    ) -> bool {
        &&& after.capacity() == before.capacity()
        &&& match r {
            Ok(Some(v)) => if before.has_room() {
                after.kept().contains_key(key) && cloned(v, after.kept()[key])
                    && after.kept() == before.kept().insert(key, after.kept()[key])
            } else {
                after.kept() == before.kept()
            },
            _ => after.kept() == before.kept(),
        }
    }

    /// Ends a miss on `input` with what the inner resolver gave: the result is `inner`
    /// itself, and an output is kept while the cache has room (neither nothing found nor
    /// an error is kept).
    pub fn finish_miss(&mut self, input: &R::Input, inner: Result<Option<R::Output>, R::Error>) -> (r: Result<Option<R::Output>, R::Error>)
        ensures
            r == inner,
            final(self).resolver() == old(self).resolver(),
            !old(self).kept().contains_key(input@) ==> Self::missed(
                *old(self),
                input@,
                r,
                *final(self),
            ),
            old(self).kept().contains_key(input@) ==> final(self).kept().dom()
                == old(self).kept().dom() && final(self).capacity() == old(self).capacity(),
    {
        let output = match inner {
            Ok(Some(output)) => output,
            other => return other,
        };
        let room = match self.max_capacity {
            Some(n) => (self.cached_len() as u64) < n,
            None => true,
        };
        if room {
            let _ = self.cache.set(input.copy_key(), output.clone());
        }
        Ok(Some(output))
    }
}

impl<R: Resolver> Resolver for CachedResolver<R> where R::Input: StoreKey, R::Output: Clone {
    type Input = R::Input;
    type Output = R::Output;
    type Error = R::Error;

    /// A kept output is answered as a clone of it; for any other input, whatever the
    /// inner resolver may answer.
    open spec fn answers(&self, input: R::Input, r: Result<Option<R::Output>, R::Error>) -> bool {
        if self.kept().contains_key(input@) {
            r matches Ok(Some(v)) && cloned(self.kept()[input@], v)
        } else {
            self.resolver().answers(input, r)
        }
    }

    /// The output for `input`: the one kept if there is one, with the inner resolver left
    /// untouched; else the inner resolver is asked for `input` and `finish_miss` takes
    /// what it answers.
    fn resolve(&mut self, input: &R::Input) -> (r: Result<Option<R::Output>, R::Error>)
        ensures
            old(self).kept().contains_key(input@) ==> {
                &&& r matches Ok(Some(v)) && cloned(old(self).kept()[input@], v)
                &&& final(self).kept() == old(self).kept()
                &&& final(self).resolver() == old(self).resolver()
            },
            !old(self).kept().contains_key(input@) ==> {
                &&& old(self).resolver().answers(*input, r)
                &&& Self::missed(*old(self), input@, r, *final(self))
            },
            final(self).capacity() == old(self).capacity(),
    {
        if let Ok(Some(output)) = self.cache.get(input) {
            return Ok(Some(output));
        }
        let inner = self.resolver.resolve(input);
        self.finish_miss(input, inner)
    }
}

/// A resolver with a cache of its outputs, keyed by input.
pub struct Cached<T, K: View, V> {
    inner: T,
    cache: MemoryMapStore<K, V>,
    config: CacheConfig,
}

impl<T, K: View, V> Cached<T, K, V> {
    /// The wrapped resolver.
    pub closed spec fn inner(&self) -> T {
        self.inner
    }

    /// The outputs kept, by input.
    pub closed spec fn cached(&self) -> Map<K::V, V> {
        self.cache.map()
    }

    /// Wraps `inner` with an empty cache configured by `config`.
    pub fn new(inner: T, config: CacheConfig) -> (r: Self)
        ensures
            r.inner() == inner,
            r.cached() == Map::<K::V, V>::empty(),
    {
        Cached { inner, cache: MemoryMapStore::default(), config }
    }
}

/// Resolvers that can be wrapped with a cache.
pub trait Cacheable: Resolver + Sized where Self::Input: View {
    /// Wraps the resolver with an empty cache configured by `config`.
    fn cached(self, config: CacheConfig) -> (r: Cached<Self, Self::Input, Self::Output>)
        ensures
            r.inner() == self,
            r.cached() == Map::<<Self::Input as View>::V, Self::Output>::empty(),
    ;
}

impl<R: Resolver> Cacheable for R where R::Input: View {
    fn cached(self, config: CacheConfig) -> (r: Cached<Self, Self::Input, Self::Output>) {
        Cached::new(self, config)
    }
}

/// How a throttled resolution proceeds.
pub enum ThrottleStep<W> {
    /// A resolution of the same input is in flight: wait on its sender.
    Subscribe(W),
    /// This caller resolves on its own.
    Resolve,
}

/// A resolver that throttles another: a caller whose input has a sender in the store
/// waits on it; any other caller resolves on its own.
pub struct ThrottledResolver<R, S> {
    resolver: R,
    senders: S,
}

impl<R, S> ThrottledResolver<R, S> {
    /// The senders held, by input.
    pub closed spec fn pending(&self) -> S {
        self.senders
    }

    /// The resolver that is throttled.
    pub closed spec fn resolver(&self) -> R {
        self.resolver
    }

    /// A resolver that throttles `resolver`, with the senders held in `senders`.
    pub fn new(resolver: R, senders: S) -> (r: Self)
        ensures
            r.resolver() == resolver,
            r.pending() == senders,
    {
        ThrottledResolver { resolver, senders }
    }
}

impl<R: Resolver, S> ThrottledResolver<R, S> where R::Input: StoreKey {
    /// Starts resolving `input`: where the store holds a sender for it, the caller waits
    /// on a copy of it; else the caller resolves on its own. The store is only read: no
    /// sender is registered here.
    pub fn begin<W: Clone>(&self, input: &R::Input) -> (r: Result<ThrottleStep<W>, S::Error>)
        where
            S: MapStore<R::Input, W>,
        ensures
            self.pending().infallible() ==> r is Ok,
            r matches Ok(step) ==> match step {
                ThrottleStep::Subscribe(w) => {
                    &&& self.pending().contents().contains_key(input@)
                    &&& cloned(self.pending().contents()[input@], w)
                },
                ThrottleStep::Resolve => !self.pending().contents().contains_key(input@),
            },
    {
        match self.senders.get(input) {
            Err(e) => Err(e),
            Ok(Some(w)) => Ok(ThrottleStep::Subscribe(w)),
            Ok(None) => Ok(ThrottleStep::Resolve),
        }
    }
}

/// The outcome of a throttled resolution and what goes to the callers that wait on it.
pub struct Resolved<O, E> {
    /// What the caller that resolved gets.
    pub result: Result<Option<O>, E>,
    /// What is sent to the waiting callers, if anything is: the output, or `None` for an
    /// error.
    pub broadcast: Option<Option<O>>,
}

/// Whether `r` is what a resolution that got `inner` hands out: `inner` itself
/// to the caller; to the waiting callers the output, `None` for an error, and nothing
/// where nothing was found.
pub open spec fn registered_outcome<O: Clone, E>(inner: Result<Option<O>, E>, r: Resolved<O, E>) -> bool {
    &&& r.result == inner
    &&& match inner {
        Ok(None) => r.broadcast is None,
        Ok(Some(v)) => r.broadcast matches Some(Some(b)) && cloned(v, b),
        Err(_) => r.broadcast == Some(None::<O>),
    }
}

impl<R: Resolver, S> ThrottledResolver<R, S> where R::Input: StoreKey, R::Output: Clone {
    /// Resolves `input` for a caller that `begin` let resolve: the inner resolver is asked
    /// for `input`, the caller gets what it answers, and `finish_registered` says what is
    /// sent on. The store of senders is left as it was.
    pub fn resolve_registered(&mut self, input: &R::Input) -> (r: Resolved<R::Output, R::Error>)
        ensures
            old(self).resolver().answers(*input, r.result),
            registered_outcome(r.result, r),
            final(self).pending() == old(self).pending(),
    {
        let inner = self.resolver.resolve(input);
        Self::finish_registered(inner)
    }

    /// Ends a resolution with what the inner resolver gave: the caller gets `inner`, and
    /// what is sent on to the callers that wait is the output, `None` for an error, or
    /// nothing where nothing was found.
    pub fn finish_registered(inner: Result<Option<R::Output>, R::Error>) -> (r: Resolved<R::Output, R::Error>)
        ensures
            registered_outcome(inner, r),
    {
        match inner {
            Ok(None) => Resolved { result: Ok(None), broadcast: None },
            Ok(Some(v)) => {
                let b = v.clone();
                Resolved { result: Ok(Some(v)), broadcast: Some(Some(b)) }
            },
            Err(e) => Resolved { result: Err(e), broadcast: Some(None) },
        }
    }
}

/// An entry of a map: one that holds a value, or a vacant one.
pub enum Entry<T, V> {
    Occupied(T),
    Vacant(V),
}

/// A resolver wrapped so that one resolution of an input runs at a time, with its
/// pending resolutions kept in a store of type `S`.
pub struct Throttled<T, S> {
    inner: T,
    pending: S,
}

impl<T, S: Default> Throttled<T, S> {
    /// Wraps `inner`, with no resolution pending: the pending store is `S`'s default.
    pub fn new(inner: T) -> (r: Self)
        ensures
            r.inner() == inner,
            call_ensures(S::default, (), r.pending()),
    {
        Throttled { inner, pending: S::default() }
    }
}

impl<T, S> Throttled<T, S> {
    /// The wrapped resolver.
    pub closed spec fn inner(&self) -> T {
        self.inner
    }

    /// The store of pending resolutions.
    pub closed spec fn pending(&self) -> S {
        self.pending
    }
}

/// Resolvers that can be wrapped to throttle them.
pub trait Throttleable: Sized {
    /// Wraps the resolver, with no resolution pending.
    fn throttled<S: Default>(self) -> (r: Throttled<Self, S>)
        ensures
            r.inner() == self,
            call_ensures(S::default, (), r.pending()),
    ;
}

impl<R: Resolver> Throttleable for R {
    fn throttled<S: Default>(self) -> (r: Throttled<Self, S>) {
        Throttled::new(self)
    }
}

} // verus!
