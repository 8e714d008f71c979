use atrium::cached::{Cached, CachedStep};
use atrium::oauth::TokenSet;
use atrium::resolver::{
    CacheConfig, CachedResolver, CachedResolverConfig, Resolver, ThrottleStep, Throttleable,
    Throttled, ThrottledResolver,
};
use atrium::store::{MapStore, MemoryMapStore};
use atrium::xrpc::JwtTokenType;

struct Counting {
    calls: u32,
}

impl Resolver for Counting {
    type Input = String;
    type Output = usize;
    type Error = String;

    fn resolve(&mut self, input: &String) -> Result<Option<usize>, String> {
        self.calls += 1;
        match input.as_str() {
            "missing" => Ok(None),
            "fail" => Err("boom".to_string()),
            s => Ok(Some(s.len())),
        }
    }
}

#[test]
fn cached_resolver_resolves_once() {
    let mut r = CachedResolver::new(Counting { calls: 0 }, CachedResolverConfig { max_capacity: None, time_to_live: None });
    assert_eq!(r.resolve(&"abc".to_string()), Ok(Some(3)));
    assert_eq!(r.resolve(&"abc".to_string()), Ok(Some(3)));
    assert_eq!(r.resolve(&"missing".to_string()), Ok(None));
    assert_eq!(r.resolve(&"fail".to_string()), Err("boom".to_string()));
    assert_eq!(r.resolve(&"fail".to_string()), Err("boom".to_string()));
}

#[test]
fn cached_resolver_respects_capacity() {
    let mut r = CachedResolver::new(Counting { calls: 0 }, CachedResolverConfig { max_capacity: Some(1), time_to_live: None });
    assert_eq!(r.resolve(&"a".to_string()), Ok(Some(1)));
    assert_eq!(r.resolve(&"bb".to_string()), Ok(Some(2)));
    assert_eq!(r.resolve(&"a".to_string()), Ok(Some(1)));
    let _ = CacheConfig { max_capacity: Some(1), time_to_live: Some(std::time::Duration::from_secs(1)) };
}

#[test]
fn throttled_resolver_waits_only_on_a_stored_sender() {
    let mut store: MemoryMapStore<String, u32> = MemoryMapStore::default();
    let _ = store.set("busy".to_string(), 7u32);
    let mut t: ThrottledResolver<Counting, MemoryMapStore<String, u32>> = ThrottledResolver::new(Counting { calls: 0 }, store);
    assert!(matches!(t.begin::<u32>(&"busy".to_string()), Ok(ThrottleStep::Subscribe(7))));
    assert!(matches!(t.begin::<u32>(&"abc".to_string()), Ok(ThrottleStep::Resolve)));
    let done = t.resolve_registered(&"abc".to_string());
    assert_eq!(done.result, Ok(Some(3)));
    assert_eq!(done.broadcast, Some(Some(3)));
    // no sender is registered, so the next caller resolves on its own too
    assert!(matches!(t.begin::<u32>(&"abc".to_string()), Ok(ThrottleStep::Resolve)));
    let none = t.resolve_registered(&"missing".to_string());
    assert_eq!(none.result, Ok(None));
    assert_eq!(none.broadcast, None);
    let err = t.resolve_registered(&"fail".to_string());
    assert_eq!(err.result, Err("boom".to_string()));
    assert_eq!(err.broadcast, Some(None));
    assert!(matches!(t.begin::<u32>(&"busy".to_string()), Ok(ThrottleStep::Subscribe(7))));
}

#[test]
fn throttled_resolver_hands_on_inner_result() {
    type T = ThrottledResolver<Counting, MemoryMapStore<String, u32>>;
    let done = T::finish_registered(Ok(Some(42)));
    assert_eq!(done.result, Ok(Some(42)));
    assert_eq!(done.broadcast, Some(Some(42)));
    let none = T::finish_registered(Ok(None));
    assert_eq!(none.result, Ok(None));
    assert_eq!(none.broadcast, None);
    let err = T::finish_registered(Err("x".to_string()));
    assert_eq!(err.broadcast, Some(None));
}

#[test]
fn cached_resolver_keeps_inner_result_on_miss() {
    let mut r = CachedResolver::new(Counting { calls: 0 }, CachedResolverConfig { max_capacity: None, time_to_live: None });
    assert_eq!(r.finish_miss(&"abc".to_string(), Ok(Some(99))), Ok(Some(99)));
    assert_eq!(r.resolve(&"abc".to_string()), Ok(Some(99)));
    assert_eq!(r.finish_miss(&"zz".to_string(), Ok(None)), Ok(None));
    assert_eq!(r.resolve(&"zz".to_string()), Ok(Some(2)));
    assert_eq!(r.finish_miss(&"q".to_string(), Err("down".to_string())), Err("down".to_string()));
}

#[test]
fn throttled_wraps_resolver() {
    let t: Throttled<Counting, MemoryMapStore<String, u32>> = Throttled::new(Counting { calls: 0 });
    let _ = t;
    let u: Throttled<Counting, MemoryMapStore<String, u32>> = Counting { calls: 0 }.throttled();
    let _ = u;
}

fn tokens(expires_at: Option<i128>, access: &str) -> TokenSet {
    TokenSet {
        iss: "i".to_string(),
        sub: "s".to_string(),
        aud: "a".to_string(),
        scope: None,
        refresh_token: None,
        access_token: access.to_string(),
        token_type: JwtTokenType::DPoP,
        expires_at,
    }
}

#[test]
fn cached_value_until_expiry() {
    let mut c: Cached<TokenSet, u32> = Cached::new(tokens(Some(100), "t1"));
    assert!(matches!(c.get_cached(100, 1), CachedStep::Fresh(ref t) if t.access_token == "t1"));
    assert!(matches!(c.get_cached(101, 1), CachedStep::Fetch));
    assert!(matches!(c.get_cached(102, 2), CachedStep::Subscribe(1)));
    let sent = c.complete::<String>(Ok(tokens(Some(200), "t2")));
    assert_eq!(sent.map(|t| t.access_token), Some("t2".to_string()));
    assert!(matches!(c.get_cached(150, 3), CachedStep::Fresh(ref t) if t.access_token == "t2"));
    assert!(matches!(c.get_cached(300, 4), CachedStep::Fetch));
    assert!(c.complete::<String>(Err("down".to_string())).is_none());
    assert!(matches!(c.get_cached(300, 5), CachedStep::Fetch));
    let mut forever: Cached<TokenSet, u32> = Cached::new(tokens(None, "t"));
    assert!(matches!(forever.get_cached(i128::MAX, 1), CachedStep::Fresh(_)));
    assert!(matches!(forever.get_cached_now(1), Some(CachedStep::Fresh(ref t)) if t.access_token == "t"));
}
