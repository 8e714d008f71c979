//! A cached value that is fetched again once it has expired, with one fetch at a time.

use vstd::prelude::*;
use crate::oauth::Expired;

verus! {

/// A store wrapped for caching.
pub struct CachedStore<S> {
    pub store: S,
}

impl<S: Default> Default for CachedStore<S> {
    /// A cache over a default store.
    fn default() -> (r: Self)
        ensures
            call_ensures(S::default, (), r.store),
    {
        CachedStore { store: S::default() }
    }
}

/// The state of a cached value: the value, if one was fetched, and the sender of the
/// fetch in flight, if one is.
pub struct Locked<T, W> {
    inner: Option<T>,
    pending: Option<W>,
}

impl<T, W> Locked<T, W> {
    /// The value fetched, if any.
    pub closed spec fn value(&self) -> Option<T> {
        self.inner
    }

    /// The sender of the fetch in flight, if any.
    pub closed spec fn sender(&self) -> Option<W> {
        self.pending
    }
}

impl<T, W> Default for Locked<T, W> {
    /// Nothing fetched and no fetch in flight.
    fn default() -> (r: Self)
        ensures
            r.value() is None,
            r.sender() is None,
    {
        Locked { inner: None, pending: None }
    }
}

/// How a read of a cached value proceeds.
pub enum CachedStep<T, W> {
    /// The value held has not expired: here it is.
    Fresh(T),
    /// A fetch is in flight: wait on its sender.
    Subscribe(W),
    /// This caller fetches, after registering its sender, and reports with `complete`.
    Fetch,
}

/// Whether `value` is still valid at time `now`: it never expires, or not before `now`.
pub open spec fn is_fresh(expires_at: Option<i128>, now: i128) -> bool {
    match expires_at {
        Some(t) => now <= t,
        None => true,
    }
}

/// A value kept with its expiry, fetched again once it has expired.
pub struct Cached<T, W> {
    locked: Locked<T, W>,
}

impl<T: Expired + Clone, W: Clone> Cached<T, W> {
    /// The value held, if any.
    pub closed spec fn value(&self) -> Option<T> {
        self.locked.inner
    }

    /// The sender of the fetch in flight, if any.
    pub closed spec fn pending(&self) -> Option<W> {
        self.locked.pending
    }

    /// A cache that holds `inner`, with no fetch in flight.
    pub fn new(inner: T) -> (r: Self)
        ensures
            r.value() == Some(inner),
            r.pending() is None,
    {
        Cached { locked: Locked { inner: Some(inner), pending: None } }
    }

    /// Whether `r` and `after` are what a read at time `now` with `sender` gives from
    /// `before`: a value that has not expired is handed out as a clone; else the caller
    /// waits on a clone of the sender in flight, or, where none is, registers `sender` and
    /// fetches. The value held does not change.
    pub open spec fn read_at(before: Self, now: i128, sender: W, r: CachedStep<T, W>, after: Self) -> bool {
        &&& after.value() == before.value()
        &&& match before.value() {
            Some(v) if is_fresh(v.spec_expires_at(), now) => {
                &&& r matches CachedStep::Fresh(c) && cloned(v, c)
                &&& after.pending() == before.pending()
            },
            _ => match before.pending() {
                Some(w) => {
                    &&& r matches CachedStep::Subscribe(c) && cloned(w, c)
                    &&& after.pending() == before.pending()
                },
                None => {
                    &&& r is Fetch
                    &&& after.pending() == Some(sender)
                },
            },
        }
    }

    /// Reads the value at time `now`: a value that has not expired is returned; else the
    /// caller waits on the fetch in flight, or starts one with `sender`.
    pub fn get_cached(&mut self, now: i128, sender: W) -> (r: CachedStep<T, W>)
        ensures
            Self::read_at(*old(self), now, sender, r, *final(self)),
    {
        if let Some(value) = &self.locked.inner {
            let fresh = match value.expires_at() {
                Some(t) => now <= t,
                None => true,
            };
            if fresh {
                return CachedStep::Fresh(value.clone());
            }
        }
        match &self.locked.pending {
            Some(w) => CachedStep::Subscribe(w.clone()),
            None => {
                self.locked.pending = Some(sender);
                CachedStep::Fetch
            },
        }
    }

    /// Reads the value at the current time of the system clock, in nanoseconds since the
    /// Unix epoch, as `get_cached` does at that time; `None`, with nothing changed, where
    /// the clock reads before the epoch or too far after it for an `i128`.
    pub fn get_cached_now(&mut self, sender: W) -> (r: Option<CachedStep<T, W>>)
        ensures
            r is None ==> *final(self) == *old(self),
            r matches Some(step) ==> exists|now: i128| Self::read_at(*old(self), now, sender, step, *final(self)),
            exists|reading: Option<i128>|
                #![trigger is_clock_nanos(reading)]
                is_clock_nanos(reading) && match reading {
                    Some(now) => r matches Some(step) && Self::read_at(*old(self), now, sender, step, *final(self)),
                    None => r is None && *final(self) == *old(self),
                },
    {
        match unix_nanos_now() {
            Some(now) => {
                let step = self.get_cached(now, sender);
                Some(step)
            },
            None => None,
        }
    }

    /// Ends the fetch in flight with its result: a fetched value is held and returned, to
    /// be sent to the callers that wait; a failed fetch leaves the value as it was.
    pub fn complete<E>(&mut self, result: Result<T, E>) -> (r: Option<T>)
        ensures
            final(self).pending() is None,
            match result {
                Ok(v) => final(self).value() == Some(v) && (r matches Some(c) && cloned(v, c)),
                Err(_) => final(self).value() == old(self).value() && r is None,
            },
    {
        self.locked.pending = None;
        match result {
            Ok(value) => {
                let sent = value.clone();
                self.locked.inner = Some(value);
                Some(sent)
            },
            Err(_) => None,
        }
    }
}

/// A reading of the system clock, `std::time::SystemTime`, held opaque.
#[verifier::external_type_specification]
#[verifier::external_body]
pub struct ExSystemTime(std::time::SystemTime);

/// The reading of the system clock, from `std::time::SystemTime::now`; the contract says
/// nothing of it, as it depends on the clock.
#[verifier::external_body]
fn system_now() -> (r: std::time::SystemTime) {
    std::time::SystemTime::now()
}

/// `std::time::SystemTime::duration_since` the Unix epoch: `None` where `t` is before the
/// epoch. The contract says nothing more, as a clock reading is opaque here.
#[verifier::external_body]
fn since_unix_epoch(t: std::time::SystemTime) -> (r: Option<std::time::Duration>) {
    t.duration_since(std::time::UNIX_EPOCH).ok()
}

/// `std::time::Duration::as_nanos`, the whole nanoseconds of `d`; the contract says
/// nothing of it, as a `Duration` is opaque here.
#[verifier::external_body]
fn whole_nanos(d: std::time::Duration) -> (r: u128) {
    d.as_nanos()
}

/// Whether `r` is a reading of the system clock in whole nanoseconds since the Unix
/// epoch: the clock was read (`system_now`), its distance from the epoch taken
/// (`since_unix_epoch`) and counted in nanoseconds (`whole_nanos`); `None` where the clock
/// reads before the epoch or the count does not fit in an `i128`.
pub closed spec fn is_clock_nanos(r: Option<i128>) -> bool {
    exists|t: std::time::SystemTime, e: Option<std::time::Duration>|
        #![trigger call_ensures(system_now, (), t), call_ensures(since_unix_epoch, (t,), e)]
        call_ensures(system_now, (), t) && call_ensures(since_unix_epoch, (t,), e) && match e {
            None => r is None,
            Some(d) => exists|n: u128|
                #![trigger call_ensures(whole_nanos, (d,), n)]
                call_ensures(whole_nanos, (d,), n) && if n <= 0x7fff_ffff_ffff_ffff_ffff_ffff_ffff_ffff {
                    r == Some(n as i128)
                } else {
                    r is None
                },
        }
}

/// The nanoseconds since the Unix epoch by the system clock, where the clock reads after
/// the epoch and the count fits in an `i128`.
pub fn unix_nanos_now() -> (r: Option<i128>)
    ensures
        is_clock_nanos(r),
{
    let read_clock = system_now;
    let t = read_clock();
    let ghost tg = t;
    let since = since_unix_epoch;
    let e = since(t);
    match e {
        Some(d) => {
            let ghost dg = d;
            let count = whole_nanos;
            let nanos = count(d);
            if nanos <= 0x7fff_ffff_ffff_ffff_ffff_ffff_ffff_ffff {
                proof {
                    assert(call_ensures(whole_nanos, (dg,), nanos));
                }
                Some(nanos as i128)
            } else {
                None
            }
        },
        None => None,
    }
}

} // verus!
