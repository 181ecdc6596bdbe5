use vstd::prelude::*;
use crate::clock::{elapsed_nanos, instant_now};
use crate::string_map::StringMap;

verus! {

/// The request times (in nanoseconds) of `ts` that lie after `since`, in order.
pub open spec fn after(ts: Seq<u128>, since: int) -> Seq<u128>
    decreases ts.len(),
{
    if ts.len() == 0 {
        ts
    } else {
        let rest = after(ts.drop_last(), since);
        if ts.last() > since {
            rest.push(ts.last())
        } else {
            rest
        }
    }
}

/// Keeping only the times after a point keeps no more than there were.
pub proof fn lemma_after_len(ts: Seq<u128>, since: int)
    ensures
        after(ts, since).len() <= ts.len(),
        forall|i: int| 0 <= i < after(ts, since).len() ==> after(ts, since)[i] > since,
    decreases ts.len(),
{
    if ts.len() > 0 {
        lemma_after_len(ts.drop_last(), since);
    }
}

/// The length in nanoseconds of a window of `window_secs` seconds.
pub open spec fn window_nanos(window_secs: u64) -> int {
    window_secs * 1_000_000_000
}

/// What a rate limiter remembers of one key after a request at `now`:
/// the earlier requests still inside the window and, when the request is
/// let through, the request itself.
pub open spec fn history_after_check(ts: Seq<u128>, now: u128, max_requests: usize, window_secs: u64) -> Seq<u128> {
    let kept = after(ts, now - window_nanos(window_secs));
    if kept.len() < max_requests {
        kept.push(now)
    } else {
        kept
    }
}

/// Whether a request at `now` is let through, given the earlier requests of
/// its key: it is when fewer than `max_requests` of them lie within the
/// window that ends at `now`.
pub open spec fn allows(ts: Seq<u128>, now: u128, max_requests: usize, window_secs: u64) -> bool {
    after(ts, now - window_nanos(window_secs)).len() < max_requests
}

/// Lets through at most `max_requests` requests per key within any window
/// of `window_secs` seconds.
pub struct RateLimiter {
    requests: StringMap<Vec<u128>>,
    origin: std::time::Instant,
    max_requests: usize,
    window_secs: u64,
}

impl RateLimiter {
    /// The requests of `key` that the limiter remembers, as times in
    /// nanoseconds on its own clock.
    pub closed spec fn history(&self, key: Seq<char>) -> Seq<u128> {
        if self.requests@.contains_key(key) {
            self.requests@[key]@
        } else {
            Seq::empty()
        }
    }

    /// The number of requests let through per window.
    pub closed spec fn max_requests(&self) -> usize {
        self.max_requests
    }

    /// The length of the window in seconds.
    pub closed spec fn window_secs(&self) -> u64 {
        self.window_secs
    }

    /// A limiter that has seen no request.
    pub fn new(max_requests: usize, window_secs: u64) -> (r: Self)
        ensures
            r.max_requests() == max_requests,
            r.window_secs() == window_secs,
            forall|k: Seq<char>| r.history(k) == Seq::<u128>::empty(),
    {
        RateLimiter {
            requests: StringMap::new(),
            origin: instant_now(),
            max_requests,
            window_secs,
        }
    }

    /// Decides a request of `key` made at `now` (nanoseconds on the
    /// limiter's clock): requests older than the window are forgotten, and
    /// the request is let through, and remembered, when fewer than
    /// `max_requests` remain.
    pub fn check_at(&mut self, key: &str, now: u128) -> (ok: bool)
        ensures
            ok == allows(old(self).history(key@), now, old(self).max_requests(), old(self).window_secs()),
            final(self).history(key@) == history_after_check(
                old(self).history(key@),
                now,
                old(self).max_requests(),
                old(self).window_secs(),
            ),
            forall|k: Seq<char>| k != key@ ==> final(self).history(k) == old(self).history(k),
            final(self).max_requests() == old(self).max_requests(),
            final(self).window_secs() == old(self).window_secs(),
    {
        let ghost old_map = self.requests@;
        let ghost ts = self.history(key@);
        let window = (self.window_secs as u128) * 1_000_000_000;
        let previous = match self.requests.insert(key, Vec::new()) {
            Some(v) => v,
            None => Vec::new(),
        };
        assert(previous@ == ts);
        let ghost since = now - window_nanos(self.window_secs);
        let mut kept: Vec<u128> = Vec::new();
        let mut i: usize = 0;
        assert(previous@.subrange(0, 0) =~= Seq::<u128>::empty());
        while i < previous.len()
            invariant
                i <= previous@.len(),
                since == now - window as int,
                kept@ == after(previous@.subrange(0, i as int), since),
            decreases previous.len() - i,
        {
            assert(previous@.subrange(0, i + 1).drop_last() =~= previous@.subrange(0, i as int));
            let t = previous[i];
            let recent = if now >= window {
                t > now - window
            } else {
                true
            };
            if recent {
                kept.push(t);
            }
            i = i + 1;
        }
        assert(previous@.subrange(0, previous@.len() as int) =~= previous@);
        let ok = kept.len() < self.max_requests;
        if ok {
            kept.push(now);
        }
        self.requests.insert(key, kept);
        proof {
            assert forall|k: Seq<char>| k != key@ implies self.history(k) == old(self).history(k) by {
                assert(self.requests@.contains_key(k) == old_map.contains_key(k));
            }
        }
        ok
    }

    /// Decides a request of `key` made now; see `check_at`.
    pub fn check(&mut self, key: &str) -> (ok: bool)
        ensures
            exists|now: u128|
                ok == allows(old(self).history(key@), now, old(self).max_requests(), old(self).window_secs())
                    && final(self).history(key@) == history_after_check(
                    old(self).history(key@),
                    now,
                    old(self).max_requests(),
                    old(self).window_secs(),
                ),
            forall|k: Seq<char>| k != key@ ==> final(self).history(k) == old(self).history(k),
    {
        let now = elapsed_nanos(&self.origin);
        self.check_at(key, now)
    }

    /// Decides a request from the client at `ip`; see `check`.
    pub fn check_ip(&mut self, ip: &str) -> (ok: bool)
        ensures
            exists|now: u128|
                ok == allows(old(self).history(ip@), now, old(self).max_requests(), old(self).window_secs())
                    && final(self).history(ip@) == history_after_check(
                    old(self).history(ip@),
                    now,
                    old(self).max_requests(),
                    old(self).window_secs(),
                ),
            forall|k: Seq<char>| k != ip@ ==> final(self).history(k) == old(self).history(k),
    {
        self.check(ip)
    }
}

/// A limiter never remembers more than `max_requests` requests of a key,
/// and a request it lets through always finds fewer than `max_requests`
/// earlier requests of its key within the window.
pub proof fn lemma_never_more_than_max(ts: Seq<u128>, now: u128, max_requests: usize, window_secs: u64)
    requires
        ts.len() <= max_requests,
    ensures
        history_after_check(ts, now, max_requests, window_secs).len() <= max_requests,
        allows(ts, now, max_requests, window_secs) ==> history_after_check(
            ts,
            now,
            max_requests,
            window_secs,
        ).len() == after(ts, now - window_nanos(window_secs)).len() + 1,
        !allows(ts, now, max_requests, window_secs) ==> after(
            ts,
            now - window_nanos(window_secs),
        ).len() >= max_requests,
{
    lemma_after_len(ts, now - window_nanos(window_secs));
}

/// Times all at or before `since` leave nothing after it; times all after
/// it are all kept.
proof fn lemma_after_all_or_none(ts: Seq<u128>, since: int)
    ensures
        (forall|i: int| 0 <= i < ts.len() ==> #[trigger] ts[i] <= since) ==> after(ts, since).len()
            == 0,
        (forall|i: int| 0 <= i < ts.len() ==> #[trigger] ts[i] > since) ==> after(ts, since) == ts,
    decreases ts.len(),
{
    if ts.len() > 0 {
        lemma_after_all_or_none(ts.drop_last(), since);
        if forall|i: int| 0 <= i < ts.len() ==> #[trigger] ts[i] <= since {
            assert(forall|i: int|
                0 <= i < ts.drop_last().len() ==> #[trigger] ts.drop_last()[i] == ts[i]);
            assert(ts.last() == ts[ts.len() - 1]);
        }
        if forall|i: int| 0 <= i < ts.len() ==> #[trigger] ts[i] > since {
            assert(forall|i: int|
                0 <= i < ts.drop_last().len() ==> #[trigger] ts.drop_last()[i] == ts[i]);
            assert(ts.last() == ts[ts.len() - 1]);
            assert(ts.drop_last().push(ts.last()) =~= ts);
        }
    }
}

/// The window slides: once every earlier request of a key is at least
/// `window_secs` seconds old, a limiter that lets any request through lets
/// the next one through and then remembers only it; while `max_requests`
/// earlier requests all lie within the last `window_secs` seconds, the
/// next one is refused and nothing is remembered.
pub proof fn lemma_window_slides(ts: Seq<u128>, now: u128, max_requests: usize, window_secs: u64)
    ensures
        (max_requests > 0 && forall|i: int|
            0 <= i < ts.len() ==> #[trigger] ts[i] + window_secs * 1_000_000_000 <= now) ==> {
            &&& allows(ts, now, max_requests, window_secs)
            &&& history_after_check(ts, now, max_requests, window_secs) == seq![now]
        },
        (ts.len() >= max_requests && forall|i: int|
            0 <= i < ts.len() ==> #[trigger] ts[i] + window_secs * 1_000_000_000 > now) ==> {
            &&& !allows(ts, now, max_requests, window_secs)
            &&& history_after_check(ts, now, max_requests, window_secs) == ts
        },
{
    let since = now - window_nanos(window_secs);
    lemma_after_all_or_none(ts, since);
    if max_requests > 0 && forall|i: int|
        0 <= i < ts.len() ==> #[trigger] ts[i] + window_secs * 1_000_000_000 <= now {
        assert(forall|i: int| 0 <= i < ts.len() ==> #[trigger] ts[i] <= since);
        assert(after(ts, since).push(now) =~= seq![now]);
    }
    if ts.len() >= max_requests && forall|i: int|
        0 <= i < ts.len() ==> #[trigger] ts[i] + window_secs * 1_000_000_000 > now {
        assert(forall|i: int| 0 <= i < ts.len() ==> #[trigger] ts[i] > since);
    }
}

} // verus!
