//! Sliding-window rate limiter keyed by strings.
//!
//! Time is passed in by the caller as nanoseconds on a monotonic clock; the
//! limiter keeps, for every key, the times of the requests it admitted that
//! may still fall inside the window.

use vstd::prelude::*;
use crate::text::concat2;

verus! {

/// Nanoseconds per second.
pub const NANOS_PER_SEC: u64 = 1_000_000_000;

/// A request made at `t` still counts at `now`: the time elapsed since it
/// (zero if `t` lies in the future) is shorter than the window.
pub open spec fn in_window(now: u64, t: u64, window_secs: u64) -> bool {
    (if t <= now {
        now - t
    } else {
        0
    }) < window_secs * NANOS_PER_SEC
}

/// The entries of `s` that still count at `now`, in order.
pub open spec fn recent(s: Seq<u64>, now: u64, window_secs: u64) -> Seq<u64>
    decreases s.len(),
{
    if s.len() == 0 {
        Seq::empty()
    } else {
        let r = recent(s.drop_last(), now, window_secs);
        if in_window(now, s.last(), window_secs) {
            r.push(s.last())
        } else {
            r
        }
    }
}

/// One decision of the limiter for a key whose kept history is `hist`: the
/// entries outside the window are dropped, and the request is admitted, and
/// recorded, when fewer than `limit` remain.
pub open spec fn decide(hist: Seq<u64>, now: u64, limit: nat, window_secs: u64) -> (bool, Seq<u64>) {
    let kept = recent(hist, now, window_secs);
    if kept.len() < limit {
        (true, kept.push(now))
    } else {
        (false, kept)
    }
}

/// The list stored for key `k` in an association list (first match wins).
pub open spec fn lookup(s: Seq<(Seq<char>, Seq<u64>)>, k: Seq<char>) -> Seq<u64>
    decreases s.len(),
{
    if s.len() == 0 {
        Seq::empty()
    } else if s[0].0 == k {
        s[0].1
    } else {
        lookup(s.drop_first(), k)
    }
}

/// Admits at most `max_requests` requests per key within any window of
/// `window_secs` seconds. Besides the kept histories it records, as ghost
/// state, every request it was asked about and every one it admitted.
pub struct RateLimiter {
    state: Vec<(String, Vec<u64>)>,
    max_requests: usize,
    window_secs: u64,
    asked: Ghost<Map<Seq<char>, Seq<u64>>>,
    admitted: Ghost<Map<Seq<char>, Seq<u64>>>,
}

/// The list a ghost map holds for `key`, empty when it holds none.
pub open spec fn list_of(m: Map<Seq<char>, Seq<u64>>, key: Seq<char>) -> Seq<u64> {
    if m.dom().contains(key) {
        m[key]
    } else {
        Seq::empty()
    }
}

/// The times are in order.
pub open spec fn in_time_order(times: Seq<u64>) -> bool {
    forall|i: int, j: int| 0 <= i <= j < times.len() ==> times[i] <= times[j]
}

impl RateLimiter {
    /// The state as an association list of views.
    pub closed spec fn entries(&self) -> Seq<(Seq<char>, Seq<u64>)> {
        self.state@.map_values(|e: (String, Vec<u64>)| (e.0@, e.1@))
    }

    /// Times of the admitted requests for `key` that the limiter keeps.
    pub open spec fn history(&self, key: Seq<char>) -> Seq<u64> {
        lookup(self.entries(), key)
    }

    /// Most requests admitted per window.
    pub closed spec fn limit(&self) -> nat {
        self.max_requests as nat
    }

    /// Window length in seconds.
    pub closed spec fn window(&self) -> u64 {
        self.window_secs
    }

    /// Times of all the requests for `key` the limiter was asked about, in
    /// the order of the calls.
    pub closed spec fn requests(&self, key: Seq<char>) -> Seq<u64> {
        list_of(self.asked@, key)
    }

    /// Times of the requests for `key` the limiter admitted, in order.
    pub closed spec fn granted(&self, key: Seq<char>) -> Seq<u64> {
        list_of(self.admitted@, key)
    }

    /// The limiter is consistent with its record: for every key, its kept
    /// history and the admitted requests are what running the requests it
    /// was asked about through `decide`, one by one, yields.
    pub open spec fn wf(&self) -> bool {
        forall|k: Seq<char>|
            #[trigger] run(self.requests(k), self.limit(), self.window()) == (
                self.history(k),
                self.granted(k),
            )
    }

    /// An empty limiter.
    pub fn new(max_requests: usize, window_secs: u64) -> (r: Self)
        ensures
            r.wf(),
            r.limit() == max_requests,
            r.window() == window_secs,
            forall|k: Seq<char>| r.history(k) == Seq::<u64>::empty(),
            forall|k: Seq<char>| r.requests(k) == Seq::<u64>::empty(),
            forall|k: Seq<char>| r.granted(k) == Seq::<u64>::empty(),
    {
        let r = RateLimiter {
            state: Vec::new(),
            max_requests,
            window_secs,
            asked: Ghost(Map::empty()),
            admitted: Ghost(Map::empty()),
        };
        assert(r.entries() =~= Seq::<(Seq<char>, Seq<u64>)>::empty());
        r
    }

    /// Decides whether a request for `key` at time `now` is admitted: the
    /// entries older than the window are dropped, and the request is admitted
    /// (and recorded) when fewer than `max_requests` remain.
    pub fn is_allowed(&mut self, key: &str, now: u64) -> (allowed: bool)
        requires
            old(self).wf(),
        ensures
            final(self).wf(),
            final(self).requests(key@) == old(self).requests(key@).push(now),
            final(self).granted(key@) == if allowed {
                old(self).granted(key@).push(now)
            } else {
                old(self).granted(key@)
            },
            forall|k: Seq<char>| k != key@ ==> final(self).requests(k) == old(self).requests(k),
            forall|k: Seq<char>| k != key@ ==> final(self).granted(k) == old(self).granted(k),
            final(self).limit() == old(self).limit(),
            final(self).window() == old(self).window(),
            (allowed, final(self).history(key@)) == decide(
                old(self).history(key@),
                now,
                old(self).limit(),
                old(self).window(),
            ),
            forall|k: Seq<char>| k != key@ ==> final(self).history(k) == old(self).history(k),
    {
        let key_string = key.to_owned();
        let ghost s0 = self.entries();
        let n = self.state.len();
        let mut i: usize = 0;
        while i < n && self.state[i].0 != key_string
            invariant
                n == self.state@.len(),
                i <= n,
                s0 == self.entries(),
                key_string@ == key@,
                forall|j: int| 0 <= j < i ==> s0[j].0 != key@,
            decreases n - i,
        {
            i = i + 1;
        }
        let ghost old_list = lookup(s0, key@);
        let empty: Vec<u64> = Vec::new();
        let current: &Vec<u64> = if i < n {
            &self.state[i].1
        } else {
            &empty
        };
        proof {
            if i < n {
                lemma_lookup_at(s0, key@, i as int);
            } else {
                lemma_lookup_absent(s0, key@);
            }
        }
        assert(current@ == old_list);
        let kept = keep_recent(current, now, self.window_secs);
        let mut list = kept;
        let allowed = list.len() < self.max_requests;
        if allowed {
            list.push(now);
        }
        let ghost new_list = list@;
        if i < n {
            self.state.set(i, (key_string, list));
            proof {
                assert(self.entries() =~= s0.update(i as int, (key@, new_list)));
                lemma_lookup_update(s0, key@, new_list, i as int);
            }
        } else {
            self.state.push((key_string, list));
            proof {
                assert(self.entries() =~= s0.push((key@, new_list)));
                lemma_lookup_push(s0, key@, new_list);
            }
        }
        let ghost req0 = list_of(self.asked@, key@);
        let ghost gr0 = list_of(self.admitted@, key@);
        let ghost gr1 = if allowed {
            gr0.push(now)
        } else {
            gr0
        };
        self.asked = Ghost(self.asked@.insert(key@, req0.push(now)));
        self.admitted = Ghost(self.admitted@.insert(key@, gr1));
        proof {
            assert(req0.push(now).drop_last() =~= req0);
            assert forall|k: Seq<char>|
                #[trigger] run(self.requests(k), self.limit(), self.window()) == (
                    self.history(k),
                    self.granted(k),
                ) by {
                if k != key@ {
                    assert(self.requests(k) == old(self).requests(k));
                    assert(self.granted(k) == old(self).granted(k));
                    assert(run(old(self).requests(k), old(self).limit(), old(self).window()) == (
                        old(self).history(k),
                        old(self).granted(k),
                    ));
                } else {
                    assert(run(old(self).requests(k), old(self).limit(), old(self).window()) == (
                        old(self).history(k),
                        old(self).granted(k),
                    ));
                }
            }
        }
        allowed
    }
}

/// The entries of `list` that still count at `now`.
fn keep_recent(list: &Vec<u64>, now: u64, window_secs: u64) -> (r: Vec<u64>)
    ensures
        r@ == recent(list@, now, window_secs),
{
    let mut r: Vec<u64> = Vec::new();
    let mut i: usize = 0;
    let window_nanos: u128 = (window_secs as u128) * (NANOS_PER_SEC as u128);
    while i < list.len()
        invariant
            i <= list@.len(),
            window_nanos == window_secs * NANOS_PER_SEC,
            r@ == recent(list@.take(i as int), now, window_secs),
        decreases list.len() - i,
    {
        let t = list[i];
        let age: u64 = if t <= now {
            now - t
        } else {
            0
        };
        assert(list@.take(i + 1).drop_last() =~= list@.take(i as int));
        if (age as u128) < window_nanos {
            r.push(t);
        }
        i = i + 1;
    }
    assert(list@.take(list@.len() as int) =~= list@);
    r
}

/// Limiter key for AI generation requests of a user.
pub fn ai_rate_key(user_id: &str) -> (k: String)
    ensures
        k@ == "ai:"@ + user_id@,
{
    concat2("ai:", user_id)
}

/// Limiter key for image generation requests of a user.
pub fn image_rate_key(user_id: &str) -> (k: String)
    ensures
        k@ == "image:"@ + user_id@,
{
    concat2("image:", user_id)
}

// ---------------------------------------------------------------------------
// The rate limit over a run of requests
// ---------------------------------------------------------------------------

/// Processes the request times `times` of one key in order, starting from an
/// empty history; yields the kept history and the times of the admitted
/// requests.
pub open spec fn run(times: Seq<u64>, limit: nat, window_secs: u64) -> (Seq<u64>, Seq<u64>)
    decreases times.len(),
{
    if times.len() == 0 {
        (Seq::empty(), Seq::empty())
    } else {
        let (hist, admitted) = run(times.drop_last(), limit, window_secs);
        let (ok, next) = decide(hist, times.last(), limit, window_secs);
        (next, if ok {
            admitted.push(times.last())
        } else {
            admitted
        })
    }
}

/// Number of the times in `s` that lie in the window ending at `end`:
/// not after `end`, and less than the window length before it.
pub open spec fn window_count(s: Seq<u64>, end: u64, window_secs: u64) -> nat
    decreases s.len(),
{
    if s.len() == 0 {
        0
    } else {
        window_count(s.drop_last(), end, window_secs) + if s.last() <= end && end - s.last()
            < window_secs * NANOS_PER_SEC {
            1nat
        } else {
            0nat
        }
    }
}

/// The central promise of the limiter: when the requests of a key arrive in
/// time order, no window of `window_secs` seconds contains more than `limit`
/// admitted requests.
pub proof fn law_at_most_limit_per_window(
    times: Seq<u64>,
    limit: nat,
    window_secs: u64,
    end: u64,
)
    requires
        forall|i: int, j: int| 0 <= i <= j < times.len() ==> times[i] <= times[j],
    ensures
        window_count(run(times, limit, window_secs).1, end, window_secs) <= limit,
{
    lemma_run_invariant(times, limit, window_secs);
}

/// The same promise stated of the limiter itself: for a key whose requests
/// reached it in time order, no window of `window()` seconds, wherever it
/// ends, holds more than `limit()` admitted requests.
pub proof fn law_limiter_admits_at_most_limit(limiter: RateLimiter, key: Seq<char>, end: u64)
    requires
        limiter.wf(),
        in_time_order(limiter.requests(key)),
    ensures
        window_count(limiter.granted(key), end, limiter.window()) <= limiter.limit(),
{
    assert(run(limiter.requests(key), limiter.limit(), limiter.window()) == (
        limiter.history(key),
        limiter.granted(key),
    ));
    law_at_most_limit_per_window(limiter.requests(key), limiter.limit(), limiter.window(), end);
}

/// A full window refuses: once `limit()` requests of a key were admitted in
/// the window that ends at `now`, a request at `now` (not earlier than the
/// requests before it) is refused.
pub proof fn law_full_window_refuses(limiter: RateLimiter, key: Seq<char>, now: u64)
    requires
        limiter.wf(),
        in_time_order(limiter.requests(key)),
        forall|i: int|
            0 <= i < limiter.requests(key).len() ==> #[trigger] limiter.requests(key)[i] <= now,
        window_count(limiter.granted(key), now, limiter.window()) >= limiter.limit(),
    ensures
        !decide(limiter.history(key), now, limiter.limit(), limiter.window()).0,
{
    let times = limiter.requests(key);
    let limit = limiter.limit();
    let w = limiter.window();
    assert(run(times, limit, w) == (limiter.history(key), limiter.granted(key)));
    lemma_run_invariant(times, limit, w);
    let last: u64 = if times.len() == 0 {
        0
    } else {
        times.last()
    };
    assert(last <= now) by {
        if times.len() > 0 {
            assert(times.last() == times[times.len() - 1]);
        }
    }
    let (hist, g) = run(times, limit, w);
    assert(g == limiter.granted(key));
    assert(hist == limiter.history(key));
    assert forall|i: int| 0 <= i < g.len() implies g[i] <= now by {
        assert(g[i] <= last);
    }
    assert(recent(hist, now, w) == recent(g, now, w));
    lemma_window_count_recent(g, now, w);
}

proof fn lemma_run_invariant(times: Seq<u64>, limit: nat, window_secs: u64)
    requires
        forall|i: int, j: int| 0 <= i <= j < times.len() ==> times[i] <= times[j],
    ensures
        ({
            let (hist, admitted) = run(times, limit, window_secs);
            let last: u64 = if times.len() == 0 {
                0
            } else {
                times.last()
            };
            &&& forall|i: int| 0 <= i < hist.len() ==> hist[i] <= last
            &&& forall|i: int| 0 <= i < admitted.len() ==> admitted[i] <= last
            &&& forall|e: u64| e >= last ==> recent(hist, e, window_secs) == recent(
                admitted,
                e,
                window_secs,
            )
            &&& forall|e: u64| window_count(admitted, e, window_secs) <= limit
        }),
    decreases times.len(),
{
    if times.len() == 0 {
        return;
    }
    let prev = times.drop_last();
    lemma_run_invariant(prev, limit, window_secs);
    let (hist, admitted) = run(prev, limit, window_secs);
    let now = times.last();
    let last: u64 = if prev.len() == 0 {
        0
    } else {
        prev.last()
    };
    assert(last <= now) by {
        if prev.len() > 0 {
            assert(prev.last() == times[prev.len() - 1]);
        }
    }
    let kept = recent(hist, now, window_secs);
    let ok = kept.len() < limit;
    let hist2 = if ok {
        kept.push(now)
    } else {
        kept
    };
    let admitted2 = if ok {
        admitted.push(now)
    } else {
        admitted
    };
    assert(run(times, limit, window_secs) == (hist2, admitted2));
    lemma_recent_subset(hist, now, window_secs);
    assert forall|e: u64| e >= now implies recent(hist2, e, window_secs) == recent(
        admitted2,
        e,
        window_secs,
    ) by {
        lemma_recent_twice(hist, now, e, window_secs);
        if ok {
            lemma_recent_push(kept, now, e, window_secs);
            lemma_recent_push(admitted, now, e, window_secs);
        }
    }
    assert forall|i: int| 0 <= i < hist2.len() implies hist2[i] <= now by {
        if !ok || i < kept.len() {
            assert(kept.contains(hist2[i]));
        }
    }
    assert forall|e: u64| window_count(admitted2, e, window_secs) <= limit by {
        if ok {
            lemma_window_count_push(admitted, now, e, window_secs);
            if e >= now && e - now < window_secs * NANOS_PER_SEC {
                lemma_window_count_recent(admitted, now, window_secs);
                lemma_window_count_monotone(admitted, now, e, window_secs);
            }
        }
    }
}

/// The limiter's memory stays bounded: a key never keeps more than `limit`
/// entries once it has at most `limit` (a new key has none).
pub proof fn law_history_bounded(hist: Seq<u64>, now: u64, limit: nat, window_secs: u64)
    requires
        hist.len() <= limit,
    ensures
        decide(hist, now, limit, window_secs).1.len() <= limit,
{
    lemma_recent_len(hist, now, window_secs);
}

proof fn lemma_recent_len(s: Seq<u64>, now: u64, window_secs: u64)
    ensures
        recent(s, now, window_secs).len() <= s.len(),
    decreases s.len(),
{
    if s.len() > 0 {
        lemma_recent_len(s.drop_last(), now, window_secs);
    }
}

/// The entries kept at `now` are entries of `s`.
proof fn lemma_recent_subset(s: Seq<u64>, now: u64, window_secs: u64)
    ensures
        forall|i: int|
            0 <= i < recent(s, now, window_secs).len() ==> s.contains(
                #[trigger] recent(s, now, window_secs)[i],
            ),
    decreases s.len(),
{
    if s.len() > 0 {
        lemma_recent_subset(s.drop_last(), now, window_secs);
        let r = recent(s.drop_last(), now, window_secs);
        assert forall|i: int| 0 <= i < recent(s, now, window_secs).len() implies s.contains(
            #[trigger] recent(s, now, window_secs)[i],
        ) by {
            if i < r.len() {
                let x = r[i];
                assert(s.drop_last().contains(x));
                let k = choose|k: int| 0 <= k < s.drop_last().len() && s.drop_last()[k] == x;
                assert(s[k] == x);
            } else {
                assert(s[s.len() - 1] == s.last());
            }
        }
    }
}

proof fn lemma_recent_push(s: Seq<u64>, x: u64, e: u64, window_secs: u64)
    ensures
        recent(s.push(x), e, window_secs) == if in_window(e, x, window_secs) {
            recent(s, e, window_secs).push(x)
        } else {
            recent(s, e, window_secs)
        },
{
    assert(s.push(x).drop_last() =~= s);
}

/// Pruning at `now` and then at a later `e` is the same as pruning at `e`.
proof fn lemma_recent_twice(s: Seq<u64>, now: u64, e: u64, window_secs: u64)
    requires
        forall|i: int| 0 <= i < s.len() ==> s[i] <= now,
        now <= e,
    ensures
        recent(recent(s, now, window_secs), e, window_secs) == recent(s, e, window_secs),
    decreases s.len(),
{
    if s.len() > 0 {
        let d = s.drop_last();
        assert forall|i: int| 0 <= i < d.len() implies d[i] <= now by {
            assert(d[i] == s[i]);
        }
        lemma_recent_twice(d, now, e, window_secs);
        assert(s.last() == s[s.len() - 1]);
        if in_window(now, s.last(), window_secs) {
            lemma_recent_push(recent(d, now, window_secs), s.last(), e, window_secs);
        }
    }
}

proof fn lemma_window_count_push(s: Seq<u64>, x: u64, e: u64, window_secs: u64)
    ensures
        window_count(s.push(x), e, window_secs) == window_count(s, e, window_secs) + if x <= e
            && e - x < window_secs * NANOS_PER_SEC {
            1nat
        } else {
            0nat
        },
{
    assert(s.push(x).drop_last() =~= s);
}

/// For times not after `now`, the window count at `now` is the number of
/// entries the limiter keeps.
proof fn lemma_window_count_recent(s: Seq<u64>, now: u64, window_secs: u64)
    requires
        forall|i: int| 0 <= i < s.len() ==> s[i] <= now,
    ensures
        window_count(s, now, window_secs) == recent(s, now, window_secs).len(),
    decreases s.len(),
{
    if s.len() > 0 {
        let d = s.drop_last();
        assert forall|i: int| 0 <= i < d.len() implies d[i] <= now by {
            assert(d[i] == s[i]);
        }
        lemma_window_count_recent(d, now, window_secs);
        assert(s.last() == s[s.len() - 1]);
    }
}

/// For times not after `now`, a window ending later holds no more of them.
proof fn lemma_window_count_monotone(s: Seq<u64>, now: u64, e: u64, window_secs: u64)
    requires
        forall|i: int| 0 <= i < s.len() ==> s[i] <= now,
        now <= e,
    ensures
        window_count(s, e, window_secs) <= window_count(s, now, window_secs),
    decreases s.len(),
{
    if s.len() > 0 {
        let d = s.drop_last();
        assert forall|i: int| 0 <= i < d.len() implies d[i] <= now by {
            assert(d[i] == s[i]);
        }
        lemma_window_count_monotone(d, now, e, window_secs);
        assert(s.last() == s[s.len() - 1]);
    }
}

// ---------------------------------------------------------------------------
// Association-list lemmas
// ---------------------------------------------------------------------------

proof fn lemma_lookup_at(s: Seq<(Seq<char>, Seq<u64>)>, k: Seq<char>, i: int)
    requires
        0 <= i < s.len(),
        s[i].0 == k,
        forall|j: int| 0 <= j < i ==> s[j].0 != k,
    ensures
        lookup(s, k) == s[i].1,
    decreases i,
{
    if i > 0 {
        lemma_lookup_at(s.drop_first(), k, i - 1);
    }
}

proof fn lemma_lookup_absent(s: Seq<(Seq<char>, Seq<u64>)>, k: Seq<char>)
    requires
        forall|j: int| 0 <= j < s.len() ==> s[j].0 != k,
    ensures
        lookup(s, k) == Seq::<u64>::empty(),
    decreases s.len(),
{
    if s.len() > 0 {
        lemma_lookup_absent(s.drop_first(), k);
    }
}

proof fn lemma_lookup_update(
    s: Seq<(Seq<char>, Seq<u64>)>,
    k: Seq<char>,
    v: Seq<u64>,
    i: int,
)
    requires
        0 <= i < s.len(),
        s[i].0 == k,
        forall|j: int| 0 <= j < i ==> s[j].0 != k,
    ensures
        lookup(s.update(i, (k, v)), k) == v,
        forall|k2: Seq<char>| k2 != k ==> lookup(s.update(i, (k, v)), k2) == lookup(s, k2),
    decreases i,
{
    let u = s.update(i, (k, v));
    if i > 0 {
        lemma_lookup_update(s.drop_first(), k, v, i - 1);
        let ud = s.drop_first().update(i - 1, (k, v));
        assert(u.drop_first() =~= ud);
        assert forall|k2: Seq<char>| k2 != k implies lookup(u, k2) == lookup(s, k2) by {
            assert(u[0] == s[0]);
            if s[0].0 != k2 {
                assert(lookup(ud, k2) == lookup(s.drop_first(), k2));
            }
        }
    } else {
        assert(u.drop_first() =~= s.drop_first());
        assert forall|k2: Seq<char>| k2 != k implies lookup(u, k2) == lookup(s, k2) by {
            assert(u[0].0 == k);
        }
    }
}

proof fn lemma_lookup_push(s: Seq<(Seq<char>, Seq<u64>)>, k: Seq<char>, v: Seq<u64>)
    requires
        forall|j: int| 0 <= j < s.len() ==> s[j].0 != k,
    ensures
        lookup(s.push((k, v)), k) == v,
        forall|k2: Seq<char>| k2 != k ==> lookup(s.push((k, v)), k2) == lookup(s, k2),
    decreases s.len(),
{
    let u = s.push((k, v));
    if s.len() > 0 {
        lemma_lookup_push(s.drop_first(), k, v);
        let ud = s.drop_first().push((k, v));
        assert(u.drop_first() =~= ud);
        assert forall|k2: Seq<char>| k2 != k implies lookup(u, k2) == lookup(s, k2) by {
            assert(u[0] == s[0]);
            if s[0].0 != k2 {
                assert(lookup(ud, k2) == lookup(s.drop_first(), k2));
            }
        }
    } else {
        assert(u.drop_first() =~= Seq::<(Seq<char>, Seq<u64>)>::empty());
        assert forall|k2: Seq<char>| k2 != k implies lookup(u, k2) == lookup(s, k2) by {
            assert(u[0].0 == k);
            assert(lookup(u.drop_first(), k2) == Seq::<u64>::empty());
        }
    }
}

} // verus!
