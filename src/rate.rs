//! Sliding-window limit on how many submissions are accepted per minute.
use std::collections::VecDeque;
use std::time::Instant;
use vstd::prelude::*;

verus! {

/// Length of the sliding window, in milliseconds.
pub const WINDOW_MS: u64 = 60_000;

/// `std::time::Instant`, held opaque: the origin of the limiter's clock.
#[verifier::external_type_specification]
#[verifier::external_body]
pub struct ExInstant(Instant);

/// Relies on `std::time::Instant::now`: a reading of the monotonic clock.
#[verifier::external_body]
fn clock_now() -> Instant {
    Instant::now()
}

/// Relies on `std::time::Instant::elapsed`: the time passed since `origin`,
/// in whole milliseconds. Nothing is known of the value.
#[verifier::external_body]
fn millis_since(origin: &Instant) -> u64 {
    u64::try_from(origin.elapsed().as_millis()).unwrap_or(u64::MAX)
}

/// A timestamp taken at `t` is older than the window that ends at `now`.
pub open spec fn expired(t: u64, now: u64) -> bool {
    now > t && now - t > WINDOW_MS
}

/// What remains of `s` once the timestamps at its front that have left the
/// window ending at `now` are dropped.
pub open spec fn evict(s: Seq<u64>, now: u64) -> Seq<u64>
    decreases s.len(),
{
    if s.len() > 0 && expired(s[0], now) {
        evict(s.drop_first(), now)
    } else {
        s
    }
}

/// The timestamps are in non-decreasing order.
pub open spec fn sorted(s: Seq<u64>) -> bool {
    forall|i: int, j: int| 0 <= i <= j < s.len() ==> s[i] <= s[j]
}

/// `now` is no earlier than any recorded timestamp.
pub open spec fn not_before(s: Seq<u64>, now: u64) -> bool {
    s.len() > 0 ==> s.last() <= now
}

/// One call at `now`: whether it is accepted, and the timestamps afterwards.
pub open spec fn allow_step(s: Seq<u64>, limit: nat, now: u64) -> (bool, Seq<u64>) {
    let kept = evict(s, now);
    if kept.len() >= limit {
        (false, kept)
    } else {
        (true, kept.push(now))
    }
}

/// Accepts at most `limit_per_minute` calls in any sliding 60-second window.
///
/// Not synchronized: callers that share one limiter serialize each call.
#[derive(Debug)]
pub struct RateLimiter {
    limit_per_minute: usize,
    requests: VecDeque<u64>,
    origin: Instant,
}

/// The answers to calls at `times`, in order, starting from the timestamps `s`.
pub open spec fn run_calls(s: Seq<u64>, limit: nat, times: Seq<u64>) -> Seq<bool>
    decreases times.len(),
{
    if times.len() == 0 {
        Seq::empty()
    } else {
        let (r, next) = allow_step(s, limit, times[0]);
        seq![r] + run_calls(next, limit, times.drop_first())
    }
}

/// All of `t` lies in one window: in order, and no two more than the window apart.
pub open spec fn within_one_window(t: Seq<u64>) -> bool {
    forall|i: int, j: int| 0 <= i <= j < t.len() ==> t[i] <= t[j] && t[j] - t[i] <= WINDOW_MS
}

proof fn lemma_evict_len(s: Seq<u64>, now: u64)
    ensures
        evict(s, now).len() <= s.len(),
    decreases s.len(),
{
    if s.len() > 0 && expired(s[0], now) {
        lemma_evict_len(s.drop_first(), now);
    }
}

proof fn lemma_run_in_window(s: Seq<u64>, limit: nat, times: Seq<u64>)
    requires
        within_one_window(s + times),
    ensures
        run_calls(s, limit, times).len() == times.len(),
        forall|i: int| 0 <= i < times.len() ==> run_calls(s, limit, times)[i] == (s.len() + i < limit),
    decreases times.len(),
{
    if times.len() > 0 {
        let all = s + times;
        assert(evict(s, times[0]) == s) by {
            if s.len() > 0 {
                assert(all[0] == s[0] && all[s.len() as int] == times[0]);
            }
        }
        let (r, next) = allow_step(s, limit, times[0]);
        let rest = times.drop_first();
        if r {
            assert(next + rest =~= all);
        } else {
            let sub = next + rest;
            assert forall|i: int, j: int| 0 <= i <= j < sub.len() implies sub[i] <= sub[j] && sub[j]
                - sub[i] <= WINDOW_MS by {
                let ii = if i < s.len() { i } else { i + 1 };
                let jj = if j < s.len() { j } else { j + 1 };
                assert(sub[i] == all[ii] && sub[j] == all[jj]);
            }
        }
        lemma_run_in_window(next, limit, rest);
        let out = run_calls(s, limit, times);
        assert forall|i: int| 0 <= i < times.len() implies out[i] == (s.len() + i < limit) by {
            if i > 0 {
                assert(out[i] == run_calls(next, limit, rest)[i - 1]);
            }
        }
    }
}

/// Within one sliding window, starting from a fresh limiter of capacity
/// `limit`, the first `limit` calls are accepted and every later one refused.
pub proof fn lemma_window_capacity(limit: nat, times: Seq<u64>)
    requires
        within_one_window(times),
    ensures
        run_calls(Seq::empty(), limit, times).len() == times.len(),
        forall|i: int| 0 <= i < times.len() ==> run_calls(Seq::empty(), limit, times)[i] == (i < limit),
{
    assert(Seq::<u64>::empty() + times =~= times);
    lemma_run_in_window(Seq::empty(), limit, times);
}

/// Once the oldest accepted call has left the window, a limiter that was
/// full accepts one more call.
pub proof fn lemma_capacity_restored(lim: RateLimiter, now: u64)
    requires
        lim.wf(),
        not_before(lim.requests(), now),
        lim.requests().len() > 0,
        expired(lim.requests()[0], now),
    ensures
        allow_step(lim.requests(), lim.limit(), now).0,
{
    lemma_evict_len(lim.requests().drop_first(), now);
}

impl RateLimiter {
    /// The accepted timestamps, oldest first.
    pub closed spec fn requests(&self) -> Seq<u64> {
        self.requests@
    }

    pub closed spec fn limit(&self) -> nat {
        self.limit_per_minute as nat
    }

    pub open spec fn wf(&self) -> bool {
        sorted(self.requests()) && self.requests().len() <= self.limit()
    }

    pub fn new(limit_per_minute: usize) -> (r: Self)
        ensures
            r.wf(),
            r.limit() == limit_per_minute,
            r.requests() == Seq::<u64>::empty(),
    {
        RateLimiter { limit_per_minute, requests: VecDeque::new(), origin: clock_now() }
    }

    /// The capacity per window.
    pub fn limit_per_minute(&self) -> (r: usize)
        ensures
            r == self.limit(),
    {
        self.limit_per_minute
    }

    /// How many accepted calls are recorded.
    pub fn recorded(&self) -> (r: usize)
        ensures
            r == self.requests().len(),
    {
        self.requests.len()
    }

    /// One call at time `now`, in milliseconds: drops the timestamps that left
    /// the window, then accepts and records `now` if fewer than the limit remain.
    pub fn allow_at(&mut self, now: u64) -> (r: bool)
        requires
            old(self).wf(),
            not_before(old(self).requests(), now),
        ensures
            final(self).wf(),
            final(self).limit() == old(self).limit(),
            (r, final(self).requests()) == allow_step(old(self).requests(), old(self).limit(), now),
    {
        let ghost s0 = self.requests@;
        loop
            invariant
                sorted(self.requests@),
                self.requests@.len() <= self.limit_per_minute,
                not_before(self.requests@, now),
                evict(s0, now) == evict(self.requests@, now),
                self.limit_per_minute == old(self).limit_per_minute,
            ensures
                sorted(self.requests@),
                self.requests@.len() <= self.limit_per_minute,
                not_before(self.requests@, now),
                evict(s0, now) == self.requests@,
                self.limit_per_minute == old(self).limit_per_minute,
            decreases self.requests@.len(),
        {
            if self.requests.len() == 0 {
                break;
            }
            let front = self.requests[0];
            assert(front <= now) by {
                assert(self.requests@[0] <= self.requests@.last());
            }
            if now - front > WINDOW_MS {
                let ghost before = self.requests@;
                self.requests.pop_front();
                assert(self.requests@ == before.drop_first());
            } else {
                break;
            }
        }
        if self.requests.len() >= self.limit_per_minute {
            return false;
        }
        self.requests.push_back(now);
        assert(sorted(self.requests@)) by {
            let s = self.requests@;
            assert forall|i: int, j: int| 0 <= i <= j < s.len() implies s[i] <= s[j] by {
                if j == s.len() - 1 && i < j {
                    assert(s[i] <= s[j - 1]);
                }
            }
        }
        true
    }

    /// One call now: reads the monotonic clock and applies [`Self::allow_at`].
    /// A reading earlier than the newest recorded timestamp is taken as that
    /// timestamp.
    pub fn allow(&mut self) -> (r: bool)
        requires
            old(self).wf(),
        ensures
            final(self).wf(),
            final(self).limit() == old(self).limit(),
            exists|now: u64|
                not_before(old(self).requests(), now) && (r, final(self).requests()) == allow_step(
                    old(self).requests(),
                    old(self).limit(),
                    now,
                ),
    {
        let mut now = millis_since(&self.origin);
        let n = self.requests.len();
        if n > 0 && self.requests[n - 1] > now {
            now = self.requests[n - 1];
        }
        assert(not_before(self.requests@, now));
        let r = self.allow_at(now);
        assert(not_before(old(self).requests(), now) && (r, self.requests()) == allow_step(
            old(self).requests(),
            old(self).limit(),
            now,
        ));
        r
    }
}

} // verus!
