//! A sliding-window limiter over request timestamps given in milliseconds.

use vstd::prelude::*;

verus! {

/// Milliseconds elapsed from `t` to `now`, or zero when `t` lies after `now`.
pub open spec fn elapsed(t: u64, now: u64) -> nat {
    if now >= t { (now - t) as nat } else { 0 }
}

/// The timestamps of `s` still inside the window at time `now`, in order.
pub open spec fn in_window(s: Seq<u64>, now: u64, window: u64) -> Seq<u64>
    decreases s.len(),
{
    if s.len() == 0 {
        Seq::empty()
    } else {
        let rest = in_window(s.drop_last(), now, window);
        if elapsed(s.last(), now) < window { rest.push(s.last()) } else { rest }
    }
}

pub proof fn lemma_in_window_idempotent(s: Seq<u64>, now: u64, window: u64)
    ensures
        in_window(in_window(s, now, window), now, window) == in_window(s, now, window),
    decreases s.len(),
{
    if s.len() > 0 {
        lemma_in_window_idempotent(s.drop_last(), now, window);
        let rest = in_window(s.drop_last(), now, window);
        if elapsed(s.last(), now) < window {
            assert(rest.push(s.last()).drop_last() == rest);
        }
    }
}

/// Admits at most `max_requests` requests within any `time_window` milliseconds.
pub struct RateLimiter {
    requests: Vec<u64>,
    max_requests: usize,
    time_window: u64,
}

impl RateLimiter {
    /// Timestamps of the admitted requests that are still remembered, oldest first.
    pub closed spec fn requests(&self) -> Seq<u64> {
        self.requests@
    }

    pub closed spec fn max_requests(&self) -> nat {
        self.max_requests as nat
    }

    /// The window length in milliseconds.
    pub closed spec fn time_window(&self) -> u64 {
        self.time_window
    }

    /// Remaining wait, in milliseconds (the expiry saturating at the largest
    /// timestamp), before a request at `now` could be admitted.
    pub open spec fn wait_spec(&self, now: u64) -> nat {
        if self.requests().len() < self.max_requests() || self.requests().len() == 0 {
            0
        } else {
            let sum = self.requests()[0] + self.time_window();
            let expiry = if sum > u64::MAX { u64::MAX as int } else { sum };
            if expiry > now { (expiry - now) as nat } else { 0 }
        }
    }

    pub fn new(max_requests: usize, time_window_secs: u64) -> (r: Self)
        requires
            time_window_secs * 1000 <= u64::MAX,
        ensures
            r.requests() == Seq::<u64>::empty(),
            r.max_requests() == max_requests,
            r.time_window() == time_window_secs * 1000,
    {
        RateLimiter {
            requests: Vec::with_capacity(max_requests),
            max_requests,
            time_window: time_window_secs * 1000,
        }
    }

    /// Forgets the timestamps that fell out of the window, then admits the
    /// request at `now` if fewer than `max_requests` remain.
    pub fn can_make_request(&mut self, now: u64) -> (r: bool)
        ensures
            final(self).max_requests() == old(self).max_requests(),
            final(self).time_window() == old(self).time_window(),
            r == (in_window(old(self).requests(), now, old(self).time_window()).len()
                < old(self).max_requests()),
            r ==> final(self).requests() == in_window(
                old(self).requests(),
                now,
                old(self).time_window(),
            ).push(now),
            !r ==> final(self).requests() == in_window(
                old(self).requests(),
                now,
                old(self).time_window(),
            ),
    {
        let ghost old_requests = self.requests@;
        let mut kept: Vec<u64> = Vec::new();
        let mut i: usize = 0;
        while i < self.requests.len()
            invariant
                self.requests@ == old_requests,
                i <= old_requests.len(),
                kept@ == in_window(old_requests.subrange(0, i as int), now, self.time_window),
            decreases old_requests.len() - i,
        {
            let t = self.requests[i];
            let el: u64 = if now >= t { now - t } else { 0 };
            if el < self.time_window {
                kept.push(t);
            }
            assert(old_requests.subrange(0, i as int + 1).drop_last()
                == old_requests.subrange(0, i as int));
            i = i + 1;
        }
        assert(old_requests.subrange(0, old_requests.len() as int) == old_requests);
        self.requests = kept;
        if self.requests.len() < self.max_requests {
            self.requests.push(now);
            true
        } else {
            false
        }
    }

    /// Milliseconds until the oldest remembered request leaves the window, or zero
    /// while a slot is free.
    pub fn time_until_next_slot(&self, now: u64) -> (r: u64)
        ensures
            r == self.wait_spec(now),
    {
        if self.requests.len() < self.max_requests {
            return 0;
        }
        if self.requests.len() == 0 {
            return 0;
        }
        let oldest = self.requests[0];
        let expiry = oldest.saturating_add(self.time_window);
        if expiry > now {
            expiry - now
        } else {
            0
        }
    }

    /// The check made before each outgoing call: take a slot at `now`; failing
    /// that, retry once if no wait remains. The outcome is that of a single
    /// `can_make_request`, since the retry finds the same window.
    pub fn try_acquire(&mut self, now: u64) -> (r: bool)
        ensures
            final(self).max_requests() == old(self).max_requests(),
            final(self).time_window() == old(self).time_window(),
            r == (in_window(old(self).requests(), now, old(self).time_window()).len()
                < old(self).max_requests()),
            r ==> final(self).requests() == in_window(
                old(self).requests(),
                now,
                old(self).time_window(),
            ).push(now),
            !r ==> final(self).requests() == in_window(
                old(self).requests(),
                now,
                old(self).time_window(),
            ),
    {
        if self.can_make_request(now) {
            return true;
        }
        if self.time_until_next_slot(now) > 0 {
            return false;
        }
        proof {
            lemma_in_window_idempotent(old(self).requests(), now, old(self).time_window());
        }
        self.can_make_request(now)
    }
}

} // verus!
