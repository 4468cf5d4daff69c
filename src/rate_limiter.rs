//! Request pacing: a concurrency budget (permits) and a minimum interval
//! between request starts, with adaptive back-off. Waiting is the caller's
//! part; this decides how long.
use vstd::prelude::*;

verus! {

/// Milliseconds between request starts for a target rate; 100 for a rate of 0.
pub open spec fn interval_for(requests_per_second: usize) -> u64 {
    if requests_per_second > 0 {
        (1000int / requests_per_second as int) as u64
    } else {
        100
    }
}

/// `a + b`, capped at `u64::MAX`.
pub open spec fn capped_add(a: u64, b: u64) -> u64 {
    if a + b > u64::MAX {
        u64::MAX
    } else {
        (a + b) as u64
    }
}

/// When a request asked for at `now` may start: no sooner than `interval`
/// after the previous start.
pub open spec fn next_start(last: Option<u64>, now: u64, interval: u64) -> u64 {
    match last {
        Some(l) => if now < capped_add(l, interval) {
            capped_add(l, interval)
        } else {
            now
        },
        None => now,
    }
}

/// Start times of successive acquisitions asked for at `times`.
pub open spec fn start_times(last: Option<u64>, times: Seq<u64>, interval: u64) -> Seq<u64>
    decreases times.len(),
{
    if times.len() == 0 {
        Seq::empty()
    } else {
        let prev = start_times(last, times.drop_last(), interval);
        let before = if prev.len() == 0 {
            last
        } else {
            Some(prev.last())
        };
        prev.push(next_start(before, times.last(), interval))
    }
}

/// Extra pause after a response: 2 s after a 429 or any 5xx, 0.5 s after a
/// response slower than 5 s, none otherwise or when adaptation is off.
pub open spec fn backoff_for(adaptive: bool, response_time_ms: u64, status: u16) -> u64 {
    if !adaptive {
        0
    } else if status == 429 || (500 <= status && status < 600) {
        2000
    } else if response_time_ms > 5000 {
        500
    } else {
        0
    }
}

/// A concurrency budget and the pacing state shared by every request of a
/// scan: the interval between starts and the last start reserved.
pub struct RateLimiter {
    permits: usize,
    min_delay_ms: u64,
    adaptive: bool,
    last_start_ms: Option<u64>,
}

impl RateLimiter {
    pub closed spec fn permits_view(&self) -> usize {
        self.permits
    }

    pub closed spec fn interval(&self) -> u64 {
        self.min_delay_ms
    }

    pub closed spec fn adaptive_view(&self) -> bool {
        self.adaptive
    }

    pub closed spec fn last_start(&self) -> Option<u64> {
        self.last_start_ms
    }

    /// A limiter for `requests_per_second`: that many permits (at least one)
    /// and an interval of `1000 / requests_per_second` milliseconds.
    pub fn new(requests_per_second: usize, adaptive: bool) -> (r: RateLimiter)
        ensures
            r.permits_view() == if requests_per_second > 0 {
                requests_per_second
            } else {
                1
            },
            r.interval() == interval_for(requests_per_second),
            r.adaptive_view() == adaptive,
            r.last_start() is None,
    {
        let min_delay_ms: u64 = if requests_per_second > 0 {
            (1000 / requests_per_second) as u64
        } else {
            100
        };
        RateLimiter {
            permits: if requests_per_second > 0 {
                requests_per_second
            } else {
                1
            },
            min_delay_ms,
            adaptive,
            last_start_ms: None,
        }
    }

    /// Number of requests that may be in flight at once.
    pub fn permits(&self) -> (r: usize)
        ensures
            r == self.permits_view(),
    {
        self.permits
    }

    pub fn min_delay_ms(&self) -> (r: u64)
        ensures
            r == self.interval(),
    {
        self.min_delay_ms
    }

    pub fn is_adaptive(&self) -> (r: bool)
        ensures
            r == self.adaptive_view(),
    {
        self.adaptive
    }

    /// Reserves the next start for a request asked for at `now` and returns
    /// how long to wait before starting it.
    pub fn acquire(&mut self, now: u64) -> (wait: u64)
        ensures
            final(self).permits_view() == old(self).permits_view(),
            final(self).interval() == old(self).interval(),
            final(self).adaptive_view() == old(self).adaptive_view(),
            final(self).last_start() == Some(next_start(old(self).last_start(), now, old(self).interval())),
            now + wait == next_start(old(self).last_start(), now, old(self).interval()),
    {
        let start = match self.last_start_ms {
            Some(l) => {
                let earliest = l.saturating_add(self.min_delay_ms);
                if now < earliest {
                    earliest
                } else {
                    now
                }
            },
            None => now,
        };
        self.last_start_ms = Some(start);
        start - now
    }

    /// Extra pause to take after a response with `status_code` that took
    /// `response_time_ms`.
    pub fn adapt(&self, response_time_ms: u64, status_code: u16) -> (r: u64)
        ensures
            r == backoff_for(self.adaptive_view(), response_time_ms, status_code),
    {
        if !self.adaptive {
            0
        } else if status_code == 429 || (500 <= status_code && status_code < 600) {
            2000
        } else if response_time_ms > 5000 {
            500
        } else {
            0
        }
    }
}

/// A start always comes at least one interval after the previous start,
/// unless that would pass the end of the clock.
pub proof fn lemma_interval_floor(last: u64, now: u64, interval: u64)
    ensures
        next_start(Some(last), now, interval) >= capped_add(last, interval),
        next_start(Some(last), now, interval) >= now,
{
}

/// Over `n` successive acquisitions, the last starts at least `n - 1`
/// intervals after the first (capped at the end of the clock), whenever they
/// were asked for.
pub proof fn lemma_rate_floor(last: Option<u64>, times: Seq<u64>, interval: u64)
    ensures
        start_times(last, times, interval).len() == times.len(),
        forall|i: int|
            0 <= i < times.len() ==> #[trigger] start_times(last, times, interval)[i] as int >= if start_times(
                last,
                times,
                interval,
            )[0] + i * interval > u64::MAX {
                u64::MAX as int
            } else {
                start_times(last, times, interval)[0] + i * interval
            },
    decreases times.len(),
{
    if times.len() > 0 {
        let prev = start_times(last, times.drop_last(), interval);
        lemma_rate_floor(last, times.drop_last(), interval);
        let s = start_times(last, times, interval);
        assert(s.drop_last() =~= prev);
        assert forall|i: int| 0 <= i < times.len() implies #[trigger] s[i] as int >= if s[0] + i * interval
            > u64::MAX {
            u64::MAX as int
        } else {
            s[0] + i * interval
        } by {
            if i < times.len() - 1 {
                assert(s[i] == prev[i]);
                assert(s[0] == prev[0]);
            } else if i > 0 {
                assert(s[i - 1] == prev[i - 1]);
                assert(s[0] == prev[0]);
                lemma_interval_floor(s[i - 1], times.last(), interval);
                assert(i * interval == (i - 1) * interval + interval) by (nonlinear_arith);
            }
        }
    }
}

/// Named limiter configurations.
pub struct RateLimiterPresets;

impl RateLimiterPresets {
    /// 100 requests per second, no adaptation.
    pub fn fast() -> (r: RateLimiter)
        ensures
            r.permits_view() == 100 && r.interval() == 10 && !r.adaptive_view() && r.last_start() is None,
    {
        RateLimiter::new(100, false)
    }

    /// 20 requests per second, adaptive.
    pub fn balanced() -> (r: RateLimiter)
        ensures
            r.permits_view() == 20 && r.interval() == 50 && r.adaptive_view() && r.last_start() is None,
    {
        RateLimiter::new(20, true)
    }

    /// 2 requests per second, adaptive.
    pub fn stealth() -> (r: RateLimiter)
        ensures
            r.permits_view() == 2 && r.interval() == 500 && r.adaptive_view() && r.last_start() is None,
    {
        RateLimiter::new(2, true)
    }

    /// `req_per_sec` requests per second, adaptive.
    pub fn custom(req_per_sec: usize) -> (r: RateLimiter)
        ensures
            r.interval() == interval_for(req_per_sec),
            r.adaptive_view(),
            r.last_start() is None,
    {
        RateLimiter::new(req_per_sec, true)
    }
}

} // verus!
