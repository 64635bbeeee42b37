//! Request and cursor-call counters reported by the metrics endpoint.

use vstd::prelude::*;

verus! {

/// `n + 1`, wrapping to 0 past `u64::MAX`, as an atomic `fetch_add(1)` counts.
pub open spec fn next_count(n: u64) -> u64 {
    if n == u64::MAX {
        0
    } else {
        (n + 1) as u64
    }
}

/// One event that the metrics count.
#[derive(Debug, Clone, Copy)]
pub enum MetricEvent {
    Request,
    CursorOk,
    CursorFail,
    CursorTimeout,
}

/// The counters (requests, cursor ok, cursor fail, cursor timeout) after one
/// more event: its own counter goes up by one, the others stay.
pub open spec fn metrics_step(c: (u64, u64, u64, u64), e: MetricEvent) -> (u64, u64, u64, u64) {
    match e {
        MetricEvent::Request => (next_count(c.0), c.1, c.2, c.3),
        MetricEvent::CursorOk => (c.0, next_count(c.1), c.2, c.3),
        MetricEvent::CursorFail => (c.0, c.1, next_count(c.2), c.3),
        MetricEvent::CursorTimeout => (c.0, c.1, c.2, next_count(c.3)),
    }
}

/// The counters after `events`, counted in order from zero.
pub open spec fn counts_after(events: Seq<MetricEvent>) -> (u64, u64, u64, u64)
    decreases events.len(),
{
    if events.len() == 0 {
        (0, 0, 0, 0)
    } else {
        metrics_step(counts_after(events.drop_last()), events.last())
    }
}

/// How many of `events` are `Request`, `CursorOk`, `CursorFail` and
/// `CursorTimeout` events.
pub open spec fn event_tally(events: Seq<MetricEvent>) -> (nat, nat, nat, nat)
    decreases events.len(),
{
    if events.len() == 0 {
        (0, 0, 0, 0)
    } else {
        let t = event_tally(events.drop_last());
        match events.last() {
            MetricEvent::Request => (t.0 + 1, t.1, t.2, t.3),
            MetricEvent::CursorOk => (t.0, t.1 + 1, t.2, t.3),
            MetricEvent::CursorFail => (t.0, t.1, t.2 + 1, t.3),
            MetricEvent::CursorTimeout => (t.0, t.1, t.2, t.3 + 1),
        }
    }
}

/// No increment is lost and each counter counts only its own events: from
/// the default counters, any sequence of increments (however calls from
/// several tasks were ordered) leaves each counter at the number of its
/// events, while that number fits in 64 bits.
pub proof fn law_counts_match_events(events: Seq<MetricEvent>)
    requires
        event_tally(events).0 <= u64::MAX,
        event_tally(events).1 <= u64::MAX,
        event_tally(events).2 <= u64::MAX,
        event_tally(events).3 <= u64::MAX,
    ensures
        counts_after(events).0 == event_tally(events).0,
        counts_after(events).1 == event_tally(events).1,
        counts_after(events).2 == event_tally(events).2,
        counts_after(events).3 == event_tally(events).3,
    decreases events.len(),
{
    if events.len() > 0 {
        law_counts_match_events(events.drop_last());
    }
}

/// Counters of requests and of cursor-agent call outcomes.
#[derive(Debug)]
pub struct Metrics {
    pub requests_total: u64,
    pub cursor_calls_ok: u64,
    pub cursor_calls_fail: u64,
    pub cursor_calls_timeout: u64,
}

impl Default for Metrics {
    fn default() -> (r: Self)
        ensures
            r.requests_total == 0,
            r.cursor_calls_ok == 0,
            r.cursor_calls_fail == 0,
            r.cursor_calls_timeout == 0,
            counters(r) == counts_after(Seq::<MetricEvent>::empty()),
    {
        Metrics { requests_total: 0, cursor_calls_ok: 0, cursor_calls_fail: 0, cursor_calls_timeout: 0 }
    }
}

/// The four counters of `m`, in the order of `snapshot`.
pub open spec fn counters(m: Metrics) -> (u64, u64, u64, u64) {
    (m.requests_total, m.cursor_calls_ok, m.cursor_calls_fail, m.cursor_calls_timeout)
}

impl Metrics {
    /// Counts one request.
    pub fn inc_requests(&mut self)
        ensures
            counters(*final(self)) == metrics_step(counters(*old(self)), MetricEvent::Request),
            final(self).requests_total == next_count(old(self).requests_total),
            final(self).cursor_calls_ok == old(self).cursor_calls_ok,
            final(self).cursor_calls_fail == old(self).cursor_calls_fail,
            final(self).cursor_calls_timeout == old(self).cursor_calls_timeout,
    {
        self.requests_total = self.requests_total.wrapping_add(1);
    }

    /// Counts one successful cursor-agent call.
    pub fn inc_cursor_ok(&mut self)
        ensures
            counters(*final(self)) == metrics_step(counters(*old(self)), MetricEvent::CursorOk),
            final(self).requests_total == old(self).requests_total,
            final(self).cursor_calls_ok == next_count(old(self).cursor_calls_ok),
            final(self).cursor_calls_fail == old(self).cursor_calls_fail,
            final(self).cursor_calls_timeout == old(self).cursor_calls_timeout,
    {
        self.cursor_calls_ok = self.cursor_calls_ok.wrapping_add(1);
    }

    /// Counts one failed cursor-agent call.
    pub fn inc_cursor_fail(&mut self)
        ensures
            counters(*final(self)) == metrics_step(counters(*old(self)), MetricEvent::CursorFail),
            final(self).requests_total == old(self).requests_total,
            final(self).cursor_calls_ok == old(self).cursor_calls_ok,
            final(self).cursor_calls_fail == next_count(old(self).cursor_calls_fail),
            final(self).cursor_calls_timeout == old(self).cursor_calls_timeout,
    {
        self.cursor_calls_fail = self.cursor_calls_fail.wrapping_add(1);
    }

    /// Counts one timed-out cursor-agent call.
    pub fn inc_cursor_timeout(&mut self)
        ensures
            counters(*final(self)) == metrics_step(counters(*old(self)), MetricEvent::CursorTimeout),
            final(self).requests_total == old(self).requests_total,
            final(self).cursor_calls_ok == old(self).cursor_calls_ok,
            final(self).cursor_calls_fail == old(self).cursor_calls_fail,
            final(self).cursor_calls_timeout == next_count(old(self).cursor_calls_timeout),
    {
        self.cursor_calls_timeout = self.cursor_calls_timeout.wrapping_add(1);
    }

    /// (requests_total, cursor_calls_ok, cursor_calls_fail, cursor_calls_timeout)
    pub fn snapshot(&self) -> (r: (u64, u64, u64, u64))
        ensures
            r == (self.requests_total, self.cursor_calls_ok, self.cursor_calls_fail, self.cursor_calls_timeout),
    {
        (self.requests_total, self.cursor_calls_ok, self.cursor_calls_fail, self.cursor_calls_timeout)
    }
}

} // verus!
