use vstd::prelude::*;
use vstd::arithmetic::div_mod::lemma_div_multiples_vanish;

verus! {

/// Whether the sampler owes the callback an event at instant `now`: always
/// on the first observation, afterwards only once a full interval has gone
/// by since the last event.
pub open spec fn emission_due(last: Option<u64>, now: u64, interval: u64) -> bool {
    match last {
        None => true,
        Some(t) => now >= t + interval,
    }
}

/// Throttles progress reports: wraps a byte stream's observation instants
/// and lets at most one callback through per interval.
pub struct ProgressSampler {
    /// The minimal spacing between two events, in milliseconds.
    pub interval_ms: u64,
    /// When the last event fired, if one has.
    pub last_emit_ms: Option<u64>,
}

impl ProgressSampler {
    /// A fresh sampler that has emitted nothing.
    pub fn new(interval_ms: u64) -> (s: ProgressSampler)
        ensures
            s.interval_ms == interval_ms,
            s.last_emit_ms is None,
    {
        ProgressSampler { interval_ms, last_emit_ms: None }
    }

    /// One observation at instant `now_ms` (the clock never runs backwards
    /// past an emission). Reports whether the callback fires now; if it
    /// does, the instant is recorded, so no further event can fire for a
    /// full interval.
    pub fn observe(&mut self, now_ms: u64) -> (emit: bool)
        requires
            old(self).last_emit_ms matches Some(t) ==> t <= now_ms,
        ensures
            emit == emission_due(old(self).last_emit_ms, now_ms, old(self).interval_ms),
            final(self).interval_ms == old(self).interval_ms,
            final(self).last_emit_ms == if emit {
                Some(now_ms)
            } else {
                old(self).last_emit_ms
            },
    {
        let due = match self.last_emit_ms {
            None => true,
            Some(t) => now_ms - t >= self.interval_ms,
        };
        if due {
            self.last_emit_ms = Some(now_ms);
        }
        due
    }
}

/// Percent complete scaled to hundredths of a percent, rounded down:
/// `delivered / total * 100`, guarded against a zero total by `requires`
/// (a zero-length resource is rejected before any sampler exists).
pub fn percent_hundredths(delivered: u64, total: u64) -> (ph: u64)
    requires
        total > 0,
        delivered <= total,
    ensures
        ph == delivered * 10000 / (total as int),
        ph <= 10000,
{
    let wide: u128 = (delivered as u128) * 10000 / (total as u128);
    proof {
        assert(delivered * 10000 <= total * 10000) by (nonlinear_arith)
            requires delivered <= total, delivered >= 0, total >= 0;
        assert(delivered * 10000 / (total as int) <= total * 10000 / (total as int)) by (nonlinear_arith)
            requires delivered * 10000 <= total * 10000, total > 0;
        lemma_div_multiples_vanish(10000, total as int);
    }
    wide as u64
}

/// The instants at which a sampler run fires, starting from memory `last`,
/// over the given observation instants in order.
pub open spec fn emitted_instants(interval: u64, last: Option<u64>, times: Seq<u64>) -> Seq<u64>
    decreases times.len(),
{
    if times.len() == 0 {
        Seq::empty()
    } else if emission_due(last, times.first(), interval) {
        seq![times.first()] + emitted_instants(interval, Some(times.first()), times.drop_first())
    } else {
        emitted_instants(interval, last, times.drop_first())
    }
}

/// Law: over any nondecreasing run of observations, events fire at
/// observation instants, in order, at least one full interval apart, and
/// never before one interval past the sampler's memory. This is the "at
/// most one invocation per interval window" half of the sampler's duty.
pub proof fn lemma_emissions_spaced(interval: u64, last: Option<u64>, times: Seq<u64>)
    requires
        forall|i: int, j: int| 0 <= i <= j < times.len() ==> times[i] <= times[j],
    ensures
        forall|k: int|
            0 <= k < emitted_instants(interval, last, times).len() ==> times.len() > 0
                && times.first() <= #[trigger] emitted_instants(interval, last, times)[k]
                && emitted_instants(interval, last, times)[k] <= times.last(),
        forall|k: int|
            0 <= k < emitted_instants(interval, last, times).len() - 1 ==> #[trigger] emitted_instants(
                interval,
                last,
                times,
            )[k] + interval <= emitted_instants(interval, last, times)[k + 1],
        last matches Some(t) ==> forall|k: int|
            0 <= k < emitted_instants(interval, last, times).len() ==> t + interval
                <= #[trigger] emitted_instants(interval, last, times)[k],
    decreases times.len(),
{
    if times.len() > 0 {
        let rest = times.drop_first();
        let t0 = times.first();
        assert(forall|i: int, j: int| 0 <= i <= j < rest.len() ==> rest[i] <= rest[j]);
        assert(times[0] <= times[times.len() - 1]);
        if emission_due(last, t0, interval) {
            lemma_emissions_spaced(interval, Some(t0), rest);
            let e = emitted_instants(interval, last, times);
            let er = emitted_instants(interval, Some(t0), rest);
            assert(e == seq![t0] + er);
            assert(e[0] == t0);
            assert forall|k: int|
                0 <= k < e.len() implies times.len() > 0 && times.first() <= #[trigger] e[k]
                && e[k] <= times.last() by {
                if k > 0 {
                    assert(e[k] == er[k - 1]);
                    assert(rest.first() <= er[k - 1] && er[k - 1] <= rest.last());
                    assert(rest.first() == times[1]);
                    assert(times[0] <= times[1]);
                    assert(rest.last() == times.last());
                }
            }
            assert forall|k: int|
                0 <= k < e.len() - 1 implies #[trigger] e[k] + interval <= e[k + 1] by {
                if k == 0 {
                    assert(e[1] == er[0]);
                    assert(t0 + interval <= er[0]);
                } else {
                    assert(e[k] == er[k - 1] && e[k + 1] == er[k]);
                }
            }
            match last {
                Some(t) => {
                    assert(t0 >= t + interval);
                    assert forall|k: int|
                        0 <= k < e.len() implies t + interval <= #[trigger] e[k] by {
                        if k > 0 {
                            assert(e[k] == er[k - 1]);
                            assert(t0 + interval <= er[k - 1]);
                        }
                    }
                }
                None => {}
            }
        } else {
            lemma_emissions_spaced(interval, last, rest);
            let e = emitted_instants(interval, last, times);
            let er = emitted_instants(interval, last, rest);
            assert(e == er);
            assert forall|k: int|
                0 <= k < e.len() implies times.len() > 0 && times.first() <= #[trigger] e[k]
                && e[k] <= times.last() by {
                assert(rest.len() > 0);
                assert(rest.first() <= er[k] && er[k] <= rest.last());
                assert(rest.first() == times[1]);
                assert(times[0] <= times[1]);
                assert(rest.last() == times.last());
            }
        }
    }
}

/// Span of a run of spaced instants: `n` events at least `interval` apart
/// stretch over at least `(n - 1) * interval` milliseconds.
pub proof fn lemma_spaced_span(e: Seq<u64>, interval: u64)
    requires
        forall|k: int| 0 <= k < e.len() - 1 ==> #[trigger] e[k] + interval <= e[k + 1],
    ensures
        e.len() >= 1 ==> e.first() + (e.len() - 1) * interval <= e.last(),
    decreases e.len(),
{
    if e.len() >= 2 {
        let rest = e.drop_first();
        assert forall|k: int| 0 <= k < rest.len() - 1 implies #[trigger] rest[k] + interval
            <= rest[k + 1] by {
            assert(rest[k] == e[k + 1]);
            assert(rest[k + 1] == e[k + 2]);
            assert(e[k + 1] + interval <= e[k + 2]);
        }
        lemma_spaced_span(rest, interval);
        assert(rest.first() == e[1] && rest.last() == e.last());
        assert(e.first() + interval <= e[1]);
        assert(rest.first() + (rest.len() - 1) * interval <= rest.last());
        assert((e.len() - 1) * interval == interval + (rest.len() - 1) * interval)
            by (nonlinear_arith)
            requires
                e.len() == rest.len() + 1,
                rest.len() >= 1,
        ;
        assert(e.first() + (e.len() - 1) * interval <= e.last());
    } else if e.len() == 1 {
        assert((e.len() - 1) * interval == 0) by (nonlinear_arith)
            requires
                e.len() == 1,
        ;
        assert(e.first() <= e.last());
    }
}

/// Law: the number of progress events over a transfer observed from
/// `start` for `duration` milliseconds never exceeds
/// `duration / interval + 1` — one per full interval window, plus the
/// opening event.
pub proof fn lemma_emission_count(interval: u64, times: Seq<u64>, duration: u64)
    requires
        interval > 0,
        times.len() > 0,
        forall|i: int, j: int| 0 <= i <= j < times.len() ==> times[i] <= times[j],
        times.last() - times.first() <= duration,
    ensures
        emitted_instants(interval, None, times).len() <= duration / interval + 1,
{
    let e = emitted_instants(interval, None, times);
    lemma_emissions_spaced(interval, None, times);
    lemma_spaced_span(e, interval);
    if e.len() >= 1 {
        assert(times.first() <= e.first() && e.last() <= times.last());
        assert((e.len() - 1) * interval <= duration);
        assert(e.len() - 1 <= duration / interval) by (nonlinear_arith)
            requires
                (e.len() - 1) * interval <= duration,
                interval > 0,
                e.len() >= 1,
                duration >= 0;
    }
}

} // verus!
