//! The repeating spawn countdown.
//!
//! The timer accumulates per-frame elapsed time; when a full period has
//! gone by it fires and the countdown resets to the configured period, so
//! consecutive firings are always at least one period of elapsed time
//! apart. The laws at the bottom state exactly that.

use vstd::prelude::*;

verus! {

/// A repeating countdown, in milliseconds.
#[derive(Clone, Copy, Debug, PartialEq, Eq, Structural)]
pub struct SpawnTimer {
    pub period_ms: u64,
    pub remaining_ms: u64,
}

impl SpawnTimer {
    /// Well-formed: the countdown never exceeds the period and never sits
    /// at zero (a firing resets it at once).
    pub open spec fn wf(self) -> bool {
        0 < self.remaining_ms <= self.period_ms
    }

    /// Whether advancing by `delta_ms` makes the timer fire.
    pub open spec fn spec_fires(self, delta_ms: u64) -> bool {
        delta_ms >= self.remaining_ms
    }

    /// The timer after advancing by `delta_ms`: on a firing the countdown
    /// resets to the full period, otherwise it shrinks by the elapsed time.
    pub open spec fn spec_step(self, delta_ms: u64) -> SpawnTimer {
        if self.spec_fires(delta_ms) {
            SpawnTimer { period_ms: self.period_ms, remaining_ms: self.period_ms }
        } else {
            SpawnTimer {
                period_ms: self.period_ms,
                remaining_ms: (self.remaining_ms - delta_ms) as u64,
            }
        }
    }

    /// A fresh timer that will first fire once `period_ms` has elapsed.
    pub fn new(period_ms: u64) -> (t: SpawnTimer)
        requires
            period_ms > 0,
        ensures
            t.wf(),
            t.period_ms == period_ms,
            t.remaining_ms == period_ms,
    {
        SpawnTimer { period_ms, remaining_ms: period_ms }
    }

    /// Advance by `delta_ms`; the result says whether the timer fired.
    pub fn tick(&mut self, delta_ms: u64) -> (fired: bool)
        requires
            old(self).wf(),
        ensures
            final(self).wf(),
            fired == old(self).spec_fires(delta_ms),
            *final(self) == old(self).spec_step(delta_ms),
    {
        if delta_ms >= self.remaining_ms {
            self.remaining_ms = self.period_ms;
            true
        } else {
            self.remaining_ms = self.remaining_ms - delta_ms;
            false
        }
    }
}

/// The timer after a whole sequence of advances.
pub open spec fn run_timer(t: SpawnTimer, deltas: Seq<u64>) -> SpawnTimer
    decreases deltas.len(),
{
    if deltas.len() == 0 {
        t
    } else {
        run_timer(t.spec_step(deltas[0]), deltas.drop_first())
    }
}

/// Whether the timer fires on the advance at position `i` of the sequence.
pub open spec fn fires_at(t: SpawnTimer, deltas: Seq<u64>, i: int) -> bool {
    run_timer(t, deltas.take(i)).spec_fires(deltas[i])
}

/// Total elapsed time over a sequence of advances.
pub open spec fn total_elapsed(deltas: Seq<u64>) -> int
    decreases deltas.len(),
{
    if deltas.len() == 0 {
        0
    } else {
        deltas[0] + total_elapsed(deltas.drop_first())
    }
}

proof fn lemma_run_timer_push(t: SpawnTimer, deltas: Seq<u64>, x: u64)
    ensures
        run_timer(t, deltas.push(x)) == run_timer(t, deltas).spec_step(x),
    decreases deltas.len(),
{
    let s = deltas.push(x);
    if deltas.len() == 0 {
        assert(s[0] == x);
        assert(s.drop_first() =~= Seq::<u64>::empty());
        assert(run_timer(t, s) == run_timer(t.spec_step(x), s.drop_first()));
        assert(run_timer(t.spec_step(x), Seq::<u64>::empty()) == t.spec_step(x));
        assert(run_timer(t, deltas) == t);
    } else {
        assert(s[0] == deltas[0]);
        assert(s.drop_first() =~= deltas.drop_first().push(x));
        assert(run_timer(t, s) == run_timer(t.spec_step(deltas[0]), s.drop_first()));
        lemma_run_timer_push(t.spec_step(deltas[0]), deltas.drop_first(), x);
        assert(run_timer(t, deltas) == run_timer(t.spec_step(deltas[0]), deltas.drop_first()));
    }
}

proof fn lemma_total_elapsed_push(deltas: Seq<u64>, x: u64)
    ensures
        total_elapsed(deltas.push(x)) == total_elapsed(deltas) + x,
    decreases deltas.len(),
{
    let s = deltas.push(x);
    if deltas.len() == 0 {
        assert(s[0] == x);
        assert(s.drop_first() =~= Seq::<u64>::empty());
        assert(total_elapsed(s) == x + total_elapsed(s.drop_first()));
        assert(total_elapsed(Seq::<u64>::empty()) == 0);
        assert(total_elapsed(deltas) == 0);
    } else {
        assert(s[0] == deltas[0]);
        assert(s.drop_first() =~= deltas.drop_first().push(x));
        assert(total_elapsed(s) == deltas[0] + total_elapsed(s.drop_first()));
        lemma_total_elapsed_push(deltas.drop_first(), x);
        assert(total_elapsed(deltas) == deltas[0] + total_elapsed(deltas.drop_first()));
    }
}

proof fn lemma_run_timer_period(t: SpawnTimer, deltas: Seq<u64>)
    ensures
        run_timer(t, deltas).period_ms == t.period_ms,
    decreases deltas.len(),
{
    if deltas.len() > 0 {
        lemma_run_timer_period(t.spec_step(deltas[0]), deltas.drop_first());
    }
}

proof fn lemma_run_timer_concat(t: SpawnTimer, s1: Seq<u64>, s2: Seq<u64>)
    ensures
        run_timer(t, s1 + s2) == run_timer(run_timer(t, s1), s2),
    decreases s1.len(),
{
    if s1.len() == 0 {
        assert(s1 + s2 =~= s2);
    } else {
        assert((s1 + s2).drop_first() =~= s1.drop_first() + s2);
        lemma_run_timer_concat(t.spec_step(s1[0]), s1.drop_first(), s2);
    }
}

/// While the timer has not fired, the countdown tracks the elapsed time
/// exactly: after a quiet prefix, what remains is the starting countdown
/// less the time gone by.
proof fn lemma_quiet_prefix(t: SpawnTimer, deltas: Seq<u64>, i: int)
    requires
        t.wf(),
        0 <= i <= deltas.len(),
        forall|j: int| 0 <= j < i ==> !fires_at(t, deltas, j),
    ensures
        run_timer(t, deltas.take(i)).wf(),
        run_timer(t, deltas.take(i)).period_ms == t.period_ms,
        run_timer(t, deltas.take(i)).remaining_ms == t.remaining_ms - total_elapsed(
            deltas.take(i),
        ),
    decreases i,
{
    if i == 0 {
        assert(deltas.take(0) =~= Seq::<u64>::empty());
    } else {
        lemma_quiet_prefix(t, deltas, i - 1);
        assert(deltas.take(i) =~= deltas.take(i - 1).push(deltas[i - 1]));
        lemma_run_timer_push(t, deltas.take(i - 1), deltas[i - 1]);
        lemma_total_elapsed_push(deltas.take(i - 1), deltas[i - 1]);
        assert(!fires_at(t, deltas, i - 1));
    }
}

/// The timer never fires early: starting from a freshly reset countdown,
/// the advance on which the first firing happens brings the accumulated
/// elapsed time to at least the configured period.
pub proof fn lemma_no_fire_before_period(t: SpawnTimer, deltas: Seq<u64>, i: int)
    requires
        t.wf(),
        t.remaining_ms == t.period_ms,
        0 <= i < deltas.len(),
        forall|j: int| 0 <= j < i ==> !fires_at(t, deltas, j),
        fires_at(t, deltas, i),
    ensures
        total_elapsed(deltas.take(i + 1)) >= t.period_ms,
{
    lemma_quiet_prefix(t, deltas, i);
    assert(deltas.take(i + 1) =~= deltas.take(i).push(deltas[i]));
    lemma_total_elapsed_push(deltas.take(i), deltas[i]);
}

proof fn lemma_fires_at_shift(t: SpawnTimer, deltas: Seq<u64>, i: int, m: int, k: int)
    requires
        0 <= i < k < deltas.len(),
        0 <= m < k - i,
    ensures
        fires_at(run_timer(t, deltas.take(i + 1)), deltas.subrange(i + 1, k + 1), m)
            == fires_at(t, deltas, i + 1 + m),
{
    let s = deltas.subrange(i + 1, k + 1);
    assert(deltas.take(i + 1 + m) =~= deltas.take(i + 1) + s.take(m));
    lemma_run_timer_concat(t, deltas.take(i + 1), s.take(m));
    assert(s[m] == deltas[i + 1 + m]);
}

/// A firing resets the countdown, so the next firing again needs a full
/// period: between one firing and the next, at least `period_ms` of
/// elapsed time goes by.
pub proof fn lemma_fires_separated(t: SpawnTimer, deltas: Seq<u64>, i: int, k: int)
    requires
        t.wf(),
        0 <= i < k < deltas.len(),
        fires_at(t, deltas, i),
        forall|j: int| i < j < k ==> !fires_at(t, deltas, j),
        fires_at(t, deltas, k),
    ensures
        total_elapsed(deltas.subrange(i + 1, k + 1)) >= t.period_ms,
{
    let t1 = run_timer(t, deltas.take(i + 1));
    assert(deltas.take(i + 1) =~= deltas.take(i).push(deltas[i]));
    lemma_run_timer_push(t, deltas.take(i), deltas[i]);
    lemma_run_timer_period(t, deltas.take(i));
    assert(t1.remaining_ms == t.period_ms);
    assert(t1.period_ms == t.period_ms) by {
        lemma_run_timer_period(t, deltas.take(i + 1));
    }
    let s = deltas.subrange(i + 1, k + 1);
    assert forall|m: int| 0 <= m < k - i - 1 implies !fires_at(t1, s, m) by {
        lemma_fires_at_shift(t, deltas, i, m, k);
    }
    lemma_fires_at_shift(t, deltas, i, k - i - 1, k);
    lemma_no_fire_before_period(t1, s, k - i - 1);
    assert(s.take(k - i) =~= s);
}

} // verus!
