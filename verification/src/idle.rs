//! The idle monitor attached to a voice session. Once per second it observes
//! whether the playback queue is empty: an empty observation raises its
//! counter, a non-empty one resets the counter to zero, and when the counter
//! reaches the configured limit the monitor triggers an automatic leave and
//! detaches (no further tick changes its state).
use vstd::prelude::*;

verus! {

/// The number of consecutive empty-queue ticks after which a session is
/// automatically disconnected (one tick per second, ten minutes).
pub const IDLE_LIMIT: u64 = 60 * 10;

/// Counter of consecutive idle (empty-queue) ticks.
#[derive(Clone, Copy, PartialEq, Eq, Structural, Debug)]
pub struct IdleMonitor {
    pub count: u64,
    pub limit: u64,
}

/// One observation step: a triggered monitor is detached and never moves
/// again; a non-empty queue resets the counter; an empty queue raises it.
pub open spec fn tick_step(m: IdleMonitor, queue_empty: bool) -> IdleMonitor {
    if m.count == m.limit {
        m
    } else if !queue_empty {
        IdleMonitor { count: 0, limit: m.limit }
    } else {
        IdleMonitor { count: (m.count + 1) as u64, limit: m.limit }
    }
}

/// The monitor after a whole sequence of observations (`true` = queue was
/// observed empty on that tick).
pub open spec fn run_ticks(m: IdleMonitor, obs: Seq<bool>) -> IdleMonitor
    decreases obs.len(),
{
    if obs.len() == 0 {
        m
    } else {
        run_ticks(tick_step(m, obs[0]), obs.drop_first())
    }
}

impl IdleMonitor {
    /// The counter never runs past the limit.
    pub open spec fn wf(self) -> bool {
        0 < self.limit && self.count <= self.limit
    }

    /// The monitor has seen `limit` consecutive empty ticks and has fired.
    pub open spec fn is_triggered(self) -> bool {
        self.count == self.limit
    }

    /// A fresh monitor, as attached on every join.
    pub open spec fn spec_fresh(limit: u64) -> IdleMonitor {
        IdleMonitor { count: 0, limit }
    }

    /// A fresh monitor with the given trigger limit.
    pub fn fresh(limit: u64) -> (m: IdleMonitor)
        requires
            0 < limit,
        ensures
            m == IdleMonitor::spec_fresh(limit),
            m.wf(),
            !m.is_triggered(),
    {
        IdleMonitor { count: 0, limit }
    }

    /// One periodic observation of queue emptiness. Returns whether this
    /// very tick made the monitor fire the automatic leave.
    pub fn tick(&mut self, queue_empty: bool) -> (fired: bool)
        requires
            old(self).wf(),
            !old(self).is_triggered(),
        ensures
            final(self).wf(),
            *final(self) == tick_step(*old(self), queue_empty),
            fired == final(self).is_triggered(),
    {
        if queue_empty {
            self.count = self.count + 1;
            self.count == self.limit
        } else {
            self.count = 0;
            false
        }
    }
}

/// Running `n` consecutive empty-queue observations from a fresh monitor
/// triggers the monitor exactly when `n` reaches the limit: never before,
/// always from then on, and the counter counts the observations until it
/// saturates at the limit.
pub proof fn lemma_trigger_exact(limit: u64, obs: Seq<bool>)
    requires
        0 < limit,
        forall|i: int| 0 <= i < obs.len() ==> obs[i],
    ensures
        run_ticks(IdleMonitor::spec_fresh(limit), obs).is_triggered() <==> obs.len() >= limit,
        run_ticks(IdleMonitor::spec_fresh(limit), obs).count == (if obs.len() >= limit {
            limit as int
        } else {
            obs.len() as int
        }),
{
    lemma_empty_run(IdleMonitor::spec_fresh(limit), obs);
}

proof fn lemma_empty_run(m: IdleMonitor, obs: Seq<bool>)
    requires
        m.wf(),
        forall|i: int| 0 <= i < obs.len() ==> obs[i],
    ensures
        run_ticks(m, obs).limit == m.limit,
        run_ticks(m, obs).count == (if m.count + obs.len() >= m.limit {
            m.limit as int
        } else {
            m.count + obs.len()
        }),
    decreases obs.len(),
{
    if obs.len() > 0 {
        assert(forall|i: int| 0 <= i < obs.drop_first().len() ==> obs.drop_first()[i]);
        lemma_empty_run(tick_step(m, obs[0]), obs.drop_first());
    }
}

/// Ticks `i` to `i + k - 1` of `obs` all observed an empty queue.
pub open spec fn all_empty(obs: Seq<bool>, i: int, k: int) -> bool {
    forall|j: int| i <= j < i + k ==> obs[j]
}

/// Somewhere in `obs` stand `limit` consecutive empty-queue observations
/// with no non-empty one between them.
pub open spec fn has_empty_run(obs: Seq<bool>, limit: int) -> bool {
    exists|i: int| 0 <= i && i + limit <= obs.len() && #[trigger] all_empty(obs, i, limit)
}

/// The monitor triggers on an arbitrary observation sequence exactly when
/// the sequence somewhere holds `limit` consecutive empty-queue ticks with
/// no intervening non-empty tick.
pub proof fn lemma_trigger_characterization(limit: u64, obs: Seq<bool>)
    requires
        0 < limit,
    ensures
        run_ticks(IdleMonitor::spec_fresh(limit), obs).is_triggered() <==> has_empty_run(
            obs,
            limit as int,
        ),
{
    lemma_run_characterization(IdleMonitor::spec_fresh(limit), obs);
}

proof fn lemma_run_characterization(m: IdleMonitor, obs: Seq<bool>)
    requires
        m.wf(),
        !m.is_triggered(),
    ensures
        run_ticks(m, obs).is_triggered() <==> ((m.limit - m.count <= obs.len() && all_empty(
            obs,
            0,
            m.limit - m.count,
        )) || has_empty_run(obs, m.limit as int)),
    decreases obs.len(),
{
    let limit: int = m.limit as int;
    if obs.len() == 0 {
        assert(!has_empty_run(obs, limit)) by {
            if has_empty_run(obs, limit) {
                let i: int = choose|i: int| 0 <= i && i + limit <= obs.len() && all_empty(obs, i, limit);
            }
        }
    } else {
        let rest = obs.drop_first();
        let m1 = tick_step(m, obs[0]);
        // a window of obs away from the front is a window of rest, and back
        assert forall|i: int, k: int| 1 <= i && 0 <= k && i + k <= obs.len() implies (all_empty(
            obs,
            i,
            k,
        ) <==> all_empty(rest, i - 1, k)) by {
            assert(forall|j: int| 0 <= j < rest.len() ==> rest[j] == obs[j + 1]);
            if all_empty(obs, i, k) {
                assert forall|j: int| i - 1 <= j < i - 1 + k implies rest[j] by {
                    assert(obs[j + 1]);
                }
            }
            if all_empty(rest, i - 1, k) {
                assert forall|j: int| i <= j < i + k implies obs[j] by {
                    assert(rest[j - 1]);
                }
            }
        }
        assert(has_empty_run(obs, limit) <==> ((limit <= obs.len() && all_empty(obs, 0, limit))
            || has_empty_run(rest, limit))) by {
            if has_empty_run(obs, limit) {
                let i: int = choose|i: int| 0 <= i && i + limit <= obs.len() && #[trigger] all_empty(obs, i, limit);
                if i >= 1 {
                    assert(all_empty(rest, i - 1, limit));
                }
            }
            if has_empty_run(rest, limit) {
                let i: int = choose|i: int| 0 <= i && i + limit <= rest.len() && #[trigger] all_empty(rest, i, limit);
                assert(all_empty(obs, i + 1, limit));
            }
        }
        if obs[0] {
            if m1.is_triggered() {
                // the tick that fired closes a full window ending here
                assert(all_empty(obs, 0, m.limit - m.count));
                assert(run_ticks(m, obs).is_triggered()) by {
                    lemma_triggered_stays(m1, rest);
                }
            } else {
                lemma_run_characterization(m1, rest);
                let k0: int = m.limit - m.count;
                assert((k0 <= obs.len() && all_empty(obs, 0, k0)) <==> (k0 - 1 <= rest.len()
                    && all_empty(rest, 0, k0 - 1))) by {
                    if k0 <= obs.len() {
                        if all_empty(obs, 0, k0) {
                            assert(all_empty(obs, 1, k0 - 1));
                        }
                        if all_empty(rest, 0, k0 - 1) {
                            assert(all_empty(obs, 1, k0 - 1));
                            assert forall|j: int| 0 <= j < k0 implies obs[j] by {
                                if j == 0 {
                                    assert(obs[0]);
                                }
                            }
                        }
                    }
                }
                if limit <= obs.len() && all_empty(obs, 0, limit) {
                    assert(all_empty(obs, 0, m.limit - m.count));
                }
            }
        } else {
            lemma_run_characterization(m1, rest);
            assert(!all_empty(obs, 0, m.limit - m.count)) by {
                assert(!obs[0]);
            }
            assert(!(limit <= obs.len() && all_empty(obs, 0, limit))) by {
                assert(!obs[0]);
            }
            if m1.limit - m1.count <= rest.len() && all_empty(rest, 0, m1.limit - m1.count) {
                assert(has_empty_run(rest, limit)) by {
                    assert(all_empty(rest, 0, limit));
                }
            }
            if has_empty_run(rest, limit) && run_ticks(m, obs).is_triggered() {
            }
        }
    }
}

/// Once triggered, the monitor is detached: no further observation moves it.
proof fn lemma_triggered_stays(m: IdleMonitor, obs: Seq<bool>)
    requires
        m.is_triggered(),
    ensures
        run_ticks(m, obs) == m,
    decreases obs.len(),
{
    if obs.len() > 0 {
        lemma_triggered_stays(tick_step(m, obs[0]), obs.drop_first());
    }
}

/// Any tick that observes a non-empty queue resets a still-attached
/// monitor's counter to zero.
pub proof fn lemma_nonempty_resets(m: IdleMonitor)
    requires
        m.wf(),
        !m.is_triggered(),
    ensures
        tick_step(m, false).count == 0,
        !tick_step(m, false).is_triggered(),
{
}

} // verus!
