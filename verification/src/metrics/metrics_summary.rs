//! The aggregate the run exposes: running counts and duration series,
//! owned solely by the single consumer of the event channel and mutated
//! only by its consumption loop, one event at a time.

use vstd::prelude::*;
use crate::metrics::request_metric::{CompletionResult, RequestMetric, RequestState};

verus! {

/// How many events of `events` are `InProgress`.
pub open spec fn count_in_progress(events: Seq<RequestMetric>) -> int
    decreases events.len(),
{
    if events.len() == 0 {
        0
    } else {
        count_in_progress(events.drop_last()) + if events.last().status is InProgress {
            1int
        } else {
            0int
        }
    }
}

/// How many events of `events` are `Completed`.
pub open spec fn count_completed(events: Seq<RequestMetric>) -> int
    decreases events.len(),
{
    if events.len() == 0 {
        0
    } else {
        count_completed(events.drop_last()) + if events.last().status is Completed {
            1int
        } else {
            0int
        }
    }
}

/// How many events of `events` complete a request successfully.
pub open spec fn count_ok(events: Seq<RequestMetric>) -> int
    decreases events.len(),
{
    if events.len() == 0 {
        0
    } else {
        count_ok(events.drop_last()) + match events.last().status {
            RequestState::Completed(c) => if c.result is Succeeded {
                1int
            } else {
                0int
            },
            RequestState::InProgress(_) => 0int,
        }
    }
}

/// How many events of `events` complete a request with an error.
pub open spec fn count_errors(events: Seq<RequestMetric>) -> int
    decreases events.len(),
{
    if events.len() == 0 {
        0
    } else {
        count_errors(events.drop_last()) + match events.last().status {
            RequestState::Completed(c) => if c.result is Failed {
                1int
            } else {
                0int
            },
            RequestState::InProgress(_) => 0int,
        }
    }
}

/// What the completed events of `events` append to the success duration
/// series: the duration for a success, a `0` placeholder for an error, so
/// both series stay index-aligned.
pub open spec fn ok_durations_of(events: Seq<RequestMetric>) -> Seq<u64>
    decreases events.len(),
{
    if events.len() == 0 {
        Seq::empty()
    } else {
        ok_durations_of(events.drop_last()) + match events.last().status {
            RequestState::Completed(c) => seq![
                if c.result is Succeeded {
                    (c.end - c.start) as u64
                } else {
                    0u64
                },
            ],
            RequestState::InProgress(_) => Seq::empty(),
        }
    }
}

/// What the completed events of `events` append to the error duration
/// series: the duration for an error, a `0` placeholder for a success.
pub open spec fn error_durations_of(events: Seq<RequestMetric>) -> Seq<u64>
    decreases events.len(),
{
    if events.len() == 0 {
        Seq::empty()
    } else {
        error_durations_of(events.drop_last()) + match events.last().status {
            RequestState::Completed(c) => seq![
                if c.result is Failed {
                    (c.end - c.start) as u64
                } else {
                    0u64
                },
            ],
            RequestState::InProgress(_) => Seq::empty(),
        }
    }
}

/// No count outgrows the number of events counted.
pub proof fn lemma_counts_le_len(events: Seq<RequestMetric>)
    ensures
        0 <= count_in_progress(events) <= events.len(),
        0 <= count_completed(events) <= events.len(),
        0 <= count_ok(events) <= events.len(),
        0 <= count_errors(events) <= events.len(),
    decreases events.len(),
{
    if events.len() > 0 {
        lemma_counts_le_len(events.drop_last());
    }
}

/// Every completion is a success or an error, so the two tallies sum to
/// the completions.
pub proof fn lemma_completed_counts(events: Seq<RequestMetric>)
    ensures
        count_ok(events) + count_errors(events) == count_completed(events),
    decreases events.len(),
{
    if events.len() > 0 {
        lemma_completed_counts(events.drop_last());
    }
}

/// Lifecycle accounting: a fully paired event stream — as many
/// completions as starts, `n` of each — yields `ok + errors == n` and
/// leaves nothing in flight (`count_in_progress - count_completed == 0`).
pub proof fn lemma_lifecycle_accounting(events: Seq<RequestMetric>, n: int)
    requires
        count_in_progress(events) == n,
        count_completed(events) == n,
    ensures
        count_ok(events) + count_errors(events) == n,
        count_in_progress(events) - count_completed(events) == 0,
{
    lemma_completed_counts(events);
}

/// The mutable aggregate: counts of in-flight, succeeded and failed
/// requests against the run's expected total, and the two index-aligned
/// duration series in milliseconds.
pub struct MetricsSummary {
    pub in_progress: usize,
    pub errors: usize,
    pub ok: usize,
    pub total_expected: usize,
    pub ok_durations_ms: Vec<u64>,
    pub error_durations_ms: Vec<u64>,
}

impl MetricsSummary {
    /// A fresh summary expecting `total_expected` requests: all counts
    /// zero, both series empty.
    pub fn new(total_expected: usize) -> (s: Self)
        ensures
            s.in_progress == 0,
            s.errors == 0,
            s.ok == 0,
            s.total_expected == total_expected,
            s.ok_durations_ms@ == Seq::<u64>::empty(),
            s.error_durations_ms@ == Seq::<u64>::empty(),
    {
        MetricsSummary {
            in_progress: 0,
            errors: 0,
            ok: 0,
            total_expected,
            ok_durations_ms: Vec::new(),
            error_durations_ms: Vec::new(),
        }
    }

    /// Consumes one event. `InProgress` raises the in-flight count;
    /// `Completed` lowers it, tallies the result, and appends the duration
    /// to its series and a `0` placeholder to the other, keeping the two
    /// series index-aligned.
    pub fn record(&mut self, metrics: RequestMetric)
        requires
            metrics.status is InProgress ==> old(self).in_progress < usize::MAX,
            metrics.status matches RequestState::Completed(c) ==> {
                &&& old(self).in_progress >= 1
                &&& c.start <= c.end
                &&& old(self).ok < usize::MAX
                &&& old(self).errors < usize::MAX
            },
        ensures
            final(self).total_expected == old(self).total_expected,
            match metrics.status {
                RequestState::InProgress(_) => {
                    &&& final(self).in_progress == old(self).in_progress + 1
                    &&& final(self).ok == old(self).ok
                    &&& final(self).errors == old(self).errors
                    &&& final(self).ok_durations_ms@ == old(self).ok_durations_ms@
                    &&& final(self).error_durations_ms@ == old(self).error_durations_ms@
                },
                RequestState::Completed(c) => {
                    &&& final(self).in_progress == old(self).in_progress - 1
                    &&& final(self).ok == old(self).ok + if c.result is Succeeded {
                        1int
                    } else {
                        0int
                    }
                    &&& final(self).errors == old(self).errors + if c.result is Failed {
                        1int
                    } else {
                        0int
                    }
                    &&& final(self).ok_durations_ms@ == old(self).ok_durations_ms@.push(
                        if c.result is Succeeded {
                            (c.end - c.start) as u64
                        } else {
                            0u64
                        },
                    )
                    &&& final(self).error_durations_ms@ == old(self).error_durations_ms@.push(
                        if c.result is Failed {
                            (c.end - c.start) as u64
                        } else {
                            0u64
                        },
                    )
                },
            },
    {
        match metrics.status() {
            RequestState::InProgress(_) => {
                self.in_progress = self.in_progress + 1;
            },
            RequestState::Completed(completion_result) => {
                self.in_progress = self.in_progress - 1;
                let duration = completion_result.end - completion_result.start;
                match completion_result.result {
                    CompletionResult::Failed => {
                        self.errors = self.errors + 1;
                        self.error_durations_ms.push(duration);
                        self.ok_durations_ms.push(0);
                    },
                    CompletionResult::Succeeded => {
                        self.ok = self.ok + 1;
                        self.ok_durations_ms.push(duration);
                        self.error_durations_ms.push(0);
                    },
                }
            },
        }
    }

    /// Consumes a whole event sequence in emission order. The counts move
    /// by exactly the events' tallies and the duration series grow by
    /// exactly the events' durations — so a fully paired stream of
    /// `total_expected` requests drives the summary to completion (see
    /// [`lemma_lifecycle_accounting`]).
    pub fn record_all(&mut self, events: &Vec<RequestMetric>)
        requires
            old(self).in_progress + events@.len() <= usize::MAX,
            old(self).ok + events@.len() < usize::MAX,
            old(self).errors + events@.len() < usize::MAX,
            forall|j: int|
                0 <= j < events@.len() && (#[trigger] events@[j]).status is Completed ==> count_completed(
                    events@.take(j),
                ) < old(self).in_progress + count_in_progress(events@.take(j)),
            forall|j: int|
                0 <= j < events@.len() ==> ((#[trigger] events@[j]).status matches
                RequestState::Completed(c) ==> c.start <= c.end),
        ensures
            final(self).total_expected == old(self).total_expected,
            final(self).in_progress == old(self).in_progress + count_in_progress(events@)
                - count_completed(events@),
            final(self).ok == old(self).ok + count_ok(events@),
            final(self).errors == old(self).errors + count_errors(events@),
            final(self).ok_durations_ms@ == old(self).ok_durations_ms@ + ok_durations_of(events@),
            final(self).error_durations_ms@ == old(self).error_durations_ms@ + error_durations_of(
                events@,
            ),
    {
        let n = events.len();
        let mut j: usize = 0;
        proof {
            assert(events@.take(0) =~= Seq::<RequestMetric>::empty());
            assert(old(self).ok_durations_ms@ + ok_durations_of(events@.take(0))
                =~= old(self).ok_durations_ms@);
            assert(old(self).error_durations_ms@ + error_durations_of(events@.take(0))
                =~= old(self).error_durations_ms@);
        }
        while j < n
            invariant
                j <= n,
                n == events@.len(),
                old(self).in_progress + events@.len() <= usize::MAX,
                old(self).ok + events@.len() < usize::MAX,
                old(self).errors + events@.len() < usize::MAX,
                forall|m: int|
                    0 <= m < events@.len() && (#[trigger] events@[m]).status is Completed
                        ==> count_completed(events@.take(m)) < old(self).in_progress
                        + count_in_progress(events@.take(m)),
                forall|m: int|
                    0 <= m < events@.len() ==> ((#[trigger] events@[m]).status matches
                    RequestState::Completed(c) ==> c.start <= c.end),
                self.total_expected == old(self).total_expected,
                self.in_progress == old(self).in_progress + count_in_progress(
                    events@.take(j as int),
                ) - count_completed(events@.take(j as int)),
                self.ok == old(self).ok + count_ok(events@.take(j as int)),
                self.errors == old(self).errors + count_errors(events@.take(j as int)),
                self.ok_durations_ms@ == old(self).ok_durations_ms@ + ok_durations_of(
                    events@.take(j as int),
                ),
                self.error_durations_ms@ == old(self).error_durations_ms@ + error_durations_of(
                    events@.take(j as int),
                ),
            decreases n - j,
        {
            let ghost prefix = events@.take(j as int);
            let ghost next_prefix = events@.take(j as int + 1);
            proof {
                assert(next_prefix.drop_last() =~= prefix);
                assert(next_prefix.last() == events@[j as int]);
                lemma_counts_le_len(prefix);
                lemma_counts_le_len(next_prefix);
            }
            let m = events[j];
            self.record(m);
            proof {
                if m.status is Completed {
                    assert(self.ok_durations_ms@ =~= old(self).ok_durations_ms@
                        + ok_durations_of(next_prefix));
                    assert(self.error_durations_ms@ =~= old(self).error_durations_ms@
                        + error_durations_of(next_prefix));
                } else {
                    assert(ok_durations_of(next_prefix) =~= ok_durations_of(prefix));
                    assert(error_durations_of(next_prefix) =~= error_durations_of(prefix));
                }
            }
            j += 1;
        }
        proof {
            assert(events@.take(n as int) =~= events@);
        }
    }

    /// Whether the run is complete: every expected request has been
    /// tallied, as a success or an error.
    pub fn is_completed(&self) -> (r: bool)
        ensures
            r == (self.total_expected == self.ok + self.errors),
    {
        self.ok <= self.total_expected && self.total_expected - self.ok == self.errors
    }
}

} // verus!
