//! A counts-only aggregator over the same event stream: in-flight,
//! succeeded and failed tallies against the expected total, exposing a
//! snapshot summary for rendering.

use vstd::prelude::*;
use crate::metrics::metrics_summary::MetricsSummary;
use crate::metrics::request_metric::{CompletionResult, RequestMetric, RequestState};

verus! {

/// Running counts of one run's requests.
#[derive(Debug)]
pub struct ComputedMetrics {
    in_progress: u16,
    errors: u16,
    ok: u16,
    total_expected: u16,
}

impl ComputedMetrics {
    /// How many requests are in flight.
    pub closed spec fn spec_in_progress(&self) -> u16 {
        self.in_progress
    }

    /// How many requests have failed.
    pub closed spec fn spec_errors(&self) -> u16 {
        self.errors
    }

    /// How many requests have succeeded.
    pub closed spec fn spec_ok(&self) -> u16 {
        self.ok
    }

    /// How many requests the run expects in all.
    pub closed spec fn spec_total_expected(&self) -> u16 {
        self.total_expected
    }

    /// Fresh counts for a run of `total_expected` requests.
    pub fn new(total_expected: u16) -> (c: Self)
        ensures
            c.spec_in_progress() == 0,
            c.spec_errors() == 0,
            c.spec_ok() == 0,
            c.spec_total_expected() == total_expected,
    {
        ComputedMetrics { in_progress: 0, errors: 0, ok: 0, total_expected }
    }

    /// Tallies one event: `InProgress` raises the in-flight count,
    /// `Completed` lowers it and counts the result.
    pub fn record(&mut self, metric: &RequestMetric)
        requires
            metric.status is InProgress ==> old(self).spec_in_progress() < u16::MAX,
            metric.status matches RequestState::Completed(c) ==> {
                &&& old(self).spec_in_progress() >= 1
                &&& old(self).spec_ok() < u16::MAX
                &&& old(self).spec_errors() < u16::MAX
            },
        ensures
            final(self).spec_total_expected() == old(self).spec_total_expected(),
            match metric.status {
                RequestState::InProgress(_) => {
                    &&& final(self).spec_in_progress() == old(self).spec_in_progress() + 1
                    &&& final(self).spec_ok() == old(self).spec_ok()
                    &&& final(self).spec_errors() == old(self).spec_errors()
                },
                RequestState::Completed(c) => {
                    &&& final(self).spec_in_progress() == old(self).spec_in_progress() - 1
                    &&& final(self).spec_ok() == old(self).spec_ok() + if c.result is Succeeded {
                        1int
                    } else {
                        0int
                    }
                    &&& final(self).spec_errors() == old(self).spec_errors() + if c.result
                        is Failed {
                        1int
                    } else {
                        0int
                    }
                },
            },
    {
        match &metric.status {
            RequestState::InProgress(_) => {
                self.in_progress = self.in_progress + 1;
            },
            RequestState::Completed(cs) => {
                self.in_progress = self.in_progress - 1;
                match cs.result {
                    CompletionResult::Failed => {
                        self.errors = self.errors + 1;
                    },
                    CompletionResult::Succeeded => {
                        self.ok = self.ok + 1;
                    },
                }
            },
        }
    }

    /// A counts-only snapshot for rendering; the duration series stay with
    /// the channel-consuming aggregator, so they are empty here.
    pub fn summary(&self) -> (s: MetricsSummary)
        ensures
            s.in_progress == self.spec_in_progress() as int,
            s.ok == self.spec_ok() as int,
            s.errors == self.spec_errors() as int,
            s.total_expected == self.spec_total_expected() as int,
            s.ok_durations_ms@ == Seq::<u64>::empty(),
            s.error_durations_ms@ == Seq::<u64>::empty(),
    {
        MetricsSummary {
            in_progress: self.in_progress as usize,
            ok: self.ok as usize,
            errors: self.errors as usize,
            total_expected: self.total_expected as usize,
            ok_durations_ms: Vec::new(),
            error_durations_ms: Vec::new(),
        }
    }
}

} // verus!
