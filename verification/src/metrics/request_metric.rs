//! One request's lifecycle record: in flight from its start instant, then
//! completed with an end instant and a result. Exactly one `InProgress`
//! event precedes exactly one `Completed` event per request; both carry the
//! request's identity and pass through the event channel by value.

use vstd::prelude::*;

verus! {

/// The in-flight half of a request's lifecycle: its start instant, in
/// milliseconds.
#[derive(Clone, Copy, PartialEq, Eq, Structural, Debug)]
pub struct InProgressState {
    pub start: u64,
}

/// How a completed request ended: a response that passed status
/// verification, or an error (transport failure or status mismatch).
#[derive(Clone, Copy, PartialEq, Eq, Structural, Debug)]
pub enum CompletionResult {
    Succeeded,
    Failed,
}

/// The completed half of a request's lifecycle: start and end instants in
/// milliseconds, and how it ended.
#[derive(Clone, Copy, PartialEq, Eq, Structural, Debug)]
pub struct CompletedState {
    pub start: u64,
    pub end: u64,
    pub result: CompletionResult,
}

/// Where a request stands.
#[derive(Clone, Copy, PartialEq, Eq, Structural, Debug)]
pub enum RequestState {
    InProgress(InProgressState),
    Completed(CompletedState),
}

/// One immutable lifecycle event for one request, identified by its
/// executor, its 1-based position within the executor's batch, and its
/// ordinal.
#[derive(Clone, Copy, PartialEq, Eq, Structural, Debug)]
pub struct RequestMetric {
    pub request_id: u64,
    pub executor_id: u64,
    pub task_in_executor: u64,
    pub status: RequestState,
}

/// The start instant an event carries: when its request went in flight.
pub open spec fn event_start(m: RequestMetric) -> u64 {
    match m.status {
        RequestState::InProgress(ip) => ip.start,
        RequestState::Completed(c) => c.start,
    }
}

/// The latest instant an event carries.
pub open spec fn event_end(m: RequestMetric) -> u64 {
    match m.status {
        RequestState::InProgress(ip) => ip.start,
        RequestState::Completed(c) => c.end,
    }
}

impl RequestMetric {
    /// A fresh in-flight metric for one request, started `now`.
    pub fn new(executor_id: u64, task_in_executor: u64, request_id: u64, now: u64) -> (m: Self)
        ensures
            m == (RequestMetric {
                request_id,
                executor_id,
                task_in_executor,
                status: RequestState::InProgress(InProgressState { start: now }),
            }),
    {
        RequestMetric {
            request_id,
            executor_id,
            task_in_executor,
            status: RequestState::InProgress(InProgressState { start: now }),
        }
    }

    /// Marks the in-flight request completed at `end` with `result`,
    /// carrying its start instant over; a metric that is already completed
    /// is left unchanged.
    pub fn mark_end(&mut self, result: CompletionResult, end: u64)
        ensures
            match old(self).status {
                RequestState::InProgress(ip) => *final(self) == (RequestMetric {
                    request_id: old(self).request_id,
                    executor_id: old(self).executor_id,
                    task_in_executor: old(self).task_in_executor,
                    status: RequestState::Completed(CompletedState {
                        start: ip.start,
                        end,
                        result,
                    }),
                }),
                RequestState::Completed(_) => *final(self) == *old(self),
            },
    {
        if let RequestState::InProgress(in_progress_state) = &self.status {
            self.status = RequestState::Completed(CompletedState {
                start: in_progress_state.start,
                end,
                result,
            });
        }
    }

    /// Where the request stands.
    pub fn status(&self) -> (s: &RequestState)
        ensures
            *s == self.status,
    {
        &self.status
    }
}

} // verus!
