//! The explicit observer that wraps "send one request" for one executor:
//! it emits the `InProgress` event when a request starts and the
//! `Completed` event when its outcome is known, correlating the two by the
//! in-flight record it keeps, and never letting a request start before the
//! barrier release it observed.
//!
//! The embedding application calls it around every send and pushes each
//! returned event onto the unbounded channel to the aggregator; instants
//! come from a monotonic millisecond clock, so each is at least the one
//! read before it.

use vstd::prelude::*;
use crate::metrics::request_metric::{
    event_end,
    event_start,
    CompletionResult,
    RequestMetric,
    RequestState,
};
use crate::request::spec_ordinal;

verus! {

/// Whether `m` is the `InProgress` event of the request at 1-based
/// position `pos` of executor `executor_id`.
pub open spec fn is_in_progress_event(
    m: RequestMetric,
    executor_id: int,
    tasks_per_executor: int,
    pos: int,
) -> bool {
    &&& m.executor_id as int == executor_id
    &&& m.task_in_executor as int == pos
    &&& m.request_id as int == spec_ordinal(executor_id, tasks_per_executor, pos)
    &&& m.status is InProgress
}

/// Whether `m` is the `Completed` event of the request at 1-based position
/// `pos` of executor `executor_id`.
pub open spec fn is_completed_event(
    m: RequestMetric,
    executor_id: int,
    tasks_per_executor: int,
    pos: int,
) -> bool {
    &&& m.executor_id as int == executor_id
    &&& m.task_in_executor as int == pos
    &&& m.request_id as int == spec_ordinal(executor_id, tasks_per_executor, pos)
    &&& m.status is Completed
}

/// Whether `c` completes what `ip` started: the start instant is carried
/// over, and the request ends no earlier than it started.
pub open spec fn lifecycle_pair(ip: RequestMetric, c: RequestMetric) -> bool {
    &&& ip.status is InProgress
    &&& c.status is Completed
    &&& event_start(c) == event_start(ip)
    &&& event_start(c) <= event_end(c)
}

/// The lifecycle observer of one executor's batch.
pub struct MetricsCapture {
    executor_id: u64,
    tasks_per_executor: u64,
    total: u64,
    started: u64,
    finished: u64,
    released: bool,
    release_time: u64,
    latest: u64,
    current: Option<RequestMetric>,
    events: Ghost<Seq<RequestMetric>>,
}

impl MetricsCapture {
    /// The executor this capture observes.
    pub closed spec fn spec_executor_id(&self) -> u64 {
        self.executor_id
    }

    /// The ordinal stride between executors, as configured for the run.
    pub closed spec fn spec_tasks_per_executor(&self) -> u64 {
        self.tasks_per_executor
    }

    /// How many requests the executor's batch holds.
    pub closed spec fn spec_total(&self) -> u64 {
        self.total
    }

    /// How many requests have gone in flight.
    pub closed spec fn spec_started(&self) -> u64 {
        self.started
    }

    /// How many requests have completed.
    pub closed spec fn spec_finished(&self) -> u64 {
        self.finished
    }

    /// Whether the barrier release has been observed.
    pub closed spec fn spec_released(&self) -> bool {
        self.released
    }

    /// The instant the barrier release was observed.
    pub closed spec fn spec_release_time(&self) -> u64 {
        self.release_time
    }

    /// The latest instant this capture has seen.
    pub closed spec fn spec_latest(&self) -> u64 {
        self.latest
    }

    /// Every event emitted so far, in emission order.
    pub closed spec fn events(&self) -> Seq<RequestMetric> {
        self.events@
    }

    /// The capture's invariant: events come in order `InProgress(1)`,
    /// `Completed(1)`, `InProgress(2)`, ... — one pair per position, the
    /// completion carrying its start over — every instant lies between the
    /// observed release and the latest instant seen, and nothing at all is
    /// emitted before the release is observed.
    pub closed spec fn wf(&self) -> bool {
        &&& self.finished <= self.started <= self.total
        &&& self.started <= self.finished + 1
        &&& self.executor_id as int * self.tasks_per_executor as int + self.total as int
            <= u64::MAX as int
        &&& (!self.released ==> self.started == 0 && self.events@.len() == 0)
        &&& (self.released ==> self.release_time <= self.latest)
        &&& self.events@.len() == self.started as int + self.finished as int
        &&& (forall|q: int|
            0 <= q < self.finished as int ==> is_in_progress_event(
                #[trigger] self.events@[2 * q],
                self.executor_id as int,
                self.tasks_per_executor as int,
                q + 1,
            ))
        &&& (forall|q: int|
            0 <= q < self.finished as int ==> is_completed_event(
                #[trigger] self.events@[2 * q + 1],
                self.executor_id as int,
                self.tasks_per_executor as int,
                q + 1,
            ) && lifecycle_pair(self.events@[2 * q], self.events@[2 * q + 1]))
        &&& (self.started as int == self.finished as int + 1 ==> {
            &&& self.current is Some
            &&& self.events@.len() > 0
            &&& self.events@.last() == self.current->0
            &&& is_in_progress_event(
                self.current->0,
                self.executor_id as int,
                self.tasks_per_executor as int,
                self.started as int,
            )
        })
        &&& (self.started == self.finished ==> self.current is None)
        &&& (forall|j: int|
            0 <= j < self.events@.len() ==> self.release_time <= event_start(
                #[trigger] self.events@[j],
            ) && event_start(self.events@[j]) <= event_end(self.events@[j]) && event_end(
                self.events@[j],
            ) <= self.latest)
    }

    /// A fresh capture for executor `executor_id`: nothing released,
    /// nothing emitted.
    pub fn new(executor_id: u64, tasks_per_executor: u64, total: u64) -> (c: Self)
        requires
            executor_id as int * tasks_per_executor as int + total as int <= u64::MAX as int,
        ensures
            c.wf(),
            !c.spec_released(),
            c.spec_executor_id() == executor_id,
            c.spec_tasks_per_executor() == tasks_per_executor,
            c.spec_total() == total,
            c.spec_started() == 0,
            c.spec_finished() == 0,
            c.events() == Seq::<RequestMetric>::empty(),
    {
        MetricsCapture {
            executor_id,
            tasks_per_executor,
            total,
            started: 0,
            finished: 0,
            released: false,
            release_time: 0,
            latest: 0,
            current: None,
            events: Ghost(Seq::empty()),
        }
    }

    /// Observes the barrier's release at `now`. Requests may start only
    /// after this.
    pub fn observe_release(&mut self, now: u64)
        requires
            old(self).wf(),
            !old(self).spec_released(),
        ensures
            final(self).wf(),
            final(self).spec_released(),
            final(self).spec_release_time() == now,
            final(self).spec_latest() == now,
            final(self).spec_executor_id() == old(self).spec_executor_id(),
            final(self).spec_tasks_per_executor() == old(self).spec_tasks_per_executor(),
            final(self).spec_total() == old(self).spec_total(),
            final(self).spec_started() == old(self).spec_started(),
            final(self).spec_finished() == old(self).spec_finished(),
            final(self).events() == old(self).events(),
    {
        self.released = true;
        self.release_time = now;
        self.latest = now;
    }

    /// Starts the next request at `now` and emits its `InProgress` event.
    /// Nothing can start before the release is observed, and `now` comes
    /// from a monotonic clock, so no start precedes the release instant.
    pub fn begin_request(&mut self, now: u64) -> (m: RequestMetric)
        requires
            old(self).wf(),
            old(self).spec_released(),
            old(self).spec_started() == old(self).spec_finished(),
            old(self).spec_started() < old(self).spec_total(),
            now >= old(self).spec_latest(),
        ensures
            final(self).wf(),
            final(self).spec_released(),
            final(self).spec_release_time() == old(self).spec_release_time(),
            final(self).spec_latest() == now,
            final(self).spec_executor_id() == old(self).spec_executor_id(),
            final(self).spec_tasks_per_executor() == old(self).spec_tasks_per_executor(),
            final(self).spec_total() == old(self).spec_total(),
            final(self).spec_started() == old(self).spec_started() + 1,
            final(self).spec_finished() == old(self).spec_finished(),
            is_in_progress_event(
                m,
                old(self).spec_executor_id() as int,
                old(self).spec_tasks_per_executor() as int,
                old(self).spec_started() as int + 1,
            ),
            event_start(m) == now,
            final(self).events() == old(self).events().push(m),
    {
        let task_in_executor = self.started + 1;
        let request_id = self.executor_id * self.tasks_per_executor + task_in_executor;
        let m = RequestMetric::new(self.executor_id, task_in_executor, request_id, now);
        self.current = Some(m);
        self.started = task_in_executor;
        self.latest = now;
        proof {
            self.events@ = self.events@.push(m);
        }
        m
    }

    /// Ends the in-flight request at `now` with `result` and emits its
    /// `Completed` event, carrying the start instant over. The executor
    /// then proceeds to its next request whatever `result` was: a failure
    /// is recorded, never retried, and never aborts the batch.
    pub fn end_request(&mut self, result: CompletionResult, now: u64) -> (m: RequestMetric)
        requires
            old(self).wf(),
            old(self).spec_started() == old(self).spec_finished() + 1,
            now >= old(self).spec_latest(),
        ensures
            final(self).wf(),
            final(self).spec_released() == old(self).spec_released(),
            final(self).spec_release_time() == old(self).spec_release_time(),
            final(self).spec_latest() == now,
            final(self).spec_executor_id() == old(self).spec_executor_id(),
            final(self).spec_tasks_per_executor() == old(self).spec_tasks_per_executor(),
            final(self).spec_total() == old(self).spec_total(),
            final(self).spec_started() == old(self).spec_started(),
            final(self).spec_finished() == old(self).spec_finished() + 1,
            is_completed_event(
                m,
                old(self).spec_executor_id() as int,
                old(self).spec_tasks_per_executor() as int,
                old(self).spec_finished() as int + 1,
            ),
            m.status matches RequestState::Completed(c) && c.result == result && c.end == now,
            lifecycle_pair(old(self).events().last(), m),
            final(self).events() == old(self).events().push(m),
    {
        let mut m = self.current.unwrap();
        m.mark_end(result, now);
        self.current = None;
        self.finished = self.finished + 1;
        self.latest = now;
        proof {
            self.events@ = self.events@.push(m);
        }
        m
    }

    /// Whether the barrier release has been observed.
    pub fn is_released(&self) -> (r: bool)
        ensures
            r == self.spec_released(),
    {
        self.released
    }

    /// How many requests have gone in flight.
    pub fn started(&self) -> (r: u64)
        ensures
            r == self.spec_started(),
    {
        self.started
    }

    /// How many requests have completed.
    pub fn finished(&self) -> (r: u64)
        ensures
            r == self.spec_finished(),
    {
        self.finished
    }

    /// How many requests the batch holds.
    pub fn total(&self) -> (r: u64)
        ensures
            r == self.spec_total(),
    {
        self.total
    }

    /// The latest instant this capture has seen; the next instant handed
    /// to it must not lie before this one.
    pub fn latest(&self) -> (r: u64)
        ensures
            r == self.spec_latest(),
    {
        self.latest
    }

    /// Whether the batch is exhausted: every request has completed.
    pub fn is_done(&self) -> (r: bool)
        ensures
            r == (self.spec_finished() == self.spec_total()),
    {
        self.finished == self.total
    }

    /// Start synchronization: every event this capture emitted — in
    /// particular every request's start — carries an instant no earlier
    /// than the barrier release it observed.
    pub proof fn lemma_no_start_before_release(&self)
        requires
            self.wf(),
        ensures
            forall|j: int|
                0 <= j < self.events().len() ==> event_start(#[trigger] self.events()[j])
                    >= self.spec_release_time(),
    {
    }

    /// Fault isolation and lifecycle completeness: once the batch is
    /// exhausted, the capture has emitted exactly one `InProgress` and one
    /// `Completed` event for every position of the batch, in order and
    /// correctly paired — whatever each request's result was.
    pub proof fn lemma_run_accounted(&self)
        requires
            self.wf(),
            self.spec_finished() == self.spec_total(),
        ensures
            self.events().len() == 2 * self.spec_total() as int,
            forall|q: int|
                0 <= q < self.spec_total() as int ==> is_in_progress_event(
                    #[trigger] self.events()[2 * q],
                    self.spec_executor_id() as int,
                    self.spec_tasks_per_executor() as int,
                    q + 1,
                ),
            forall|q: int|
                0 <= q < self.spec_total() as int ==> is_completed_event(
                    #[trigger] self.events()[2 * q + 1],
                    self.spec_executor_id() as int,
                    self.spec_tasks_per_executor() as int,
                    q + 1,
                ) && lifecycle_pair(self.events()[2 * q], self.events()[2 * q + 1]),
    {
    }
}

} // verus!
