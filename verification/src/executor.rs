//! Task-execution bookkeeping: the discipline that every dispatched task is
//! started at most once and completed exactly once.
//!
//! A task is submitted (getting a fresh numeric id), started (leaving the
//! pending queue, so it can never be started again), and completed (entering
//! the delivery log, and leaving the in-flight set, so it can never be
//! completed again).  The delivery log therefore never names one task twice.
//! Which task is started next is deliberately unconstrained — tasks on one
//! resource may complete in either order; a caller needing strict ordering
//! must await each completion before submitting the next.  The engine work
//! itself happens between `start` and `complete`, under the resource slot's
//! discipline.

use vstd::prelude::*;

verus! {

/// A dispatched task: its id and its captured operation descriptor.
#[derive(Debug, Clone, PartialEq, Eq)]
pub struct PendingTask<T> {
    /// The id issued at submission.
    pub id: u64,
    /// The operation to perform, with arguments already extracted from the
    /// caller.
    pub op: T,
}

/// The executor's bookkeeping state.
pub struct Executor<T> {
    next_id: u64,
    pending: Vec<PendingTask<T>>,
    inflight: Ghost<Set<u64>>,
    delivered: Vec<u64>,
}

impl<T> Executor<T> {
    /// The tasks submitted and not yet started, in submission order.
    pub closed spec fn pending_view(&self) -> Seq<PendingTask<T>> {
        self.pending@
    }

    /// The ids of tasks started and not yet completed.
    pub closed spec fn inflight_set(&self) -> Set<u64> {
        self.inflight@
    }

    /// The ids of completed tasks, in delivery order.
    pub closed spec fn delivered_log(&self) -> Seq<u64> {
        self.delivered@
    }

    /// The id space is used up: no further task can be submitted.
    pub closed spec fn ids_exhausted(&self) -> bool {
        self.next_id == u64::MAX
    }

    /// Validity: ids are issued in strictly increasing order, so pending
    /// tasks are sorted and distinct; every recorded id is below the next
    /// one to issue; and a task id is in at most one of pending, in-flight
    /// and delivered.
    pub closed spec fn wf(&self) -> bool {
        &&& forall|a: int, b: int|
            #![trigger self.pending@[a], self.pending@[b]]
            0 <= a < b < self.pending@.len() ==> self.pending@[a].id < self.pending@[b].id
        &&& forall|i: int|
            0 <= i < self.pending@.len() ==> (#[trigger] self.pending@[i]).id < self.next_id
        &&& forall|i: int|
            0 <= i < self.delivered@.len() ==> (#[trigger] self.delivered@[i]) < self.next_id
        &&& forall|a: int, b: int|
            #![trigger self.delivered@[a], self.delivered@[b]]
            0 <= a < b < self.delivered@.len() ==> self.delivered@[a] != self.delivered@[b]
        &&& forall|id: u64| #[trigger] self.inflight@.contains(id) ==> id < self.next_id
        &&& forall|i: int|
            0 <= i < self.pending@.len() ==> !self.inflight@.contains(
                (#[trigger] self.pending@[i]).id,
            )
        &&& forall|i: int|
            0 <= i < self.pending@.len() ==> !self.delivered@.contains(
                (#[trigger] self.pending@[i]).id,
            )
        &&& forall|id: u64| #[trigger] self.inflight@.contains(id) ==> !self.delivered@.contains(
            id,
        )
    }

    /// A fresh executor: nothing pending, in flight or delivered, and ids
    /// to issue.
    pub fn new() -> (e: Self)
        ensures
            e.wf(),
            !e.ids_exhausted(),
            e.pending_view() == Seq::<PendingTask<T>>::empty(),
            e.inflight_set() == Set::<u64>::empty(),
            e.delivered_log() == Seq::<u64>::empty(),
    {
        Executor {
            next_id: 0,
            pending: Vec::new(),
            inflight: Ghost(Set::empty()),
            delivered: Vec::new(),
        }
    }

    /// Submits a task, issuing a fresh id that names no pending, in-flight
    /// or delivered task.  A submission is owed whenever the id space is
    /// not used up: only then is the operation handed back, unchanged.
    pub fn submit(&mut self, op: T) -> (r: Result<u64, T>)
        requires
            old(self).wf(),
        ensures
            final(self).wf(),
            match r {
                Ok(id) => {
                    &&& final(self).pending_view() == old(self).pending_view().push(
                        PendingTask { id, op },
                    )
                    &&& final(self).inflight_set() == old(self).inflight_set()
                    &&& final(self).delivered_log() == old(self).delivered_log()
                    &&& !old(self).inflight_set().contains(id)
                    &&& !old(self).delivered_log().contains(id)
                    &&& forall|i: int|
                        0 <= i < old(self).pending_view().len() ==> (#[trigger] old(
                            self,
                        ).pending_view()[i]).id != id
                },
                Err(given_back) => {
                    &&& given_back == op
                    &&& old(self).ids_exhausted()
                    &&& final(self).pending_view() == old(self).pending_view()
                    &&& final(self).inflight_set() == old(self).inflight_set()
                    &&& final(self).delivered_log() == old(self).delivered_log()
                },
            },
    {
        if self.next_id == u64::MAX {
            return Err(op);
        }
        let id = self.next_id;
        self.next_id = id + 1;
        self.pending.push(PendingTask { id, op });
        Ok(id)
    }

    /// Starts the pending task at a caller-chosen position — the order is
    /// deliberately unconstrained.  The task leaves the queue, so it can
    /// never be started twice, and its id enters the in-flight set.
    pub fn start(&mut self, i: usize) -> (t: Option<PendingTask<T>>)
        requires
            old(self).wf(),
        ensures
            final(self).wf(),
            i >= old(self).pending_view().len() ==> {
                &&& t is None
                &&& final(self).pending_view() == old(self).pending_view()
                &&& final(self).inflight_set() == old(self).inflight_set()
                &&& final(self).delivered_log() == old(self).delivered_log()
            },
            i < old(self).pending_view().len() ==> {
                &&& t == Some(old(self).pending_view()[i as int])
                &&& !old(self).inflight_set().contains(old(self).pending_view()[i as int].id)
                &&& !old(self).delivered_log().contains(old(self).pending_view()[i as int].id)
                &&& final(self).pending_view() == old(self).pending_view().remove(i as int)
                &&& final(self).inflight_set() == old(self).inflight_set().insert(
                    old(self).pending_view()[i as int].id,
                )
                &&& final(self).delivered_log() == old(self).delivered_log()
            },
    {
        if i >= self.pending.len() {
            return None;
        }
        let t = self.pending.remove(i);
        proof {
            self.inflight@ = self.inflight@.insert(t.id);
            old(self).pending@.remove_ensures(i as int);
        }
        Some(t)
    }

    /// Completes a started task, exactly once: its id leaves the in-flight
    /// set and is appended to the delivery log, which therefore never names
    /// one task twice.
    pub fn complete(&mut self, t: PendingTask<T>)
        requires
            old(self).wf(),
            old(self).inflight_set().contains(t.id),
        ensures
            final(self).wf(),
            final(self).pending_view() == old(self).pending_view(),
            final(self).inflight_set() == old(self).inflight_set().remove(t.id),
            final(self).delivered_log() == old(self).delivered_log().push(t.id),
    {
        proof {
            self.inflight@ = self.inflight@.remove(t.id);
        }
        self.delivered.push(t.id);
    }
}

/// Exactly-once delivery: the delivery log never names one task twice.
pub proof fn lemma_delivery_unique<T>(e: &Executor<T>, a: int, b: int)
    requires
        e.wf(),
        0 <= a < b < e.delivered_log().len(),
    ensures
        e.delivered_log()[a] != e.delivered_log()[b],
{
}

} // verus!
