//! One executor: the concurrent unit that owns one batch of tasks and hands
//! them out strictly sequentially, in batch order.
//!
//! The embedding application schedules one executor per batch, awaits the
//! start barrier's release, and then runs the tasks one at a time in the
//! order [`BatchExecutor::take_next`] hands them out; a task's failure
//! never stops the ones after it.

use vstd::prelude::*;

verus! {

/// One unit of work an executor runs. The embedding application implements
/// it for whatever carries its transport call.
pub trait Executable: Sized {
    type Result;

    fn execute(self) -> Self::Result;
}

/// One executor's identity and its batch of still-unstarted tasks.
pub struct BatchExecutor<E> {
    id: usize,
    tasks: Vec<E>,
}

impl<E> BatchExecutor<E> {
    /// The executor's index among the batches.
    pub closed spec fn spec_id(&self) -> usize {
        self.id
    }

    /// The tasks not yet handed out, in the order they will run.
    pub closed spec fn remaining(&self) -> Seq<E> {
        self.tasks@
    }

    /// An executor for batch `id`, holding `tasks` in run order.
    pub fn new(id: usize, tasks: Vec<E>) -> (e: Self)
        ensures
            e.spec_id() == id,
            e.remaining() == tasks@,
    {
        BatchExecutor { id, tasks }
    }

    /// The executor's index.
    pub fn id(&self) -> (r: usize)
        ensures
            r == self.spec_id(),
    {
        self.id
    }

    /// How many tasks are still to run.
    pub fn len(&self) -> (r: usize)
        ensures
            r == self.remaining().len(),
    {
        self.tasks.len()
    }

    /// Hands out the next task, in batch order; `None` once the batch is
    /// exhausted and the executor is done.
    pub fn take_next(&mut self) -> (r: Option<E>)
        ensures
            final(self).spec_id() == old(self).spec_id(),
            match r {
                Some(task) => old(self).remaining().len() > 0 && task == old(self).remaining()[0]
                    && final(self).remaining() == old(self).remaining().skip(1),
                None => old(self).remaining().len() == 0 && final(self).remaining() == old(
                    self,
                ).remaining(),
            },
    {
        if self.tasks.len() == 0 {
            None
        } else {
            let task = self.tasks.remove(0);
            proof {
                assert(self.tasks@ =~= old(self).tasks@.skip(1));
            }
            Some(task)
        }
    }
}

} // verus!
