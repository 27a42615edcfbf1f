//! The order in which the worker takes the tasks that other threads submit.
//!
//! One worker owns the engine. Every task is submitted to the worker's
//! queue and gets a ticket; the worker takes the tickets in the order of
//! submission. When the worker has terminated, the tasks that wait fail and
//! no new task is accepted.

use vstd::prelude::*;
use vstd::string::*;
use crate::eserror::EsError;
use crate::eserror::EsErrorView;
use crate::eserror::ErrorKind;

verus! {

/// The queue of a worker: the tickets that wait, oldest first.
#[derive(Debug)]
pub struct EsEventQueue {
    next_ticket: u64,
    pending: Vec<u64>,
    alive: bool,
}

/// The mathematical content of an [`EsEventQueue`].
pub struct EsEventQueueView {
    /// The ticket that the next submission gets.
    pub next_ticket: nat,
    /// The tickets that wait, in the order in which the worker takes them.
    pub pending: Seq<u64>,
    /// Whether the worker is running.
    pub alive: bool,
}

impl EsEventQueueView {
    /// The tickets that wait were handed out, and an older ticket stands
    /// before every younger one.
    pub open spec fn well_formed(self) -> bool {
        &&& forall|i: int| 0 <= i < self.pending.len() ==> self.pending[i] < self.next_ticket
        &&& forall|i: int, j: int|
            0 <= i < j < self.pending.len() ==> self.pending[i] < self.pending[j]
        &&& !self.alive ==> self.pending.len() == 0
    }
}

impl View for EsEventQueue {
    type V = EsEventQueueView;

    closed spec fn view(&self) -> EsEventQueueView {
        EsEventQueueView {
            next_ticket: self.next_ticket as nat,
            pending: self.pending@,
            alive: self.alive,
        }
    }
}

/// The error of a submission that the queue cannot take.
pub open spec fn submission_error(alive: bool) -> EsErrorView {
    if alive {
        EsErrorView {
            kind: ErrorKind::Other,
            message: "no ticket is left"@,
            stack: Seq::<char>::empty(),
        }
    } else {
        EsErrorView {
            kind: ErrorKind::EngineUnavailable,
            message: "the worker has terminated"@,
            stack: Seq::<char>::empty(),
        }
    }
}

impl EsEventQueue {
    /// The empty queue of a running worker.
    pub fn new() -> (queue: EsEventQueue)
        ensures
            queue@ == (EsEventQueueView { next_ticket: 0, pending: Seq::empty(), alive: true }),
            queue@.well_formed(),
    {
        EsEventQueue { next_ticket: 0, pending: Vec::new(), alive: true }
    }

    pub fn is_alive(&self) -> (alive: bool)
        ensures
            alive == self@.alive,
    {
        self.alive
    }

    /// The number of tasks that wait.
    pub fn len(&self) -> (n: usize)
        ensures
            n == self@.pending.len(),
    {
        self.pending.len()
    }

    /// Submits a task: it gets the next ticket and waits behind all tasks
    /// that were submitted before. It makes no difference to the order
    /// whether the submitter then waits for the result or goes on.
    ///
    /// A terminated worker takes no task. The tickets are counted in a
    /// `u64`; when they are used up, no task is taken either.
    pub fn submit(&mut self) -> (r: Result<u64, EsError>)
        ensures
            old(self)@.well_formed() ==> final(self)@.well_formed(),
            old(self)@.alive && old(self)@.next_ticket < u64::MAX ==> (r matches Ok(ticket)
                && ticket == old(self)@.next_ticket && final(self)@ == (EsEventQueueView {
                next_ticket: old(self)@.next_ticket + 1,
                pending: old(self)@.pending.push(ticket),
                alive: true,
            })),
            !(old(self)@.alive && old(self)@.next_ticket < u64::MAX) ==> (r matches Err(e) && e@
                == submission_error(old(self)@.alive) && final(self)@ == old(self)@),
    {
        if !self.alive {
            return Err(
                EsError::new(
                    ErrorKind::EngineUnavailable,
                    String::from_str("the worker has terminated"),
                ),
            );
        }
        if self.next_ticket == u64::MAX {
            return Err(EsError::new(ErrorKind::Other, String::from_str("no ticket is left")));
        }
        let ticket = self.next_ticket;
        self.pending.push(ticket);
        self.next_ticket = ticket + 1;
        Ok(ticket)
    }

    /// The worker takes the task that has waited longest.
    pub fn take_next(&mut self) -> (r: Option<u64>)
        ensures
            old(self)@.well_formed() ==> final(self)@.well_formed(),
            final(self)@.next_ticket == old(self)@.next_ticket,
            final(self)@.alive == old(self)@.alive,
            old(self)@.pending.len() == 0 ==> r is None && final(self)@ == old(self)@,
            old(self)@.pending.len() > 0 ==> r == Some(old(self)@.pending[0]) && final(self)@.pending
                == old(self)@.pending.drop_first(),
    {
        if self.pending.len() == 0 {
            return None;
        }
        let ticket = self.pending.remove(0);
        assert(self.pending@ =~= old(self).pending@.drop_first());
        Some(ticket)
    }

    /// Records that the task which the worker ran ended in a fault. The
    /// fault belongs to that task's result. The worker goes on with the
    /// next task unless the fault is fatal, which is to say that the
    /// engine's native state is corrupted: then it terminates, see
    /// [`Self::terminate`].
    pub fn task_failed(&mut self, fatal: bool) -> (failed: Vec<u64>)
        ensures
            old(self)@.well_formed() ==> final(self)@.well_formed(),
            !fatal ==> final(self)@ == old(self)@ && failed@.len() == 0,
            fatal ==> failed@ == old(self)@.pending && final(self)@ == (EsEventQueueView {
                next_ticket: old(self)@.next_ticket,
                pending: Seq::empty(),
                alive: false,
            }),
    {
        if fatal {
            self.terminate()
        } else {
            Vec::new()
        }
    }

    /// The worker terminates after a fault that it cannot recover from. The
    /// tasks that wait come back, oldest first: they have failed. A second
    /// call finds nothing to do.
    pub fn terminate(&mut self) -> (failed: Vec<u64>)
        ensures
            failed@ == old(self)@.pending,
            final(self)@ == (EsEventQueueView {
                next_ticket: old(self)@.next_ticket,
                pending: Seq::empty(),
                alive: false,
            }),
            final(self)@.well_formed(),
    {
        self.alive = false;
        let mut failed: Vec<u64> = Vec::new();
        failed.append(&mut self.pending);
        assert(failed@ =~= old(self)@.pending);
        assert(self.pending@ =~= Seq::<u64>::empty());
        failed
    }
}

/// The worker takes tasks in the order of their submission: in a
/// well-formed queue the ticket at the front is older than every other
/// ticket that waits, and every ticket handed out later is younger than
/// all that wait.
pub proof fn lemma_first_in_first_out(queue: EsEventQueueView)
    requires
        queue.well_formed(),
    ensures
        forall|i: int| 0 < i < queue.pending.len() ==> queue.pending[0] < #[trigger] queue.pending[i],
        forall|i: int| 0 <= i < queue.pending.len() ==> (#[trigger] queue.pending[i]) < queue.next_ticket,
{
}

} // verus!
