//! The work queue: an unbounded FIFO of jobs with one submission side and
//! one receiving side shared by all workers.
//!
//! Closing the queue is the one shutdown signal. A closed queue accepts no
//! more jobs but still hands out the ones it holds; a worker learns that the
//! queue is finished only once it is both closed and empty.

use vstd::prelude::*;
use std::collections::VecDeque;

verus! {

/// What a worker gets when it asks the queue for work.
pub enum Recv<T> {
    /// The oldest pending job, now owned by the worker.
    Job(T),
    /// Nothing pending yet, but more may come: wait and ask again.
    Empty,
    /// Closed and drained: no job will ever come again.
    Closed,
}

/// A job handed back because the queue was already closed.
pub struct SendError<T>(pub T);

/// The abstract state of a queue.
pub struct QueueView<T> {
    /// The jobs handed out so far, in the order in which they went out.
    pub delivered: Seq<T>,
    /// The jobs accepted and not yet handed out, oldest first.
    pub pending: Seq<T>,
    /// Whether the queue still accepts jobs.
    pub open: bool,
}

impl<T> QueueView<T> {
    /// A new queue: open, with nothing accepted.
    pub open spec fn fresh() -> Self {
        QueueView { delivered: Seq::empty(), pending: Seq::empty(), open: true }
    }

    /// Every job that the queue ever accepted, in the order of acceptance.
    pub open spec fn submitted(self) -> Seq<T> {
        self.delivered + self.pending
    }

    /// The state after a submission: the job joins the back of the queue
    /// when the queue is open, and is refused otherwise.
    pub open spec fn after_send(self, job: T) -> Self {
        if self.open {
            QueueView { pending: self.pending.push(job), ..self }
        } else {
            self
        }
    }

    /// What a receive hands out.
    pub open spec fn next_recv(self) -> Recv<T> {
        if self.pending.len() > 0 {
            Recv::Job(self.pending[0])
        } else if self.open {
            Recv::Empty
        } else {
            Recv::Closed
        }
    }

    /// The state after a receive: the oldest pending job, if any, moves to
    /// the delivered ones.
    pub open spec fn after_recv(self) -> Self {
        if self.pending.len() > 0 {
            QueueView {
                delivered: self.delivered.push(self.pending[0]),
                pending: self.pending.drop_first(),
                ..self
            }
        } else {
            self
        }
    }

    /// The state after closing.
    pub open spec fn after_close(self) -> Self {
        QueueView { open: false, ..self }
    }

    /// The state after submitting each of `jobs` in turn.
    pub open spec fn after_send_all(self, jobs: Seq<T>) -> Self
        decreases jobs.len(),
    {
        if jobs.len() == 0 {
            self
        } else {
            self.after_send(jobs[0]).after_send_all(jobs.drop_first())
        }
    }

    /// The state after receiving until nothing is pending.
    pub open spec fn drained(self) -> Self
        decreases self.pending.len(),
    {
        if self.pending.len() == 0 {
            self
        } else {
            self.after_recv().drained()
        }
    }
}

/// A receive hands out the job it removes: the jobs submitted stay the same,
/// so a job leaves the queue once and is never handed out again, and jobs
/// go out in the order in which they came in.
pub proof fn lemma_recv_keeps_submitted<T>(q: QueueView<T>)
    ensures
        q.after_recv().submitted() == q.submitted(),
        q.pending.len() > 0 ==> q.next_recv() == Recv::Job(q.pending[0])
            && q.after_recv().delivered == q.delivered.push(q.pending[0]),
{
    if q.pending.len() > 0 {
        assert(q.after_recv().submitted() =~= q.submitted());
    }
}

/// Receiving until nothing is pending hands out every pending job, in
/// order, once each; a closed queue then reports that it is finished.
pub proof fn lemma_drain_delivers_all<T>(q: QueueView<T>)
    ensures
        q.drained().pending.len() == 0,
        q.drained().delivered == q.submitted(),
        q.drained().open == q.open,
        !q.open ==> q.drained().next_recv() == Recv::<T>::Closed,
    decreases q.pending.len(),
{
    if q.pending.len() > 0 {
        lemma_recv_keeps_submitted(q);
        lemma_drain_delivers_all(q.after_recv());
    } else {
        assert(q.delivered + q.pending =~= q.delivered);
    }
}

/// Submitting jobs to an open queue appends them all, in order.
pub proof fn lemma_send_all_open<T>(q: QueueView<T>, jobs: Seq<T>)
    requires
        q.open,
    ensures
        q.after_send_all(jobs) == (QueueView { pending: q.pending + jobs, ..q }),
    decreases jobs.len(),
{
    if jobs.len() == 0 {
        assert(q.pending + jobs =~= q.pending);
    } else {
        let q1 = q.after_send(jobs[0]);
        lemma_send_all_open(q1, jobs.drop_first());
        assert(q1.pending + jobs.drop_first() =~= q.pending + jobs);
    }
}

/// Jobs submitted to a new queue, which is then closed and drained, are
/// all handed out exactly once and in submission order, after which the
/// queue reports that it is finished.
pub proof fn lemma_send_close_drain<T>(jobs: Seq<T>)
    ensures
        QueueView::<T>::fresh().after_send_all(jobs).after_close().drained().delivered == jobs,
        QueueView::<T>::fresh().after_send_all(jobs).after_close().drained().next_recv()
            == Recv::<T>::Closed,
{
    let q0 = QueueView::<T>::fresh();
    lemma_send_all_open(q0, jobs);
    let q = q0.after_send_all(jobs).after_close();
    lemma_drain_delivers_all(q);
    assert(q.submitted() =~= jobs);
}

/// An open queue puts a submitted job after every job submitted before it;
/// a closed queue refuses every job and stays as it was.
pub proof fn lemma_send_appends<T>(q: QueueView<T>, job: T)
    ensures
        q.open ==> q.after_send(job).submitted() == q.submitted().push(job)
            && q.after_send(job).delivered == q.delivered,
        !q.open ==> q.after_send(job) == q,
{
    if q.open {
        assert(q.after_send(job).submitted() =~= q.submitted().push(job));
    }
}

/// The work queue.
pub struct WorkQueue<T> {
    pending: VecDeque<T>,
    open: bool,
    delivered: Ghost<Seq<T>>,
}

impl<T> View for WorkQueue<T> {
    type V = QueueView<T>;

    closed spec fn view(&self) -> QueueView<T> {
        QueueView { delivered: self.delivered@, pending: self.pending@, open: self.open }
    }
}

impl<T> WorkQueue<T> {
    /// A new, open, empty queue.
    pub fn new() -> (q: Self)
        ensures
            q@ == QueueView::<T>::fresh(),
    {
        WorkQueue { pending: VecDeque::new(), open: true, delivered: Ghost(Seq::empty()) }
    }

    /// Submits a job. It joins the back of the queue, unless the queue is
    /// closed: then it comes back in the error.
    pub fn send(&mut self, job: T) -> (r: Result<(), SendError<T>>)
        ensures
            final(self)@ == old(self)@.after_send(job),
            r is Ok <==> old(self)@.open,
            r matches Err(e) ==> e.0 == job,
    {
        if self.open {
            self.pending.push_back(job);
            Ok(())
        } else {
            Err(SendError(job))
        }
    }

    /// Asks for the oldest pending job, without waiting.
    pub fn recv(&mut self) -> (r: Recv<T>)
        ensures
            r == old(self)@.next_recv(),
            final(self)@ == old(self)@.after_recv(),
    {
        match self.pending.pop_front() {
            Some(job) => {
                self.delivered = Ghost(self.delivered@.push(job));
                Recv::Job(job)
            },
            None => {
                if self.open {
                    Recv::Empty
                } else {
                    Recv::Closed
                }
            },
        }
    }

    /// Closes the queue: it accepts no more jobs. Pending jobs stay, and
    /// closing a closed queue changes nothing.
    pub fn close(&mut self)
        ensures
            final(self)@ == old(self)@.after_close(),
    {
        self.open = false;
    }

    /// Whether the queue still accepts jobs.
    pub fn is_open(&self) -> (r: bool)
        ensures
            r == self@.open,
    {
        self.open
    }

    /// The number of pending jobs.
    pub fn len(&self) -> (r: usize)
        ensures
            r == self@.pending.len(),
    {
        self.pending.len()
    }
}

} // verus!
