//! The listener of one transport: what it does with the outcome of each
//! accept, and the queue in which it keeps the handler tasks that it has
//! spawned.
//!
//! Accepting and spawning are left to the driver. The listener decides, and
//! it never stops on account of a failed accept.

use std::collections::VecDeque;
use vstd::prelude::*;
use smol::Task;
use crate::conf::SocketAddress;
use crate::error::Error;

verus! {

/// The handle of a spawned task, `smol::Task` (defined in async-task). It is
/// opaque here: the core holds handles and hands them on, and asks one
/// thing of them, whether the task has finished.
#[verifier::external_type_specification]
#[verifier::external_body]
#[verifier::reject_recursive_types(T)]
#[verifier::reject_recursive_types(M)]
pub struct ExTask<T, M>(Task<T, M>);

/// `Task::is_finished` of async-task reads the task's state at the moment of
/// the call. A task may finish at any time, so nothing is claimed of the
/// answer.
pub assume_specification<T, M>[ Task::<T, M>::is_finished ](task: &Task<T, M>) -> (finished: bool)
;

/// The handle of a connection handler's task.
pub type HandlerTask = Task<Result<(), Error>>;

/// The handler tasks of one listener that are still under observation, in
/// the order in which they were spawned. Tasks leave at the front only.
pub struct TrackingQueue {
    tasks: VecDeque<HandlerTask>,
}

impl View for TrackingQueue {
    type V = Seq<HandlerTask>;

    closed spec fn view(&self) -> Seq<HandlerTask> {
        self.tasks@
    }
}

impl TrackingQueue {
    /// An empty queue.
    pub fn new() -> (queue: Self)
        ensures
            queue@ == Seq::<HandlerTask>::empty(),
    {
        TrackingQueue { tasks: VecDeque::new() }
    }

    /// The number of tasks under observation.
    pub fn len(&self) -> (n: usize)
        ensures
            n == self@.len(),
    {
        self.tasks.len()
    }

    /// Whether no task is under observation.
    pub fn is_empty(&self) -> (empty: bool)
        ensures
            empty <==> self@.len() == 0,
    {
        self.tasks.len() == 0
    }

    /// Puts a newly spawned task at the back of the queue.
    pub fn push(&mut self, task: HandlerTask)
        ensures
            final(self)@ == old(self)@.push(task),
    {
        self.tasks.push_back(task);
    }

    /// The task at the front of the queue: the oldest under observation.
    pub fn front(&self) -> (task: Option<&HandlerTask>)
        ensures
            task is Some <==> self@.len() > 0,
            task matches Some(t) ==> *t == self@[0],
    {
        if self.tasks.len() > 0 {
            Some(&self.tasks[0])
        } else {
            None
        }
    }

    /// Takes the task at the front off the queue if it was found finished:
    /// `finished` is what the look at that task gave. A task that was found
    /// running stays, and so does everything in an empty queue.
    pub fn reap_front(&mut self, finished: bool) -> (taken: Option<HandlerTask>)
        ensures
            taken is Some <==> finished && old(self)@.len() > 0,
            match taken {
                Some(task) => task == old(self)@[0] && final(self)@ == old(self)@.drop_first(),
                None => final(self)@ == old(self)@,
            },
    {
        if finished {
            self.tasks.pop_front()
        } else {
            None
        }
    }

    /// Takes finished tasks off the front of the queue, oldest first, and
    /// stops at the first task that is found still running. Each look is
    /// taken at the task that `front` gives, never at a task behind it. The tasks taken off are the front of the old
    /// queue, in queue order; those that stay are the rest of it, in their
    /// order. Whether a task has finished is for the scheduler to say, so how
    /// many are taken is not known beforehand: `reap_front` says what follows
    /// from each look.
    pub fn reap(&mut self) -> (reaped: Vec<HandlerTask>)
        ensures
            reaped@.len() <= old(self)@.len(),
            reaped@ == old(self)@.take(reaped@.len() as int),
            final(self)@ == old(self)@.skip(reaped@.len() as int),
    {
        let mut reaped: Vec<HandlerTask> = Vec::new();
        loop
            invariant
                reaped@.len() <= old(self)@.len(),
                reaped@ == old(self)@.take(reaped@.len() as int),
                self@ == old(self)@.skip(reaped@.len() as int),
            ensures
                reaped@.len() <= old(self)@.len(),
                reaped@ == old(self)@.take(reaped@.len() as int),
                self@ == old(self)@.skip(reaped@.len() as int),
            decreases self@.len(),
        {
            let finished = match self.front() {
                Some(task) => task.is_finished(),
                None => {
                    break ;
                },
            };
            match self.reap_front(finished) {
                Some(task) => {
                    reaped.push(task);
                },
                None => {
                    break ;
                },
            }
        }
        reaped
    }
}

/// What a listener does after one accept.
#[derive(Debug)]
pub enum ListenerAction {
    /// A connection from this peer was accepted: spawn a handler for it and
    /// put the handler's task into the tracking queue.
    Serve(SocketAddress),
    /// The accept failed: report the failure and go on accepting.
    Report(Error),
}

/// The action that follows the outcome of one accept.
pub open spec fn accept_action(outcome: Result<SocketAddress, std::io::Error>) -> ListenerAction {
    match outcome {
        Ok(peer) => ListenerAction::Serve(peer),
        Err(e) => ListenerAction::Report(Error::RuntimeIoError(e)),
    }
}

/// Decides what to do with the outcome of one accept. Neither outcome ends
/// the listener: after either, the driver reaps the tracking queue and
/// accepts again.
pub fn on_accept(outcome: Result<SocketAddress, std::io::Error>) -> (action: ListenerAction)
    ensures
        action == accept_action(outcome),
{
    match outcome {
        Ok(peer) => ListenerAction::Serve(peer),
        Err(e) => ListenerAction::Report(Error::RuntimeIoError(e)),
    }
}

/// The actions of a listener over a run of accepts, one for each outcome.
pub open spec fn accept_actions(
    outcomes: Seq<Result<SocketAddress, std::io::Error>>,
) -> Seq<ListenerAction> {
    Seq::new(outcomes.len(), |i: int| accept_action(outcomes[i]))
}

/// Resilience: a listener answers every accept, and a connection that was
/// accepted is served whatever came before it. No run of failed accepts
/// keeps a later connection from its handler.
pub proof fn lemma_accept_failure_not_fatal(
    outcomes: Seq<Result<SocketAddress, std::io::Error>>,
    at: int,
)
    requires
        0 <= at < outcomes.len(),
    ensures
        accept_actions(outcomes).len() == outcomes.len(),
        outcomes[at] matches Ok(peer) ==> accept_actions(outcomes)[at] == ListenerAction::Serve(
            peer,
        ),
        outcomes[at] is Err ==> accept_actions(outcomes)[at] is Report,
{
}

} // verus!
