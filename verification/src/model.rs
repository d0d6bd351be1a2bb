//! The run loop as mathematics: the scheduler's state, what may happen to
//! it, and what it answers.
//!
//! A task is a pair of a computation `F`, which the executor drives, and a
//! continuation `P`, which is run on the machine's thread once the
//! computation has finished. The model knows nothing of either beyond their
//! identity, so everything proved here holds of every kind of task.

use vstd::prelude::*;
use vstd::multiset::Multiset;

verus! {

/// The scheduler's bookkeeping.
pub struct State<F, P> {
    /// The registered tasks that no pass has started yet, oldest first.
    pub queue: Seq<(F, P)>,
    /// The continuations of the started units, by sequence index. An entry
    /// is `None` once its unit has completed and its continuation was handed
    /// out.
    pub post_tasks: Seq<Option<P>>,
    /// The barrier flag: some fiber waits for the work to drain.
    pub has_waiting_fibers: bool,
}

/// What can happen to a scheduler.
pub enum Input<F, P> {
    /// A producer registers a task.
    Schedule(F, P),
    /// A script asks for the barrier.
    AwaitAll,
    /// The host is at the head of the loop.
    Pass,
    /// The executor reports that the unit with this sequence index finished.
    Completed(int),
    /// The host resumes the fibers that wait for the barrier on its own
    /// account, outside a pass.
    ResumeWaiting,
}

/// What the scheduler answers.
pub enum Output<F, P> {
    /// The registration or request was recorded; nothing is to be done.
    Recorded,
    /// Start each of these computations on the executor, tagged with its
    /// sequence index.
    Spawn(Seq<(int, F)>),
    /// Nothing is started: units are still running.
    Wait,
    /// Run this continuation now.
    Invoke(P),
    /// Resume the fibers that wait for the barrier. A pass answers so when
    /// no work is left and the barrier was requested.
    ResumeWaiting,
    /// No work is left: the loop ends.
    Finished,
    /// The index names no running unit; nothing is to be done.
    Ignored,
}

impl<F, P> State<F, P> {
    /// A scheduler that holds no work and no request.
    pub open spec fn empty() -> State<F, P> {
        State { queue: Seq::empty(), post_tasks: Seq::empty(), has_waiting_fibers: false }
    }

    /// The unit with sequence index `index` was started and has not
    /// completed.
    pub open spec fn is_outstanding(self, index: int) -> bool {
        0 <= index < self.post_tasks.len() && self.post_tasks[index] is Some
    }

    /// No started unit is still running.
    pub open spec fn idle(self) -> bool {
        forall|index: int| !self.is_outstanding(index)
    }

    /// Nothing is queued and nothing is running.
    pub open spec fn drained(self) -> bool {
        self.queue.len() == 0 && self.idle()
    }

    /// The state after a task was registered: the pair is appended to the
    /// queue.
    pub open spec fn schedule(self, future: F, post_task: P) -> State<F, P> {
        State { queue: self.queue.push((future, post_task)), ..self }
    }

    /// The state after the barrier was requested.
    pub open spec fn await_all(self) -> State<F, P> {
        State { has_waiting_fibers: true, ..self }
    }

    /// The state after the waiting fibers were resumed: the barrier request
    /// is cleared, and nothing else changes.
    pub open spec fn resume_waiting(self) -> State<F, P> {
        State { has_waiting_fibers: false, ..self }
    }

    /// The units that a pass starts: every queued computation, in the order
    /// of registration, each with its position as sequence index.
    pub open spec fn started(self) -> Seq<(int, F)> {
        Seq::new(self.queue.len(), |k: int| (k, self.queue[k].0))
    }

    /// The continuations of the units that a pass starts, in the same order.
    pub open spec fn started_post_tasks(self) -> Seq<Option<P>> {
        Seq::new(self.queue.len(), |k: int| Some(self.queue[k].1))
    }

    /// One pass at the head of the loop.
    ///
    /// While a unit of the pass before is still running, nothing is started,
    /// whatever has been registered in the meantime: the loop waits. Once
    /// none is running, everything queued is started, with sequence indices
    /// from 0 on. Where nothing is queued then, the loop fires the barrier
    /// if one was requested, and ends otherwise.
    pub open spec fn pass(self) -> (State<F, P>, Output<F, P>) {
        if !self.idle() {
            (self, Output::Wait)
        } else if self.queue.len() > 0 {
            (
                State {
                    queue: Seq::empty(),
                    post_tasks: self.started_post_tasks(),
                    has_waiting_fibers: self.has_waiting_fibers,
                },
                Output::Spawn(self.started()),
            )
        } else if self.has_waiting_fibers {
            (State::empty(), Output::ResumeWaiting)
        } else {
            (State::empty(), Output::Finished)
        }
    }

    /// The completion of the unit with sequence index `index`: its
    /// continuation is handed out, once.
    pub open spec fn complete(self, index: int) -> (State<F, P>, Output<F, P>) {
        if self.is_outstanding(index) {
            (
                State { post_tasks: self.post_tasks.update(index, None), ..self },
                Output::Invoke(self.post_tasks[index]->0),
            )
        } else {
            (self, Output::Ignored)
        }
    }

    /// The state after `input`, and the answer to it.
    pub open spec fn step(self, input: Input<F, P>) -> (State<F, P>, Output<F, P>) {
        match input {
            Input::Schedule(future, post_task) => (
                self.schedule(future, post_task),
                Output::Recorded,
            ),
            Input::AwaitAll => (self.await_all(), Output::Recorded),
            Input::Pass => self.pass(),
            Input::Completed(index) => self.complete(index),
            Input::ResumeWaiting => (self.resume_waiting(), Output::ResumeWaiting),
        }
    }

    /// The state after all of `inputs`, in turn.
    pub open spec fn after(self, inputs: Seq<Input<F, P>>) -> State<F, P>
        decreases inputs.len(),
    {
        if inputs.len() == 0 {
            self
        } else {
            self.after(inputs.drop_last()).step(inputs.last()).0
        }
    }

    /// The answers to `inputs`, one for each.
    pub open spec fn answers(self, inputs: Seq<Input<F, P>>) -> Seq<Output<F, P>>
        decreases inputs.len(),
    {
        if inputs.len() == 0 {
            Seq::empty()
        } else {
            self.answers(inputs.drop_last()).push(
                self.after(inputs.drop_last()).step(inputs.last()).1,
            )
        }
    }

    /// What the continuations hold that have been registered and not yet
    /// handed out: those in the queue and those of the running units. Each
    /// continuation counts with `what` of it, as often as it occurs.
    pub open spec fn pending_by<R>(self, what: spec_fn(P) -> R) -> Multiset<R> {
        queued_by(self.queue, what).add(outstanding_by(self.post_tasks, what))
    }

    /// The continuations that have been registered and not yet handed out.
    pub open spec fn pending(self) -> Multiset<P> {
        self.pending_by(itself())
    }
}

/// The function that gives every continuation as it is.
pub open spec fn itself<P>() -> spec_fn(P) -> P {
    |post_task: P| post_task
}

/// `what` of the continuations of the tasks in `queue`, each as often as it
/// occurs.
pub open spec fn queued_by<F, P, R>(queue: Seq<(F, P)>, what: spec_fn(P) -> R) -> Multiset<R>
    decreases queue.len(),
{
    if queue.len() == 0 {
        Multiset::empty()
    } else {
        queued_by(queue.drop_last(), what).insert(what(queue.last().1))
    }
}

/// `what` of the continuations that `post_tasks` still holds, each as often
/// as it occurs.
pub open spec fn outstanding_by<P, R>(post_tasks: Seq<Option<P>>, what: spec_fn(P) -> R) -> Multiset<
    R,
>
    decreases post_tasks.len(),
{
    if post_tasks.len() == 0 {
        Multiset::empty()
    } else {
        match post_tasks.last() {
            Some(post_task) => outstanding_by(post_tasks.drop_last(), what).insert(
                what(post_task),
            ),
            None => outstanding_by(post_tasks.drop_last(), what),
        }
    }
}

/// `what` of the continuations that `inputs` register, each as often as it
/// is registered.
pub open spec fn registered_by<F, P, R>(inputs: Seq<Input<F, P>>, what: spec_fn(P) -> R) -> Multiset<
    R,
>
    decreases inputs.len(),
{
    if inputs.len() == 0 {
        Multiset::empty()
    } else {
        match inputs.last() {
            Input::Schedule(_, post_task) => registered_by(inputs.drop_last(), what).insert(
                what(post_task),
            ),
            _ => registered_by(inputs.drop_last(), what),
        }
    }
}

/// `what` of the continuations that `outputs` hand out to be run, each as
/// often as it is handed out.
pub open spec fn invoked_by<F, P, R>(outputs: Seq<Output<F, P>>, what: spec_fn(P) -> R) -> Multiset<
    R,
>
    decreases outputs.len(),
{
    if outputs.len() == 0 {
        Multiset::empty()
    } else {
        match outputs.last() {
            Output::Invoke(post_task) => invoked_by(outputs.drop_last(), what).insert(
                what(post_task),
            ),
            _ => invoked_by(outputs.drop_last(), what),
        }
    }
}

/// The continuations that `inputs` register, each as often as it is
/// registered.
pub open spec fn registered<F, P>(inputs: Seq<Input<F, P>>) -> Multiset<P> {
    registered_by(inputs, itself())
}

/// The continuations that `outputs` hand out to be run, each as often as it
/// is handed out.
pub open spec fn invoked<F, P>(outputs: Seq<Output<F, P>>) -> Multiset<P> {
    invoked_by(outputs, itself())
}

} // verus!
