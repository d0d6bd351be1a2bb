//! What holds of every run of the loop, whatever the host registers and in
//! whatever order the executor finishes the work.

use vstd::prelude::*;
use vstd::multiset::Multiset;
use crate::model::{
    invoked, invoked_by, itself, outstanding_by, queued_by, registered, registered_by, Input,
    Output, State,
};
use crate::scheduler::Resumption;

verus! {

/// A table without a running unit holds no continuation.
proof fn lemma_idle_holds_nothing<P, R>(post_tasks: Seq<Option<P>>, what: spec_fn(P) -> R)
    requires
        forall|index: int| 0 <= index < post_tasks.len() ==> post_tasks[index] is None,
    ensures
        outstanding_by(post_tasks, what) == Multiset::<R>::empty(),
    decreases post_tasks.len(),
{
    if post_tasks.len() > 0 {
        lemma_idle_holds_nothing(post_tasks.drop_last(), what);
    }
}

/// The continuations of the units that a pass starts are those of the
/// queue.
proof fn lemma_started_are_queued<F, P, R>(state: State<F, P>, what: spec_fn(P) -> R)
    ensures
        outstanding_by(state.started_post_tasks(), what) == queued_by(state.queue, what),
    decreases state.queue.len(),
{
    if state.queue.len() > 0 {
        let shorter = State { queue: state.queue.drop_last(), ..state };
        lemma_started_are_queued(shorter, what);
        assert(state.started_post_tasks().drop_last() =~= shorter.started_post_tasks());
    }
}

/// Taking a continuation out of the table takes it, once, out of what the
/// table holds.
proof fn lemma_outstanding_without<P, R>(
    post_tasks: Seq<Option<P>>,
    index: int,
    what: spec_fn(P) -> R,
)
    requires
        0 <= index < post_tasks.len(),
        post_tasks[index] is Some,
    ensures
        outstanding_by(post_tasks, what) == outstanding_by(post_tasks.update(index, None), what).insert(
            what(post_tasks[index]->0),
        ),
    decreases post_tasks.len(),
{
    let taken = post_tasks.update(index, None);
    if index == post_tasks.len() - 1 {
        assert(taken.drop_last() =~= post_tasks.drop_last());
    } else {
        lemma_outstanding_without(post_tasks.drop_last(), index, what);
        assert(taken.drop_last() =~= post_tasks.drop_last().update(index, None));
        let rest = outstanding_by(taken.drop_last(), what);
        match post_tasks.last() {
            Some(post_task) => {
                assert(rest.insert(what(post_tasks[index]->0)).insert(what(post_task))
                    =~= rest.insert(what(post_task)).insert(what(post_tasks[index]->0)));
            },
            None => {},
        }
    }
}

/// `what` of the continuation that one answer hands out, if it hands one
/// out.
pub open spec fn handed_out<F, P, R>(output: Output<F, P>, what: spec_fn(P) -> R) -> Multiset<R> {
    match output {
        Output::Invoke(post_task) => Multiset::empty().insert(what(post_task)),
        _ => Multiset::empty(),
    }
}

/// `what` of the continuation that one input registers, if it registers
/// one.
pub open spec fn brought_in<F, P, R>(input: Input<F, P>, what: spec_fn(P) -> R) -> Multiset<R> {
    match input {
        Input::Schedule(_, post_task) => Multiset::empty().insert(what(post_task)),
        _ => Multiset::empty(),
    }
}

/// One step neither loses nor invents a continuation: what is pending
/// after it, with what it hands out, is what was pending before it, with
/// what it brings in. This holds of the continuations themselves and of
/// whatever they hold.
pub proof fn law_step_conserves_continuations<F, P, R>(
    state: State<F, P>,
    input: Input<F, P>,
    what: spec_fn(P) -> R,
)
    ensures
        state.step(input).0.pending_by(what).add(handed_out(state.step(input).1, what))
            == state.pending_by(what).add(brought_in(input, what)),
{
    let after = state.step(input).0;
    let left = after.pending_by(what).add(handed_out(state.step(input).1, what));
    let right = state.pending_by(what).add(brought_in(input, what));
    match input {
        Input::Schedule(future, post_task) => {
            assert(after.queue.drop_last() =~= state.queue);
            assert(left =~= right);
        },
        Input::AwaitAll => {
            assert(left =~= right);
        },
        Input::Pass => {
            if state.idle() {
                assert forall|index: int| 0 <= index < state.post_tasks.len() implies state.post_tasks[index] is None by {
                    assert(!state.is_outstanding(index));
                }
                lemma_idle_holds_nothing(state.post_tasks, what);
                lemma_started_are_queued(state, what);
            }
            assert(left =~= right);
        },
        Input::Completed(index) => {
            if state.is_outstanding(index) {
                lemma_outstanding_without(state.post_tasks, index, what);
            }
            assert(left =~= right);
        },
        Input::ResumeWaiting => {
            assert(left =~= right);
        },
    }
}

/// No run loses or invents a continuation, or anything a continuation
/// holds. `what` of every continuation that was pending at the start or
/// registered on the way has, at every moment, either been handed out
/// exactly once or is still pending.
pub proof fn law_run_conserves_continuations<F, P, R>(
    state: State<F, P>,
    inputs: Seq<Input<F, P>>,
    what: spec_fn(P) -> R,
)
    ensures
        state.after(inputs).pending_by(what).add(invoked_by(state.answers(inputs), what))
            == state.pending_by(what).add(registered_by(inputs, what)),
    decreases inputs.len(),
{
    if inputs.len() == 0 {
        assert(state.after(inputs).pending_by(what).add(invoked_by(state.answers(inputs), what))
            =~= state.pending_by(what).add(registered_by(inputs, what)));
    } else {
        let before = inputs.drop_last();
        let middle = state.after(before);
        law_run_conserves_continuations(state, before, what);
        law_step_conserves_continuations(middle, inputs.last(), what);
        let answers = state.answers(inputs);
        assert(answers.drop_last() =~= state.answers(before));
        let out = handed_out(middle.step(inputs.last()).1, what);
        let brought = brought_in(inputs.last(), what);
        let ran = invoked_by(state.answers(before), what);
        let left = state.after(inputs).pending_by(what);
        assert(invoked_by(answers, what) =~= ran.add(out));
        assert(registered_by(inputs, what) =~= registered_by(before, what).add(brought));
        assert(left.add(ran.add(out)) =~= left.add(out).add(ran));
        assert(middle.pending_by(what).add(brought).add(ran) =~= middle.pending_by(what).add(
            ran,
        ).add(brought));
        assert(state.pending_by(what).add(registered_by(before, what)).add(brought)
            =~= state.pending_by(what).add(registered_by(before, what).add(brought)));
    }
}

/// No run loses or invents a continuation. Every continuation that was
/// pending at the start or registered on the way has, at every moment,
/// either been handed out exactly once or is still pending; none is handed
/// out that was not registered, and none twice.
pub proof fn law_continuations_are_conserved<F, P>(state: State<F, P>, inputs: Seq<Input<F, P>>)
    ensures
        state.after(inputs).pending().add(invoked(state.answers(inputs))) == state.pending().add(
            registered(inputs),
        ),
{
    law_run_conserves_continuations(state, inputs, itself::<P>());
}

/// A state in which nothing is queued and nothing runs holds no
/// continuation.
pub proof fn lemma_drained_holds_nothing<F, P, R>(state: State<F, P>, what: spec_fn(P) -> R)
    requires
        state.drained(),
    ensures
        state.pending_by(what) == Multiset::<R>::empty(),
{
    assert forall|index: int| 0 <= index < state.post_tasks.len() implies state.post_tasks[index] is None by {
        assert(!state.is_outstanding(index));
    }
    lemma_idle_holds_nothing(state.post_tasks, what);
    assert(state.pending_by(what) =~= Multiset::<R>::empty());
}

/// When a run is answered with `Finished`, nothing is pending, and `what`
/// of every continuation that was pending at its start or registered while
/// it went on has been handed out exactly once.
pub proof fn law_finished_run_handed_out_everything<F, P, R>(
    state: State<F, P>,
    inputs: Seq<Input<F, P>>,
    what: spec_fn(P) -> R,
)
    requires
        inputs.len() > 0,
        state.answers(inputs).last() == Output::<F, P>::Finished,
    ensures
        invoked_by(state.answers(inputs), what) == state.pending_by(what).add(
            registered_by(inputs, what),
        ),
        state.after(inputs) == State::<F, P>::empty(),
{
    let middle = state.after(inputs.drop_last());
    assert(middle.step(inputs.last()).1 == Output::<F, P>::Finished);
    assert(state.after(inputs) == State::<F, P>::empty());
    law_run_conserves_continuations(state, inputs, what);
    assert(State::<F, P>::empty().idle());
    lemma_drained_holds_nothing(State::<F, P>::empty(), what);
    assert(state.after(inputs).pending_by(what).add(invoked_by(state.answers(inputs), what))
        =~= invoked_by(state.answers(inputs), what));
}

/// The loop ends only when all work is done. Whenever a run is answered
/// with `Finished`, every continuation that was pending at its start, and
/// every one that was registered while it went on, by a continuation that
/// ran or otherwise, has been handed out, exactly once.
pub proof fn law_finished_run_ran_every_continuation<F, P>(
    state: State<F, P>,
    inputs: Seq<Input<F, P>>,
)
    requires
        inputs.len() > 0,
        state.answers(inputs).last() == Output::<F, P>::Finished,
    ensures
        invoked(state.answers(inputs)) == state.pending().add(registered(inputs)),
        state.after(inputs) == State::<F, P>::empty(),
{
    law_finished_run_handed_out_everything(state, inputs, itself::<P>());
}

/// Every fiber is let go of exactly once. Where the continuations are
/// resumptions, each of which owns the handle of the fiber it resumes and
/// gives it up when it runs, a run that is answered with `Finished` has
/// released the handle of every resumption that was pending at its start or
/// registered while it went on, each exactly once.
pub proof fn law_finished_run_released_every_fiber<F, T>(
    state: State<F, Resumption<T>>,
    inputs: Seq<Input<F, Resumption<T>>>,
)
    requires
        inputs.len() > 0,
        state.answers(inputs).last() == Output::<F, Resumption<T>>::Finished,
    ensures
        invoked_by(state.answers(inputs), Resumption::<T>::gives_up()) == state.pending_by(
            Resumption::<T>::gives_up(),
        ).add(registered_by(inputs, Resumption::<T>::gives_up())),
{
    law_finished_run_handed_out_everything(state, inputs, Resumption::<T>::gives_up());
}

/// A run in two parts: the second part starts where the first one ended.
pub proof fn lemma_run_in_two_parts<F, P>(
    state: State<F, P>,
    first: Seq<Input<F, P>>,
    second: Seq<Input<F, P>>,
)
    ensures
        state.after(first + second) == state.after(first).after(second),
        state.answers(first + second) == state.answers(first) + state.after(first).answers(second),
    decreases second.len(),
{
    if second.len() == 0 {
        assert(first + second =~= first);
        assert(state.answers(first) + state.after(first).answers(second) =~= state.answers(first));
    } else {
        assert((first + second).drop_last() =~= first + second.drop_last());
        lemma_run_in_two_parts(state, first, second.drop_last());
        assert(state.answers(first + second) =~= state.answers(first) + state.after(first).answers(
            second,
        ));
    }
}

/// Every input is answered, and the answer to input `k` is the one that
/// the state after the inputs before it gives.
pub proof fn lemma_answer_at<F, P>(state: State<F, P>, inputs: Seq<Input<F, P>>, k: int)
    requires
        0 <= k < inputs.len(),
    ensures
        state.answers(inputs).len() == inputs.len(),
        state.answers(inputs)[k] == state.after(inputs.take(k)).step(inputs[k]).1,
    decreases inputs.len(),
{
    lemma_answers_len(state, inputs);
    if k == inputs.len() - 1 {
        assert(inputs.take(k) =~= inputs.drop_last());
    } else {
        lemma_answer_at(state, inputs.drop_last(), k);
        assert(inputs.drop_last().take(k) =~= inputs.take(k));
    }
}

/// Every input is answered.
pub proof fn lemma_answers_len<F, P>(state: State<F, P>, inputs: Seq<Input<F, P>>)
    ensures
        state.answers(inputs).len() == inputs.len(),
    decreases inputs.len(),
{
    if inputs.len() > 0 {
        lemma_answers_len(state, inputs.drop_last());
    }
}

/// The reports that the units with the sequence indices `order` have
/// finished, in that order.
pub open spec fn completions<F, P>(order: Seq<int>) -> Seq<Input<F, P>> {
    Seq::new(order.len(), |k: int| Input::Completed(order[k]))
}

/// Continuations run in the order of completion. Whatever the order in
/// which running units finish, each report is answered at once with the
/// continuation of the unit it names, so the continuations are handed out
/// in the order of the reports; the units not named keep theirs.
pub proof fn law_dispatch_follows_completion_order<F, P>(state: State<F, P>, order: Seq<int>)
    requires
        forall|k: int| 0 <= k < order.len() ==> state.is_outstanding(#[trigger] order[k]),
        forall|a: int, b: int| 0 <= a < b < order.len() ==> order[a] != order[b],
    ensures
        state.answers(completions(order)) == Seq::new(
            order.len(),
            |k: int| Output::<F, P>::Invoke(state.post_tasks[order[k]]->0),
        ),
        state.after(completions(order)) == (State {
            post_tasks: Seq::new(
                state.post_tasks.len(),
                |index: int|
                    if order.contains(index) {
                        None
                    } else {
                        state.post_tasks[index]
                    },
            ),
            ..state
        }),
    decreases order.len(),
{
    let reports = completions::<F, P>(order);
    let expected = State {
        post_tasks: Seq::new(
            state.post_tasks.len(),
            |index: int|
                if order.contains(index) {
                    None
                } else {
                    state.post_tasks[index]
                },
        ),
        ..state
    };
    if order.len() == 0 {
        assert(expected.post_tasks =~= state.post_tasks);
        assert(state.answers(reports) =~= Seq::new(
            order.len(),
            |k: int| Output::<F, P>::Invoke(state.post_tasks[order[k]]->0),
        ));
    } else {
        let earlier = order.drop_last();
        let last = order.last();
        assert forall|k: int| 0 <= k < earlier.len() implies state.is_outstanding(
            #[trigger] earlier[k],
        ) by {
            assert(earlier[k] == order[k]);
        }
        law_dispatch_follows_completion_order(state, earlier);
        assert(reports.drop_last() =~= completions::<F, P>(earlier));
        let middle = state.after(completions::<F, P>(earlier));
        assert(state.is_outstanding(order[order.len() - 1]));
        assert(!earlier.contains(last)) by {
            if earlier.contains(last) {
                let a = choose|a: int| 0 <= a < earlier.len() && earlier[a] == last;
                assert(order[a] == order[order.len() - 1]);
            }
        }
        assert(middle.is_outstanding(last));
        assert(middle.complete(last).0.post_tasks =~= expected.post_tasks) by {
            assert forall|index: int| 0 <= index < state.post_tasks.len() implies middle.complete(
                last,
            ).0.post_tasks[index] == expected.post_tasks[index] by {
                if index == last {
                    assert(order[order.len() - 1] == index);
                } else if order.contains(index) {
                    let a = choose|a: int| 0 <= a < order.len() && order[a] == index;
                    assert(earlier[a] == index);
                } else {
                    if earlier.contains(index) {
                        let a = choose|a: int| 0 <= a < earlier.len() && earlier[a] == index;
                        assert(order[a] == index);
                    }
                }
            }
        }
        assert(state.answers(reports) =~= Seq::new(
            order.len(),
            |k: int| Output::<F, P>::Invoke(state.post_tasks[order[k]]->0),
        ));
    }
}

/// When every running unit has been reported, nothing runs any more, and
/// the next pass either starts what the continuations have registered or,
/// if they have registered nothing, fires the barrier or ends the loop.
pub proof fn law_all_reported_means_idle<F, P>(state: State<F, P>, order: Seq<int>)
    requires
        forall|k: int| 0 <= k < order.len() ==> state.is_outstanding(#[trigger] order[k]),
        forall|a: int, b: int| 0 <= a < b < order.len() ==> order[a] != order[b],
        forall|index: int| state.is_outstanding(index) ==> order.contains(index),
    ensures
        state.after(completions(order)).idle(),
        state.after(completions(order)).queue == state.queue,
        state.queue.len() == 0 ==> state.after(completions(order)).pass().1 == (
        if state.has_waiting_fibers {
            Output::<F, P>::ResumeWaiting
        } else {
            Output::<F, P>::Finished
        }),
{
    law_dispatch_follows_completion_order(state, order);
    let after = state.after(completions::<F, P>(order));
    assert forall|index: int| !after.is_outstanding(index) by {
        if 0 <= index < state.post_tasks.len() && !order.contains(index) {
            assert(!state.is_outstanding(index));
        }
    }
}

/// The shorter wait is over first. Tasks are registered in any order and
/// started in one pass; their computations take times that are all
/// different, and the executor reports them as they finish, the shortest
/// first. Then the continuations are handed out in the order of those
/// times, whatever the order of registration was.
pub proof fn law_continuations_run_by_increasing_delay<F, P>(
    state: State<F, P>,
    delays: Seq<int>,
    order: Seq<int>,
)
    requires
        state.idle(),
        delays.len() == state.queue.len(),
        order.len() == state.queue.len(),
        forall|k: int| 0 <= k < order.len() ==> 0 <= #[trigger] order[k] < state.queue.len(),
        forall|a: int, b: int|
            0 <= a < b < order.len() ==> delays[order[a]] < delays[order[b]],
    ensures
        forall|k: int|
            0 <= k < order.len() ==> #[trigger] state.answers(
                seq![Input::Pass] + completions(order),
            )[k + 1] == Output::<F, P>::Invoke(state.queue[order[k]].1),
{
    let head = seq![Input::<F, P>::Pass];
    let reports = completions::<F, P>(order);
    lemma_run_in_two_parts(state, head, reports);
    assert(head.drop_last() =~= Seq::<Input<F, P>>::empty());
    reveal_with_fuel(State::after, 2);
    reveal_with_fuel(State::answers, 2);
    assert(state.after(head) == state.pass().0);
    assert(state.answers(head) =~= seq![state.pass().1]);
    if order.len() > 0 {
        let running = state.pass().0;
        assert(running.post_tasks =~= state.started_post_tasks());
        assert forall|k: int| 0 <= k < order.len() implies running.is_outstanding(
            #[trigger] order[k],
        ) by {}
        law_dispatch_follows_completion_order(running, order);
        assert forall|k: int| 0 <= k < order.len() implies #[trigger] state.answers(head + reports)[k
            + 1] == Output::<F, P>::Invoke(state.queue[order[k]].1) by {
            assert(0 <= order[k] < state.queue.len());
            assert(running.answers(reports)[k] == Output::<F, P>::Invoke(
                running.post_tasks[order[k]]->0,
            ));
        }
    }
}

/// A pass starts nothing while a unit runs. Whatever has been registered
/// since the units were started, by a continuation that ran or otherwise,
/// stays in the queue until every one of them has completed: a pass made
/// before that is answered with `Wait` and changes nothing.
pub proof fn law_pass_waits_while_a_unit_runs<F, P>(state: State<F, P>)
    requires
        !state.idle(),
    ensures
        state.pass() == (state, Output::<F, P>::Wait),
{
}

/// Sequence indices tell the running units apart. A pass that finds no unit
/// running starts everything that is queued, in the order of registration
/// and with the positions in the queue as sequence indices; after the pass
/// exactly these units run, each holding the continuation it was registered
/// with, and the queue is empty.
pub proof fn law_sequence_indices_are_unique<F, P>(state: State<F, P>)
    requires
        state.idle(),
        state.queue.len() > 0,
    ensures
        state.pass().1 == Output::<F, P>::Spawn(state.started()),
        state.started().len() == state.queue.len(),
        forall|k: int|
            0 <= k < state.queue.len() ==> #[trigger] state.started()[k] == (k, state.queue[k].0),
        forall|a: int, b: int|
            0 <= a < b < state.started().len() ==> state.started()[a].0 != state.started()[b].0,
        state.pass().0.queue.len() == 0,
        state.pass().0.post_tasks.len() == state.queue.len(),
        forall|k: int|
            0 <= k < state.queue.len() ==> state.pass().0.is_outstanding(k)
                && #[trigger] state.pass().0.post_tasks[k] == Some(state.queue[k].1),
{
}

/// A unit completes once. The first report of a running unit is answered
/// with its continuation; a second report of the same unit is ignored and
/// changes nothing.
pub proof fn law_unit_completes_once<F, P>(state: State<F, P>, index: int)
    ensures
        state.is_outstanding(index) ==> state.complete(index).1 == Output::<F, P>::Invoke(
            state.post_tasks[index]->0,
        ),
        state.complete(index).0.complete(index) == (
            state.complete(index).0,
            Output::<F, P>::Ignored,
        ),
{
}

/// The loop ends only when nothing is left, and goes on until then. A pass
/// is answered with `Finished` exactly when nothing is queued, nothing runs
/// and no barrier is requested; completions and registrations are never
/// answered with it. In particular, once a continuation has registered a
/// new task, no pass ends the loop before that task's continuation was
/// handed out in its turn.
pub proof fn law_loop_ends_only_when_drained<F, P>(state: State<F, P>, input: Input<F, P>)
    ensures
        state.step(input).1 is Finished <==> input is Pass && state.drained()
            && !state.has_waiting_fibers,
        input is Pass && state.idle() && state.queue.len() > 0 ==> state.step(input).1
            == Output::<F, P>::Spawn(state.started()) && state.step(input).1->Spawn_0.len()
            == state.queue.len(),
{
}

/// The run loop fires the barrier when the work has drained, and not
/// before. A pass is answered with `ResumeWaiting` exactly when the barrier
/// is requested and nothing is queued and nothing runs; the request is then
/// cleared. No registration, request or completion is answered with it, and
/// while the loop does not answer with it, a request stays as it is. Only
/// the host's own call to resume the waiting fibers fires the barrier
/// whatever the state.
pub proof fn law_barrier_waits_for_drain<F, P>(state: State<F, P>, input: Input<F, P>)
    ensures
        state.step(input).1 is ResumeWaiting <==> input is ResumeWaiting || (input is Pass
            && state.drained() && state.has_waiting_fibers),
        input is Pass && state.step(input).1 is ResumeWaiting ==> state.step(input).0
            == State::<F, P>::empty(),
        input is ResumeWaiting ==> state.step(input).0 == state.resume_waiting(),
        state.has_waiting_fibers && !(state.step(input).1 is ResumeWaiting) ==> state.step(
            input,
        ).0.has_waiting_fibers,
{
}

/// A barrier requested while nothing is left fires on the next pass.
pub proof fn law_barrier_on_empty_queue_fires_at_once<F, P>(state: State<F, P>)
    requires
        state.drained(),
    ensures
        state.answers(seq![Input::AwaitAll, Input::Pass]) == seq![
            Output::<F, P>::Recorded,
            Output::<F, P>::ResumeWaiting,
        ],
        state.after(seq![Input::AwaitAll, Input::Pass]) == State::<F, P>::empty(),
{
    let inputs = seq![Input::<F, P>::AwaitAll, Input::<F, P>::Pass];
    assert(inputs.drop_last() =~= seq![Input::<F, P>::AwaitAll]);
    assert(inputs.drop_last().drop_last() =~= Seq::<Input<F, P>>::empty());
    reveal_with_fuel(State::after, 3);
    reveal_with_fuel(State::answers, 3);
    let requested = state.await_all();
    assert(requested.idle()) by {
        assert forall|index: int| !requested.is_outstanding(index) by {
            assert(!state.is_outstanding(index));
        }
    }
    assert(state.answers(inputs) =~= seq![
        Output::<F, P>::Recorded,
        Output::<F, P>::ResumeWaiting,
    ]);
}

/// A barrier request is never lost. In every run from a state in which the
/// barrier is requested, the request either still stands at the end or was
/// answered with `ResumeWaiting`; and every `ResumeWaiting` in a run, unless
/// the host asked for it by its own call, answers a pass that found nothing
/// queued and nothing running.
pub proof fn law_barrier_is_deferred_not_dropped<F, P>(
    state: State<F, P>,
    inputs: Seq<Input<F, P>>,
)
    requires
        state.has_waiting_fibers,
    ensures
        state.after(inputs).has_waiting_fibers || exists|k: int|
            0 <= k < inputs.len() && #[trigger] state.answers(inputs)[k] is ResumeWaiting,
        forall|k: int|
            0 <= k < inputs.len() && #[trigger] state.answers(inputs)[k] is ResumeWaiting
                && !(inputs[k] is ResumeWaiting) ==> inputs[k] is Pass && state.after(
                inputs.take(k),
            ).drained(),
    decreases inputs.len(),
{
    lemma_answers_len(state, inputs);
    assert forall|k: int|
        0 <= k < inputs.len() && #[trigger] state.answers(inputs)[k] is ResumeWaiting && !(inputs[k] is ResumeWaiting)
    implies inputs[k] is Pass && state.after(inputs.take(k)).drained() by {
        lemma_answer_at(state, inputs, k);
    }
    if inputs.len() > 0 {
        let before = inputs.drop_last();
        law_barrier_is_deferred_not_dropped(state, before);
        lemma_answers_len(state, before);
        let answers = state.answers(inputs);
        if state.after(before).has_waiting_fibers {
            if !state.after(inputs).has_waiting_fibers {
                assert(answers[inputs.len() - 1] is ResumeWaiting);
            }
        } else {
            let k = choose|k: int|
                0 <= k < before.len() && #[trigger] state.answers(before)[k] is ResumeWaiting;
            assert(answers[k] == state.answers(before)[k]);
        }
    }
}

} // verus!
