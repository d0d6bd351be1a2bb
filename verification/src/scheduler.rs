//! The scheduler: the queue of registered tasks, the table of running
//! units, the barrier flag, and the handles of the methods through which
//! fibers are resumed.
//!
//! The scheduler never waits and never enters the virtual machine. The host
//! tells it what happened, through [`Scheduler::run_async_loop`], and does
//! what it answers: start computations on the executor, run a continuation,
//! make a call into the machine. What the scheduler answers is fixed by
//! [`State::step`]; what it asks the machine to do is written down in a
//! [`VmCall`].

use std::collections::VecDeque;
use vstd::prelude::*;
use vstd::string::StringSliceAdditionalSpecFns;
use crate::context::{Context, Native, NoTypeInfo};
use crate::error::InterpretResultErrorKind;
use crate::handle::{
    argument_list, lemma_first_index_of, signature_arity, CallHandle, Handle, Released,
    OPEN_PAREN, PLACEHOLDER,
};
use crate::model::{Input, Output, State};
use crate::modules::{Class, ForeignMethod, Module};
use crate::value::{capped, deeper, stack_depth, SetArgs, SetValue, Slot};

verus! {

/// The methods of the script-side scheduler class through which the host
/// drives fibers.
#[derive(Debug, Clone, Copy, PartialEq, Eq, Structural)]
pub enum ProtocolMethod {
    /// Resume a fiber without a value.
    Resume,
    /// Resume a fiber with a value.
    ResumeWithArg,
    /// Resume a fiber with an error.
    ResumeError,
    /// Resume every fiber that waits for the barrier.
    ResumeWaiting,
    /// Ask whether the script-side scheduler has fibers queued of its own.
    HasNext,
    /// Run the next fiber that the script-side scheduler has queued.
    RunNextScheduled,
}

impl ProtocolMethod {
    /// The number of arguments the method takes.
    pub open spec fn arity(self) -> usize {
        match self {
            ProtocolMethod::Resume => 1,
            ProtocolMethod::ResumeWithArg => 2,
            ProtocolMethod::ResumeError => 2,
            ProtocolMethod::ResumeWaiting => 0,
            ProtocolMethod::HasNext => 0,
            ProtocolMethod::RunNextScheduled => 0,
        }
    }

    /// The method's signature, as the machine resolves it.
    pub open spec fn signature_text(self) -> Seq<char> {
        match self {
            ProtocolMethod::Resume => "resume_(_)"@,
            ProtocolMethod::ResumeWithArg => "resume_(_,_)"@,
            ProtocolMethod::ResumeError => "resumeError_(_,_)"@,
            ProtocolMethod::ResumeWaiting => "resumeWaitingFibers_()"@,
            ProtocolMethod::HasNext => "hasNext_"@,
            ProtocolMethod::RunNextScheduled => "runNextScheduled_()"@,
        }
    }

    /// The bytes of the method's signature.
    pub open spec fn signature_bytes(self) -> Seq<u8> {
        Seq::new(self.signature_text().len(), |i: int| self.signature_text()[i] as u8)
    }

    /// The method's signature, as the machine resolves it.
    pub fn signature(&self) -> (text: &'static str)
        ensures
            text@ == self.signature_text(),
            text.spec_bytes() == self.signature_bytes(),
            signature_arity(self.signature_bytes()) == self.arity(),
    {
        let text = match self {
            ProtocolMethod::Resume => "resume_(_)",
            ProtocolMethod::ResumeWithArg => "resume_(_,_)",
            ProtocolMethod::ResumeError => "resumeError_(_,_)",
            ProtocolMethod::ResumeWaiting => "resumeWaitingFibers_()",
            ProtocolMethod::HasNext => "hasNext_",
            ProtocolMethod::RunNextScheduled => "runNextScheduled_()",
        };
        proof {
            reveal_strlit("resume_(_)");
            reveal_strlit("resume_(_,_)");
            reveal_strlit("resumeError_(_,_)");
            reveal_strlit("resumeWaitingFibers_()");
            reveal_strlit("hasNext_");
            reveal_strlit("runNextScheduled_()");
            assert(text.is_ascii());
            vstd::string::is_ascii_spec_bytes(text);
            let bytes = text.spec_bytes();
            let start: int = match self {
                ProtocolMethod::Resume => 7,
                ProtocolMethod::ResumeWithArg => 7,
                ProtocolMethod::ResumeError => 12,
                ProtocolMethod::ResumeWaiting => 20,
                ProtocolMethod::HasNext => 8,
                ProtocolMethod::RunNextScheduled => 17,
            };
            lemma_first_index_of(bytes, OPEN_PAREN, start);
            lemma_short_arity(argument_list(bytes));
        }
        text
    }
}

/// The arity of an argument list of at most five bytes, byte by byte.
proof fn lemma_short_arity(list: Seq<u8>)
    requires
        list.len() <= 5,
    ensures
        list.filter(|byte: u8| byte == PLACEHOLDER).len() == (if list.len() > 0 && list[0]
            == PLACEHOLDER {
            1int
        } else {
            0int
        }) + (if list.len() > 1 && list[1] == PLACEHOLDER {
            1int
        } else {
            0int
        }) + (if list.len() > 2 && list[2] == PLACEHOLDER {
            1int
        } else {
            0int
        }) + (if list.len() > 3 && list[3] == PLACEHOLDER {
            1int
        } else {
            0int
        }) + (if list.len() > 4 && list[4] == PLACEHOLDER {
            1int
        } else {
            0int
        }),
    decreases list.len(),
{
    let placeholder = |byte: u8| byte == PLACEHOLDER;
    if list.len() == 0 {
        reveal_with_fuel(Seq::filter, 1);
    } else {
        let front = list.drop_last();
        lemma_short_arity(front);
        assert(front.push(list.last()) =~= list);
        front.lemma_filter_len_push(placeholder, list.last());
    }
}

/// What the host writes to one slot before a call.
#[derive(Debug, PartialEq, Eq)]
pub enum StackValue<T> {
    /// The object behind this raw reference.
    Handle(usize),
    /// This value.
    Argument(T),
}

/// One call into the virtual machine, for the host to make.
///
/// On the machine `vm`, the host reserves `slot_count` slots, writes
/// `stack[i]` to slot `i` (slot 0 is the receiver), releases the reference
/// in `release` if there is one, and calls `method`.
#[derive(Debug, PartialEq, Eq)]
pub struct VmCall<T> {
    /// The address of the machine to call.
    pub vm: usize,
    /// The raw reference of the call handle to invoke.
    pub method: usize,
    /// The slots to reserve before anything is written.
    pub slot_count: Slot,
    /// What goes to the slots, from slot 0 on.
    pub stack: Vec<StackValue<T>>,
    /// The raw reference of the fiber handle that this call uses up. The
    /// handle itself is gone; the host owes the machine its release.
    pub release: Option<Released>,
}

impl<T> VmCall<T> {
    /// The call goes through `method`, passes as many arguments as `method`
    /// takes, and reserves a slot for everything it writes.
    pub open spec fn fits(self, method: CallHandle) -> bool {
        &&& self.vm == method.vm()
        &&& self.method == method.pointer()
        &&& self.stack@.len() == method.arity() + 1
        &&& self.stack@.len() <= self.slot_count
    }
}

/// What the host tells the run loop.
#[derive(Debug, Clone, Copy, PartialEq, Eq, Structural)]
pub enum LoopEvent {
    /// The host is at the head of the loop.
    Pass,
    /// The unit with this sequence index has finished.
    Completed(usize),
}

impl LoopEvent {
    /// The event as the model's input.
    pub open spec fn input<F, P>(self) -> Input<F, P> {
        match self {
            LoopEvent::Pass => Input::Pass,
            LoopEvent::Completed(index) => Input::Completed(index as int),
        }
    }
}

/// What the run loop asks of the host.
#[derive(Debug, PartialEq, Eq)]
pub enum LoopAction<F, P> {
    /// Start each computation on the executor as a unit of its own, and
    /// report its sequence index when it has finished. Then wait for the
    /// next completion and report it.
    Spawn(Vec<(usize, F)>),
    /// Nothing is started, since a unit still runs. Wait for the next
    /// completion and report it.
    Wait,
    /// Run this continuation, now, to its end and on the machine's thread.
    /// Then go on with the units that still run: wait for the next
    /// completion and report it. What the continuation has registered is
    /// not started before the last of them has completed; a pass made
    /// earlier is answered with `Wait`. Once none runs, pass again.
    Invoke(P),
    /// Make this call, which resumes the fibers that wait for the barrier,
    /// and pass again.
    ResumeWaiting(VmCall<()>),
    /// The loop is over.
    Finished,
    /// Nothing: the reported index names no running unit.
    Ignored,
}

impl<F, P> LoopAction<F, P> {
    /// The action as the model's output.
    pub open spec fn output(self) -> Output<F, P> {
        match self {
            LoopAction::Spawn(units) => Output::Spawn(
                Seq::new(units@.len(), |k: int| (units@[k].0 as int, units@[k].1)),
            ),
            LoopAction::Wait => Output::Wait,
            LoopAction::Invoke(post_task) => Output::Invoke(post_task),
            LoopAction::ResumeWaiting(_) => Output::ResumeWaiting,
            LoopAction::Finished => Output::Finished,
            LoopAction::Ignored => Output::Ignored,
        }
    }
}

/// The handles through which the host reaches the script-side scheduler
/// class: the class itself and one call handle for each protocol method.
pub struct Protocol {
    vm: Context<NoTypeInfo, Native>,
    class: Handle,
    resume1: CallHandle,
    resume2: CallHandle,
    resume_error: CallHandle,
    resume_waiting: CallHandle,
    has_next: CallHandle,
    run_next_scheduled: CallHandle,
}

impl Protocol {
    /// Every call handle was made for its method's signature and records
    /// its method's arity.
    #[verifier::type_invariant]
    spec fn is_sound(&self) -> bool {
        &&& self.class.vm() == self.vm.pointer()
        &&& forall|method: ProtocolMethod|
            {
                &&& (#[trigger] self.handle(method)).arity() == method.arity()
                &&& self.handle(method).signature() == method.signature_bytes()
                &&& self.handle(method).vm() == self.vm.pointer()
            }
    }

    /// The address of the machine.
    pub closed spec fn vm(&self) -> usize {
        self.vm.pointer()
    }

    /// The raw reference of the script-side scheduler class, the receiver of
    /// every protocol call.
    pub closed spec fn class(&self) -> usize {
        self.class@
    }

    /// The call handle of a protocol method.
    pub closed spec fn handle(&self, method: ProtocolMethod) -> CallHandle {
        match method {
            ProtocolMethod::Resume => self.resume1,
            ProtocolMethod::ResumeWithArg => self.resume2,
            ProtocolMethod::ResumeError => self.resume_error,
            ProtocolMethod::ResumeWaiting => self.resume_waiting,
            ProtocolMethod::HasNext => self.has_next,
            ProtocolMethod::RunNextScheduled => self.run_next_scheduled,
        }
    }

    /// The raw references of the seven handles: the class first, then the
    /// call handles in the order of [`ProtocolMethod`].
    pub open spec fn references(&self) -> Seq<usize> {
        seq![
            self.class(),
            self.handle(ProtocolMethod::Resume).pointer(),
            self.handle(ProtocolMethod::ResumeWithArg).pointer(),
            self.handle(ProtocolMethod::ResumeError).pointer(),
            self.handle(ProtocolMethod::ResumeWaiting).pointer(),
            self.handle(ProtocolMethod::HasNext).pointer(),
            self.handle(ProtocolMethod::RunNextScheduled).pointer(),
        ]
    }

    /// The seven references as the host owes them to the machine once the
    /// handles are given up.
    pub open spec fn released(&self) -> Seq<Released> {
        Seq::new(7, |i: int| Released { vm: self.vm(), pointer: self.references()[i] })
    }

    /// The call through `method` with the receiver and `arguments` on the
    /// stack.
    fn call<T>(
        &self,
        method: ProtocolMethod,
        arguments: Vec<StackValue<T>>,
        slot_count: Slot,
        release: Option<Released>,
    ) -> (call: VmCall<T>)
        requires
            arguments@.len() == method.arity(),
        ensures
            call.vm == self.vm(),
            call.vm == self.handle(method).vm(),
            call.method == self.handle(method).pointer(),
            call.stack@ == seq![StackValue::<T>::Handle(self.class())] + arguments@,
            call.stack@.len() == self.handle(method).arity() + 1,
            call.slot_count == slot_count,
            call.release == release,
    {
        proof {
            use_type_invariant(self);
        }
        let handle = match method {
            ProtocolMethod::Resume => &self.resume1,
            ProtocolMethod::ResumeWithArg => &self.resume2,
            ProtocolMethod::ResumeError => &self.resume_error,
            ProtocolMethod::ResumeWaiting => &self.resume_waiting,
            ProtocolMethod::HasNext => &self.has_next,
            ProtocolMethod::RunNextScheduled => &self.run_next_scheduled,
        };
        let mut stack: Vec<StackValue<T>> = Vec::new();
        stack.push(StackValue::Handle(self.class.as_ptr()));
        let mut arguments = arguments;
        stack.append(&mut arguments);
        VmCall { vm: self.vm.as_ptr(), method: handle.as_ptr(), slot_count, stack, release }
    }
}

/// Wraps the reference that the machine returned for the signature of
/// `method`.
fn make_protocol_handle(
    vm: &Context<NoTypeInfo, Native>,
    method: ProtocolMethod,
    pointer: usize,
) -> (call: CallHandle)
    ensures
        call.pointer() == pointer,
        call.vm() == vm.pointer(),
        call.arity() == method.arity(),
        call.signature() == method.signature_bytes(),
{
    let text = method.signature();
    CallHandle::new_from_signature(vm, pointer, text.as_bytes())
}

/// The scheduler of one virtual machine.
///
/// `F` is the host's type of computations, `P` its type of continuations.
pub struct Scheduler<F, P> {
    protocol: Protocol,
    has_waiting_fibers: bool,
    queue: VecDeque<(F, P)>,
    post_tasks: Vec<Option<P>>,
}

impl<F, P> View for Scheduler<F, P> {
    type V = State<F, P>;

    closed spec fn view(&self) -> State<F, P> {
        State {
            queue: self.queue@,
            post_tasks: self.post_tasks@,
            has_waiting_fibers: self.has_waiting_fibers,
        }
    }
}

impl<F, P> Scheduler<F, P> {
    /// The scheduler's handles.
    pub closed spec fn protocol(&self) -> Protocol {
        self.protocol
    }

    /// Builds the scheduler of the machine `vm` from the references that
    /// the machine returned: `class` for the script-side scheduler class,
    /// the others for the signature of one protocol method each. The
    /// scheduler starts without work and without a barrier request.
    pub fn capture_methods(
        vm: Context<NoTypeInfo, Native>,
        class: usize,
        resume1: usize,
        resume2: usize,
        resume_error: usize,
        resume_waiting: usize,
        has_next: usize,
        run_next_scheduled: usize,
    ) -> (scheduler: Scheduler<F, P>)
        ensures
            scheduler@ == State::<F, P>::empty(),
            scheduler.protocol().vm() == vm.pointer(),
            scheduler.protocol().references() == seq![
                class,
                resume1,
                resume2,
                resume_error,
                resume_waiting,
                has_next,
                run_next_scheduled,
            ],
            forall|method: ProtocolMethod|
                {
                    &&& (#[trigger] scheduler.protocol().handle(method)).arity() == method.arity()
                    &&& scheduler.protocol().handle(method).signature()
                        == method.signature_bytes()
                    &&& scheduler.protocol().handle(method).vm() == vm.pointer()
                },
    {
        let class = Handle::new(&vm, class);
        let resume1 = make_protocol_handle(&vm, ProtocolMethod::Resume, resume1);
        let resume2 = make_protocol_handle(&vm, ProtocolMethod::ResumeWithArg, resume2);
        let resume_error = make_protocol_handle(&vm, ProtocolMethod::ResumeError, resume_error);
        let resume_waiting = make_protocol_handle(
            &vm,
            ProtocolMethod::ResumeWaiting,
            resume_waiting,
        );
        let has_next = make_protocol_handle(&vm, ProtocolMethod::HasNext, has_next);
        let run_next_scheduled = make_protocol_handle(
            &vm,
            ProtocolMethod::RunNextScheduled,
            run_next_scheduled,
        );
        let protocol = Protocol {
            vm,
            class,
            resume1,
            resume2,
            resume_error,
            resume_waiting,
            has_next,
            run_next_scheduled,
        };
        Scheduler {
            protocol,
            has_waiting_fibers: false,
            queue: VecDeque::new(),
            post_tasks: Vec::new(),
        }
    }

    /// The call handle of a protocol method. It belongs to the scheduler's
    /// machine, was made for the method's signature, and records the
    /// method's arity.
    pub fn handle(&self, method: ProtocolMethod) -> (call: &CallHandle)
        ensures
            *call == self.protocol().handle(method),
            call.vm() == self.protocol().vm(),
            call.arity() == method.arity(),
            call.signature() == method.signature_bytes(),
    {
        proof {
            use_type_invariant(&self.protocol);
            assert(self.protocol.handle(method).arity() == method.arity());
        }
        match method {
            ProtocolMethod::Resume => &self.protocol.resume1,
            ProtocolMethod::ResumeWithArg => &self.protocol.resume2,
            ProtocolMethod::ResumeError => &self.protocol.resume_error,
            ProtocolMethod::ResumeWaiting => &self.protocol.resume_waiting,
            ProtocolMethod::HasNext => &self.protocol.has_next,
            ProtocolMethod::RunNextScheduled => &self.protocol.run_next_scheduled,
        }
    }

    /// The class of the script-side scheduler, the receiver of every
    /// protocol call. It belongs to the scheduler's machine.
    pub fn class(&self) -> (class: &Handle)
        ensures
            class@ == self.protocol().class(),
            class.vm() == self.protocol().vm(),
    {
        proof {
            use_type_invariant(&self.protocol);
        }
        &self.protocol.class
    }

    /// The machine that the scheduler belongs to.
    pub fn vm(&self) -> (vm: &Context<NoTypeInfo, Native>)
        ensures
            vm.pointer() == self.protocol().vm(),
    {
        &self.protocol.vm
    }

    /// Whether the barrier was requested and has not fired yet.
    pub fn has_waiting_fibers(&self) -> (waiting: bool)
        ensures
            waiting == self@.has_waiting_fibers,
    {
        self.has_waiting_fibers
    }

    /// Whether no started unit is still running.
    pub fn is_idle(&self) -> (idle: bool)
        ensures
            idle == self@.idle(),
    {
        let mut index: usize = 0;
        while index < self.post_tasks.len()
            invariant
                index <= self.post_tasks@.len(),
                forall|i: int| 0 <= i < index ==> !self@.is_outstanding(i),
            decreases self.post_tasks@.len() - index,
        {
            if self.post_tasks[index].is_some() {
                assert(self@.is_outstanding(index as int));
                return false;
            }
            index += 1;
        }
        true
    }

    /// Registers a task: `future` is to be driven by the executor, and
    /// `post_task` is to be run once it has finished. Nothing is started and
    /// the machine is not touched.
    pub fn schedule_task(&mut self, future: F, post_task: P)
        ensures
            final(self)@ == old(self)@.schedule(future, post_task),
            final(self)@ == old(self)@.step(Input::Schedule(future, post_task)).0,
            final(self).protocol() == old(self).protocol(),
    {
        self.queue.push_back((future, post_task));
    }

    /// Requests the barrier: once no work is left, the fibers that wait for
    /// it are to be resumed. Nothing else happens now.
    pub fn await_all(&mut self)
        ensures
            final(self)@ == old(self)@.await_all(),
            final(self)@ == old(self)@.step(Input::<F, P>::AwaitAll).0,
            final(self).protocol() == old(self).protocol(),
    {
        self.has_waiting_fibers = true;
    }

    /// One decision of the run loop: what the host is to do after `event`.
    ///
    /// At the head of the loop, while a unit still runs, nothing is started
    /// and the answer is to wait. Once none runs, everything that is queued
    /// is handed out to be started, each computation with a sequence index
    /// of its own, and its continuation is kept under that index. When a
    /// unit completes, its continuation is handed out to be run, in the
    /// order in which the completions are reported, and at most once; what
    /// it registers waits for the pass after the last unit has completed.
    /// The loop is over when nothing is queued and nothing runs; if the
    /// barrier was requested, it fires first, and the loop goes on, since
    /// the resumed fibers may have registered new work.
    pub fn run_async_loop(&mut self, event: LoopEvent) -> (action: LoopAction<F, P>)
        ensures
            (final(self)@, action.output()) == old(self)@.step(event.input()),
            final(self).protocol() == old(self).protocol(),
            action matches LoopAction::Spawn(units) ==> {
                &&& old(self)@.idle()
                &&& units@.len() == old(self)@.queue.len()
                &&& forall|k: int|
                    0 <= k < units@.len() ==> #[trigger] units@[k] == (k as usize, old(self)@.queue[k].0)
            },
            action matches LoopAction::ResumeWaiting(call) ==> {
                &&& call.vm == old(self).protocol().vm()
                &&& call.fits(old(self).protocol().handle(ProtocolMethod::ResumeWaiting))
                &&& call.stack@ == seq![StackValue::<()>::Handle(old(self).protocol().class())]
                &&& call.slot_count == 1
                &&& call.release is None
            },
    {
        match event {
            LoopEvent::Pass => self.pass(),
            LoopEvent::Completed(index) => self.complete(index),
        }
    }

    /// The decision at the head of the loop.
    fn pass(&mut self) -> (action: LoopAction<F, P>)
        ensures
            (final(self)@, action.output()) == old(self)@.pass(),
            final(self).protocol() == old(self).protocol(),
            action matches LoopAction::Spawn(units) ==> {
                &&& old(self)@.idle()
                &&& units@.len() == old(self)@.queue.len()
                &&& forall|k: int|
                    0 <= k < units@.len() ==> #[trigger] units@[k] == (k as usize, old(self)@.queue[k].0)
            },
            action matches LoopAction::ResumeWaiting(call) ==> {
                &&& call.vm == old(self).protocol().vm()
                &&& call.fits(old(self).protocol().handle(ProtocolMethod::ResumeWaiting))
                &&& call.stack@ == seq![StackValue::<()>::Handle(old(self).protocol().class())]
                &&& call.slot_count == 1
                &&& call.release is None
            },
    {
        if !self.is_idle() {
            LoopAction::Wait
        } else if self.queue.len() > 0 {
            self.post_tasks.clear();
            let ghost before = old(self)@;
            let mut units: Vec<(usize, F)> = Vec::new();
            while self.queue.len() > 0
                invariant
                    units@.len() <= before.queue.len(),
                    self.queue@ == before.queue.skip(units@.len() as int),
                    self.post_tasks@ == before.started_post_tasks().take(units@.len() as int),
                    forall|k: int|
                        0 <= k < units@.len() ==> #[trigger] units@[k] == (k as usize, before.queue[k].0),
                    self.has_waiting_fibers == before.has_waiting_fibers,
                    self.protocol == old(self).protocol,
                decreases self.queue@.len(),
            {
                let ghost done = units@.len() as int;
                let task = self.queue.pop_front();
                let (future, post_task) = task.unwrap();
                let index = self.post_tasks.len();
                self.post_tasks.push(Some(post_task));
                units.push((index, future));
                proof {
                    assert(before.queue.skip(done)[0] == before.queue[done]);
                    assert(before.queue.skip(done).drop_first() =~= before.queue.skip(done + 1));
                    assert(before.started_post_tasks().take(done + 1)
                        =~= before.started_post_tasks().take(done).push(Some(before.queue[done].1)));
                }
            }
            proof {
                assert(units@.len() == before.queue.len());
                assert(before.started_post_tasks().take(units@.len() as int)
                    =~= before.started_post_tasks());
                assert(self.queue@ =~= Seq::<(F, P)>::empty());
                assert(Seq::new(units@.len(), |k: int| (units@[k].0 as int, units@[k].1))
                    =~= before.started());
            }
            LoopAction::Spawn(units)
        } else {
            self.post_tasks.clear();
            assert(self.queue@ =~= Seq::<(F, P)>::empty());
            if self.has_waiting_fibers {
                self.has_waiting_fibers = false;
                LoopAction::ResumeWaiting(self.barrier_call())
            } else {
                LoopAction::Finished
            }
        }
    }

    /// The decision after the unit with sequence index `index` completed.
    fn complete(&mut self, index: usize) -> (action: LoopAction<F, P>)
        ensures
            (final(self)@, action.output()) == old(self)@.complete(index as int),
            final(self).protocol() == old(self).protocol(),
            !(action is ResumeWaiting),
    {
        if index < self.post_tasks.len() && self.post_tasks[index].is_some() {
            self.post_tasks.push(None);
            let post_task = self.post_tasks.swap_remove(index);
            assert(self.post_tasks@ =~= old(self).post_tasks@.update(index as int, None));
            LoopAction::Invoke(post_task.unwrap())
        } else {
            LoopAction::Ignored
        }
    }

    /// The call that resumes `fiber` without a value. The fiber's handle is
    /// used up by it.
    pub fn resume(&self, fiber: Handle) -> (call: VmCall<()>)
        ensures
            call.vm == self.protocol().vm(),
            call.fits(self.protocol().handle(ProtocolMethod::Resume)),
            call.stack@ == seq![
                StackValue::<()>::Handle(self.protocol().class()),
                StackValue::<()>::Handle(fiber@),
            ],
            call.slot_count == 2,
            call.release == Some(Released { vm: fiber.vm(), pointer: fiber@ }),
    {
        let slot_count = <(&Handle, &Handle) as SetArgs<Native>>::total_required_slots();
        proof {
            reveal_with_fuel(stack_depth, 3);
        }
        let mut arguments: Vec<StackValue<()>> = Vec::new();
        arguments.push(StackValue::Handle(fiber.as_ptr()));
        self.protocol.call(ProtocolMethod::Resume, arguments, slot_count, Some(fiber.release()))
    }

    /// The call that resumes `fiber` with `additional_argument`. The
    /// fiber's handle is used up by it.
    pub fn resume_with_arg<T: SetValue<Native>>(&self, fiber: Handle, additional_argument: T) -> (call:
        VmCall<T>)
        ensures
            call.vm == self.protocol().vm(),
            call.fits(self.protocol().handle(ProtocolMethod::ResumeWithArg)),
            call.stack@ == seq![
                StackValue::<T>::Handle(self.protocol().class()),
                StackValue::<T>::Handle(fiber@),
                StackValue::<T>::Argument(additional_argument),
            ],
            call.slot_count == capped(deeper(2, T::slots(), 2)),
            call.release == Some(Released { vm: fiber.vm(), pointer: fiber@ }),
    {
        let slot_count = <(&Handle, &Handle, &T) as SetArgs<Native>>::total_required_slots();
        proof {
            T::slots_is_positive();
            reveal_with_fuel(stack_depth, 4);
        }
        let mut arguments: Vec<StackValue<T>> = Vec::new();
        arguments.push(StackValue::Handle(fiber.as_ptr()));
        arguments.push(StackValue::Argument(additional_argument));
        self.protocol.call(
            ProtocolMethod::ResumeWithArg,
            arguments,
            slot_count,
            Some(fiber.release()),
        )
    }

    /// The call that resumes `fiber` with the error `error`, which the
    /// script can catch. The fiber's handle is used up by it.
    pub fn resume_error(&self, fiber: Handle, error: &str) -> (call: VmCall<String>)
        ensures
            call.vm == self.protocol().vm(),
            call.fits(self.protocol().handle(ProtocolMethod::ResumeError)),
            call.stack@.len() == 3,
            call.stack@[0] == StackValue::<String>::Handle(self.protocol().class()),
            call.stack@[1] == StackValue::<String>::Handle(fiber@),
            call.stack@[2] matches StackValue::Argument(text) && text@ == error@,
            call.slot_count == 3,
            call.release == Some(Released { vm: fiber.vm(), pointer: fiber@ }),
    {
        let slot_count = <(&Handle, &Handle, &String) as SetArgs<Native>>::total_required_slots();
        proof {
            reveal_with_fuel(stack_depth, 4);
        }
        let mut arguments: Vec<StackValue<String>> = Vec::new();
        arguments.push(StackValue::Handle(fiber.as_ptr()));
        arguments.push(StackValue::Argument(error.to_owned()));
        self.protocol.call(ProtocolMethod::ResumeError, arguments, slot_count, Some(fiber.release()))
    }

    /// The call that resumes every fiber that waits for the barrier.
    fn barrier_call(&self) -> (call: VmCall<()>)
        ensures
            call.vm == self.protocol().vm(),
            call.fits(self.protocol().handle(ProtocolMethod::ResumeWaiting)),
            call.stack@ == seq![StackValue::<()>::Handle(self.protocol().class())],
            call.slot_count == 1,
            call.release is None,
    {
        self.protocol.call(ProtocolMethod::ResumeWaiting, Vec::new(), 1, None)
    }

    /// The call that resumes every fiber that waits for the barrier. The
    /// barrier request is cleared by it, whatever work is left; to wait for
    /// the work first is the run loop's part, which makes this call itself
    /// when a pass finds the barrier requested and nothing left.
    pub fn resume_waiting(&mut self) -> (call: VmCall<()>)
        ensures
            final(self)@ == (State { has_waiting_fibers: false, ..old(self)@ }),
            final(self)@ == old(self)@.step(Input::<F, P>::ResumeWaiting).0,
            final(self).protocol() == old(self).protocol(),
            call.vm == old(self).protocol().vm(),
            call.fits(old(self).protocol().handle(ProtocolMethod::ResumeWaiting)),
            call.stack@ == seq![StackValue::<()>::Handle(old(self).protocol().class())],
            call.slot_count == 1,
            call.release is None,
    {
        self.has_waiting_fibers = false;
        self.barrier_call()
    }

    /// The call that asks the script-side scheduler whether it has fibers
    /// queued of its own. The answer is the truth value of what the call
    /// leaves in slot 0.
    pub fn has_next(&self) -> (call: VmCall<()>)
        ensures
            call.vm == self.protocol().vm(),
            call.fits(self.protocol().handle(ProtocolMethod::HasNext)),
            call.stack@ == seq![StackValue::<()>::Handle(self.protocol().class())],
            call.slot_count == 1,
            call.release is None,
    {
        self.protocol.call(ProtocolMethod::HasNext, Vec::new(), 1, None)
    }

    /// The call that runs the next fiber that the script-side scheduler has
    /// queued.
    pub fn run_next_scheduled(&self) -> (call: VmCall<()>)
        ensures
            call.vm == self.protocol().vm(),
            call.fits(self.protocol().handle(ProtocolMethod::RunNextScheduled)),
            call.stack@ == seq![StackValue::<()>::Handle(self.protocol().class())],
            call.slot_count == 1,
            call.release is None,
    {
        self.protocol.call(ProtocolMethod::RunNextScheduled, Vec::new(), 1, None)
    }

    /// Whether the result of a protocol call is fatal. A fiber that raised
    /// a runtime error while it was resumed leaves the machine in a state
    /// from which the host cannot go on; every other result is left to the
    /// script.
    pub fn fiber_errored(result: &Result<(), InterpretResultErrorKind>) -> (fatal: bool)
        ensures
            fatal <==> *result == Err::<(), InterpretResultErrorKind>(
                InterpretResultErrorKind::Runtime,
            ),
    {
        match result {
            Err(InterpretResultErrorKind::Runtime) => true,
            _ => false,
        }
    }

    /// Takes the scheduler apart at the end of the machine's life. Where no
    /// work is left, the result is the raw references of its seven handles,
    /// which the host now owes the machine; the handles themselves are gone.
    /// Where work is left, the scheduler comes back as it was.
    pub fn teardown(self) -> (r: Result<Vec<Released>, Scheduler<F, P>>)
        ensures
            match r {
                Ok(references) => self@.drained() && references@ == self.protocol().released(),
                Err(scheduler) => !self@.drained() && scheduler == self,
            },
    {
        if self.queue.len() == 0 && self.is_idle() {
            proof {
                use_type_invariant(&self.protocol);
            }
            let Protocol {
                vm,
                class,
                resume1,
                resume2,
                resume_error,
                resume_waiting,
                has_next,
                run_next_scheduled,
            } = self.protocol;
            let mut references: Vec<Released> = Vec::new();
            references.push(class.release());
            references.push(resume1.release());
            references.push(resume2.release());
            references.push(resume_error.release());
            references.push(resume_waiting.release());
            references.push(has_next.release());
            references.push(run_next_scheduled.release());
            assert(references@ =~= self.protocol().released());
            Ok(references)
        } else {
            Err(self)
        }
    }
}

/// A continuation that resumes one fiber with one value: the fiber's
/// handle, which it owns until it runs, and the value.
#[derive(Debug, PartialEq)]
pub struct Resumption<T> {
    pub fiber: Handle,
    pub argument: T,
}

impl<T> Resumption<T> {
    /// The reference that the continuation gives up when it runs: that of
    /// the fiber it resumes.
    pub open spec fn released(self) -> Released {
        Released { vm: self.fiber.vm(), pointer: self.fiber@ }
    }

    /// The function that gives, for every continuation, the reference that
    /// it gives up when it runs.
    pub open spec fn gives_up() -> spec_fn(Resumption<T>) -> Released {
        |resumption: Resumption<T>| resumption.released()
    }
}

impl<T: SetValue<Native>> Resumption<T> {
    /// The continuation that resumes `fiber` with `argument`.
    pub fn new(fiber: Handle, argument: T) -> (resumption: Resumption<T>)
        ensures
            resumption == (Resumption { fiber, argument }),
    {
        Resumption { fiber, argument }
    }

    /// Runs the continuation: the result is the call that resumes the
    /// fiber. The fiber's handle is used up, whatever becomes of the call.
    pub fn run<F, P>(self, scheduler: &Scheduler<F, P>) -> (call: VmCall<T>)
        ensures
            call.vm == scheduler.protocol().vm(),
            call.fits(scheduler.protocol().handle(ProtocolMethod::ResumeWithArg)),
            call.stack@ == seq![
                StackValue::<T>::Handle(scheduler.protocol().class()),
                StackValue::<T>::Handle(self.fiber@),
                StackValue::<T>::Argument(self.argument),
            ],
            call.slot_count == capped(deeper(2, T::slots(), 2)),
            call.release == Some(self.released()),
    {
        scheduler.resume_with_arg(self.fiber, self.argument)
    }
}

/// The name of the scheduler module, under which scripts import it and the
/// host finds its class.
pub const MODULE_NAME: &'static str = "scheduler";

/// The name of the script-side scheduler class in that module: the variable
/// that the host captures as the receiver of every protocol call.
pub const CLASS_NAME: &'static str = "Scheduler";

/// The name of the scheduler module.
pub open spec fn module_name() -> Seq<char> {
    MODULE_NAME@
}

/// `module` is the scheduler module with the source `source`: its one
/// class, `Scheduler`, binds the two static entry points of the bridge and
/// nothing else.
pub open spec fn is_scheduler_module(module: Module, source: String) -> bool {
    &&& module.source == source
    &&& module.classes@.dom() == set![CLASS_NAME@]
    &&& module.classes@[CLASS_NAME@].methods@ == Map::<Seq<char>, ForeignMethod>::empty()
    &&& module.classes@[CLASS_NAME@].static_methods@ == map![
        "captureMethods_()"@ => ForeignMethod::CaptureMethods,
        "awaitAll_()"@ => ForeignMethod::AwaitAll,
    ]
}

/// The scheduler module: the script source `source` and the native
/// functions behind the foreign methods it declares.
pub fn init_module(source: String) -> (module: Module)
    ensures
        is_scheduler_module(module, source),
{
    let mut scheduler_class = Class::new();
    scheduler_class.static_methods.insert("captureMethods_()", ForeignMethod::CaptureMethods);
    scheduler_class.static_methods.insert("awaitAll_()", ForeignMethod::AwaitAll);
    let ghost class = scheduler_class;
    let mut scheduler_module = Module::new(source);
    scheduler_module.classes.insert(CLASS_NAME, scheduler_class);
    proof {
        reveal_strlit("captureMethods_()");
        reveal_strlit("awaitAll_()");
        assert(class.static_methods@ =~= map![
            "captureMethods_()"@ => ForeignMethod::CaptureMethods,
            "awaitAll_()"@ => ForeignMethod::AwaitAll,
        ]);
        assert(scheduler_module.classes@.dom() =~= set![CLASS_NAME@]);
    }
    scheduler_module
}

} // verus!
