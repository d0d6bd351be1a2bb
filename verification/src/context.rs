//! Where a piece of host code runs relative to the virtual machine.
//!
//! The machine is not re-entrant. Code that the host runs on its own account
//! may enter the machine: interpret source, call a method. Code that the
//! machine itself has called, a foreign method, may only read and write the
//! slots of the call it serves. The two places are told apart in types, so
//! that an operation can name the place it is meant for.

use core::marker::PhantomData;
use vstd::prelude::*;
use crate::error::InterpretResultErrorKind;
use crate::handle::{signature_arity, terminated_bytes, CallHandle, Handle, SignatureError};
use crate::scheduler::{StackValue, VmCall};
use crate::value::{
    capped, deepen, lemma_capped_deeper, stack_depth, total_slots, SetValue, Slot,
};

verus! {

/// A place host code can run in: [`Native`] or [`Foreign`].
pub trait Location {
    /// Whether code in this place may enter the machine.
    spec fn enters_machine() -> bool;

    /// Whether code in this place may enter the machine.
    fn may_enter_machine() -> (allowed: bool)
        ensures
            allowed == Self::enters_machine(),
    ;
}

/// Inside a foreign method, while the machine waits for it to return.
#[derive(Clone, Copy, Debug)]
pub struct Foreign;

/// On the host's own account, outside any call the machine has made.
#[derive(Clone, Copy, Debug)]
pub struct Native;

impl Location for Foreign {
    open spec fn enters_machine() -> bool {
        false
    }

    fn may_enter_machine() -> (allowed: bool) {
        false
    }
}

impl Location for Native {
    open spec fn enters_machine() -> bool {
        true
    }

    fn may_enter_machine() -> (allowed: bool) {
        true
    }
}

/// The mark of a context that does not know the type of the host's data.
#[derive(Clone, Copy, Debug)]
pub struct NoTypeInfo;

/// A reference to a virtual machine, marked with the type `V` of the data
/// that the host has attached to the machine and with the place `L` in
/// which the code that holds the reference runs.
///
/// The reference is the machine's address and is never null.
#[derive(Debug)]
pub struct Context<V, L: Location> {
    vm: usize,
    user_data: PhantomData<V>,
    location: PhantomData<L>,
}

impl<V, L: Location> Context<V, L> {
    #[verifier::type_invariant]
    spec fn is_not_null(&self) -> bool {
        self.vm != 0
    }

    /// The machine's address.
    pub closed spec fn pointer(&self) -> usize {
        self.vm
    }

    /// A context for the machine at the address `vm`, unless `vm` is null.
    pub fn new(vm: usize) -> (context: Option<Context<V, L>>)
        ensures
            match context {
                Some(context) => vm != 0 && context.pointer() == vm,
                None => vm == 0,
            },
    {
        if vm == 0 {
            None
        } else {
            Some(Context { vm, user_data: PhantomData, location: PhantomData })
        }
    }

    /// A context for the machine at the address `vm`, which is not null.
    pub fn new_unchecked(vm: usize) -> (context: Context<V, L>)
        requires
            vm != 0,
        ensures
            context.pointer() == vm,
    {
        Context { vm, user_data: PhantomData, location: PhantomData }
    }

    /// The machine's address, which is not null.
    pub fn as_ptr(&self) -> (vm: usize)
        ensures
            vm == self.pointer(),
            vm != 0,
    {
        proof {
            use_type_invariant(self);
        }
        self.vm
    }

    /// The same machine, for code that is to be held to what a foreign
    /// method may do.
    pub fn as_foreign(&self) -> (context: Context<V, Foreign>)
        ensures
            context.pointer() == self.pointer(),
    {
        proof {
            use_type_invariant(self);
        }
        Context { vm: self.vm, user_data: PhantomData, location: PhantomData }
    }

    /// The same machine, without the type of the host's data.
    pub fn as_raw(&self) -> (context: Context<NoTypeInfo, L>)
        ensures
            context.pointer() == self.pointer(),
    {
        proof {
            use_type_invariant(self);
        }
        Context { vm: self.vm, user_data: PhantomData, location: PhantomData }
    }
}

impl<L: Location> Context<NoTypeInfo, L> {
    /// Wraps the reference `pointer`, which this machine returned for
    /// `signature`, as a call handle that records the signature's arity.
    pub fn make_call_handle(&self, pointer: usize, signature: &[u8]) -> (call: CallHandle)
        ensures
            call.pointer() == pointer,
            call.vm() == self.pointer(),
            call.arity() == signature_arity(signature@),
            call.signature() == signature@,
    {
        CallHandle::new_from_signature(self, pointer, signature)
    }

    /// As [`Context::make_call_handle`], for a signature that still carries
    /// its terminating NUL. Fails unless the first NUL of `signature` is its
    /// last byte.
    pub fn make_call_handle_slice(&self, pointer: usize, signature: &[u8]) -> (r: Result<
        CallHandle,
        SignatureError,
    >)
        ensures
            match r {
                Ok(call) => {
                    &&& terminated_bytes(signature@) == Ok::<Seq<u8>, SignatureError>(
                        call.signature(),
                    )
                    &&& call.pointer() == pointer
                    &&& call.vm() == self.pointer()
                    &&& call.arity() == signature_arity(call.signature())
                },
                Err(e) => terminated_bytes(signature@) == Err::<Seq<u8>, SignatureError>(e),
            },
    {
        CallHandle::new_from_slice(self, pointer, signature)
    }
}

/// The slots to reserve for a call with the arguments `needs`: one for the
/// receiver and what the arguments take.
pub open spec fn call_slots(needs: Seq<int>) -> Slot {
    capped(1 + capped(total_slots(needs)))
}

/// What each argument of a call takes, in the order of the arguments: a
/// reference takes the slot it is written to, a value what its type takes.
pub open spec fn argument_needs<T: SetValue<Native>>(arguments: Seq<StackValue<T>>) -> Seq<int> {
    Seq::new(
        arguments.len(),
        |i: int|
            match arguments[i] {
                StackValue::Handle(_) => 1,
                StackValue::Argument(_) => T::slots(),
            },
    )
}

impl<V> Context<V, Native> {
    /// Writes down a call of `method` on `subject` with `arguments`, for
    /// the host to make on this machine: the receiver goes to slot 0 and the
    /// arguments to the slots after it, in their order, and a slot is
    /// reserved for the receiver and for all that the arguments take.
    ///
    /// The call is refused, and nothing is written down, unless it passes as
    /// many arguments as were counted in the method's signature when the
    /// handle was made. No handle is used up by the call.
    pub fn call<T: SetValue<Native>>(
        &self,
        subject: &Handle,
        method: &CallHandle,
        arguments: Vec<StackValue<T>>,
    ) -> (r: Result<VmCall<T>, InterpretResultErrorKind>)
        ensures
            match r {
                Ok(call) => {
                    &&& method.arity() == arguments@.len()
                    &&& call.vm == self.pointer()
                    &&& call.method == method.pointer()
                    &&& call.stack@ == seq![StackValue::<T>::Handle(subject@)] + arguments@
                    &&& call.slot_count == call_slots(argument_needs(arguments@))
                    &&& call.release is None
                },
                Err(error) => {
                    &&& method.arity() != arguments@.len()
                    &&& error == InterpretResultErrorKind::IncorrectNumberOfArgsPassed
                },
            },
    {
        let count = arguments.len();
        if method.get_argument_count() != count {
            return Err(InterpretResultErrorKind::IncorrectNumberOfArgsPassed);
        }
        let ghost needs = argument_needs(arguments@);
        let value_slots = T::required_slots();
        let mut depth: Slot = 0;
        let mut position: usize = 0;
        proof {
            T::slots_is_positive();
            assert(needs.take(0) =~= Seq::<int>::empty());
        }
        while position < count
            invariant
                count == arguments@.len(),
                needs == argument_needs(arguments@),
                position <= count,
                value_slots == capped(T::slots()),
                T::slots() >= 1,
                0 <= stack_depth(needs.take(position as int)),
                depth == capped(stack_depth(needs.take(position as int))),
            decreases count - position,
        {
            let needed = match &arguments[position] {
                StackValue::Handle(_) => 1,
                StackValue::Argument(_) => value_slots,
            };
            proof {
                let before = needs.take(position as int);
                let after = needs.take(position + 1);
                assert(after.drop_last() =~= before);
                assert(after.last() == needs[position as int]);
                lemma_capped_deeper(stack_depth(before), needs[position as int], position as int);
            }
            depth = if position <= Slot::MAX as usize {
                deepen(depth, needed, position as Slot)
            } else {
                Slot::MAX
            };
            position += 1;
        }
        proof {
            assert(needs.take(count as int) =~= needs);
        }
        let total = if count == 0 {
            1
        } else {
            depth
        };
        let slot_count = if total < Slot::MAX {
            total + 1
        } else {
            Slot::MAX
        };
        let mut stack: Vec<StackValue<T>> = Vec::new();
        stack.push(StackValue::Handle(subject.as_ptr()));
        let mut arguments = arguments;
        stack.append(&mut arguments);
        Ok(VmCall { vm: self.as_ptr(), method: method.as_ptr(), slot_count, stack, release: None })
    }
}

} // verus!
