//! A bridge between a single-threaded scripting virtual machine and an
//! asynchronous executor.
//!
//! Scripts run in fibers, of which the machine runs one at a time. A fiber
//! that starts an asynchronous operation, a timer for one, hands the host
//! its own handle and is suspended; the host registers the operation with
//! the [`scheduler::Scheduler`] together with the continuation that will
//! resume the fiber. The host's event loop then asks the scheduler, again
//! and again, what to do: start the registered computations on the
//! executor, wait, run the continuation of a computation that has
//! finished, fire the barrier, or stop.
//!
//! The scheduler itself never waits and never enters the machine. It is a
//! state machine whose every answer is fixed by the mathematical model in
//! [`model`], and [`laws`] proves of that model what a host relies on: that
//! every continuation runs exactly once, in the order in which the
//! computations finish; that the loop does not end while work is left, not
//! even work that a continuation has just registered; that the barrier
//! fires when the work has drained and not before; that every fiber handle
//! is given back.
//!
//! Around the scheduler stand the smaller things a host needs to talk to
//! the machine: owned [`handle`]s, the arity of method signatures, the
//! meaning of the machine's result and type codes ([`error`], [`value`]),
//! the slots a call takes, and the registry of built-in [`modules`].

pub mod context;
pub mod error;
pub mod handle;
pub mod laws;
pub mod model;
pub mod modules;
pub mod os;
pub mod scheduler;
pub mod timer;
pub mod value;
