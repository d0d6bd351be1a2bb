//! The timer: a producer of tasks that resume a fiber after a delay.
//!
//! A script that starts a timer hands over a duration and the fiber that is
//! to sleep. The host turns the duration into a computation of the executor
//! that waits that long; where the duration is malformed there is no such
//! computation, and the request is turned down on the spot. Otherwise the
//! computation is registered together with the continuation that resumes
//! the fiber, and control goes back to the machine at once.

use vstd::prelude::*;
use crate::handle::Handle;
use crate::modules::{Class, ForeignMethod, Module};
use crate::scheduler::{Resumption, Scheduler};

verus! {

/// The value a fiber is resumed with when its timer has run out.
pub const TIMER_RESULT: bool = false;

/// What a fiber is told whose timer was turned down.
pub const MALFORMED_DURATION: &'static str =
    "The duration of a timer must be a number of milliseconds, not negative.";

/// Registers the task that resumes `fiber` once `delay` has finished.
///
/// `delay` is the executor's wait for the requested duration, or `None`
/// where the duration was malformed. In that case nothing is registered and
/// the fiber's handle comes back, for the host to report the error to the
/// fiber and to release the handle.
pub fn start<F>(
    scheduler: &mut Scheduler<F, Resumption<bool>>,
    delay: Option<F>,
    fiber: Handle,
) -> (r: Result<(), Handle>)
    ensures
        final(scheduler).protocol() == old(scheduler).protocol(),
        match delay {
            Some(wait) => r is Ok && final(scheduler)@ == old(scheduler)@.schedule(
                wait,
                (Resumption { fiber, argument: TIMER_RESULT }),
            ),
            None => r == Err::<(), Handle>(fiber) && final(scheduler)@ == old(scheduler)@,
        },
{
    match delay {
        Some(wait) => {
            scheduler.schedule_task(wait, Resumption::new(fiber, TIMER_RESULT));
            Ok(())
        },
        None => Err(fiber),
    }
}

/// The name of the timer module.
pub open spec fn module_name() -> Seq<char> {
    "timer"@
}

/// `module` is the timer module with the source `source`: its one class,
/// `Timer`, binds the static method that starts a timer and nothing else.
pub open spec fn is_timer_module(module: Module, source: String) -> bool {
    &&& module.source == source
    &&& module.classes@.dom() == set!["Timer"@]
    &&& module.classes@["Timer"@].methods@ == Map::<Seq<char>, ForeignMethod>::empty()
    &&& module.classes@["Timer"@].static_methods@ == map![
        "startTimer_(_,_)"@ => ForeignMethod::StartTimer,
    ]
}

/// The timer module: the script source `source` and the native function
/// behind the foreign method it declares.
pub fn init_module(source: String) -> (module: Module)
    ensures
        is_timer_module(module, source),
{
    let mut timer_class = Class::new();
    timer_class.static_methods.insert("startTimer_(_,_)", ForeignMethod::StartTimer);
    let ghost class = timer_class;
    let mut timer_module = Module::new(source);
    timer_module.classes.insert("Timer", timer_class);
    proof {
        assert(class.static_methods@ =~= map![
            "startTimer_(_,_)"@ => ForeignMethod::StartTimer,
        ]);
        assert(timer_module.classes@.dom() =~= set!["Timer"@]);
    }
    timer_module
}

} // verus!
