use wren_bridge::context::{Context, Native, NoTypeInfo};
use wren_bridge::error::InterpretResultErrorKind;
use wren_bridge::handle::{CallHandle, Handle};
use wren_bridge::scheduler::{StackValue, VmCall};
use wren_bridge::value::Num;

const VM: usize = 0x2000;

fn machine() -> Context<NoTypeInfo, Native> {
    Context::new(VM).expect("the address is not null")
}

fn num(value: f64) -> StackValue<Num> {
    StackValue::Argument(Num::from_bits(value.to_bits()))
}

#[test]
fn a_call_puts_the_receiver_first_and_the_arguments_after_it() {
    let context = machine();
    let subject = Handle::new(&context, 70);
    let binary = context.make_call_handle(4, b"insert(_,_)");
    let call = context.call(&subject, &binary, vec![num(1.0), num(2.0)]).unwrap();
    assert_eq!(
        call,
        VmCall {
            vm: VM,
            method: 4,
            slot_count: 3,
            stack: vec![StackValue::Handle(70), num(1.0), num(2.0)],
            release: None,
        }
    );
    // the receiver is still the caller's
    assert_eq!(subject.as_ptr(), 70);
}

#[test]
fn a_call_without_arguments_still_reserves_a_spare_slot() {
    let context = machine();
    let subject = Handle::new(&context, 70);
    let getter = context.make_call_handle(1, b"count");
    let nullary = context.make_call_handle(2, b"clear()");
    let call = context.call(&subject, &getter, Vec::<StackValue<()>>::new()).unwrap();
    assert_eq!(
        call,
        VmCall { vm: VM, method: 1, slot_count: 2, stack: vec![StackValue::Handle(70)], release: None }
    );
    let call = context.call(&subject, &nullary, Vec::<StackValue<()>>::new()).unwrap();
    assert_eq!(call.method, 2);
    assert_eq!(call.slot_count, 2);
    assert_eq!(call.stack, vec![StackValue::Handle(70)]);
}

#[test]
fn a_call_reserves_what_its_deepest_argument_takes() {
    let context = machine();
    let subject = Handle::new(&context, 70);
    let unary = context.make_call_handle(3, b"add(_)");
    let binary = context.make_call_handle(4, b"insert(_,_)");
    let ternary = context.make_call_handle(5, b"put(_,_,_)");
    // the receiver and the argument
    assert_eq!(context.call(&subject, &unary, vec![num(1.0)]).unwrap().slot_count, 2);
    // a reference as argument takes one slot
    let other: Vec<StackValue<()>> = vec![StackValue::Handle(71)];
    assert_eq!(context.call(&subject, &unary, other).unwrap().slot_count, 2);
    // the receiver, the list and the slot its elements pass through
    let list = vec![StackValue::Argument(vec![true, false])];
    assert_eq!(context.call(&subject, &unary, list).unwrap().slot_count, 3);
    // lists of lists at the second place: 1 + (3 + 1)
    let nested = vec![
        StackValue::Argument(vec![vec!["a".to_string()]]),
        StackValue::Argument(vec![vec!["b".to_string()]]),
    ];
    assert_eq!(context.call(&subject, &binary, nested).unwrap().slot_count, 5);
    // references and lists mixed: 1 + max(1, 1 + 1, 2 + 2)
    let mixed = vec![
        StackValue::Handle(71),
        StackValue::Handle(72),
        StackValue::Argument(vec![true]),
    ];
    let call = context.call(&subject, &ternary, mixed).unwrap();
    assert_eq!(call.slot_count, 5);
    assert_eq!(
        call.stack,
        vec![
            StackValue::Handle(70),
            StackValue::Handle(71),
            StackValue::Handle(72),
            StackValue::Argument(vec![true]),
        ]
    );
}

#[test]
fn a_call_with_another_number_of_arguments_is_refused() {
    let context = machine();
    let subject = Handle::new(&context, 70);
    let getter = context.make_call_handle(1, b"count");
    let unary = context.make_call_handle(3, b"add(_)");
    let binary = context.make_call_handle(4, b"insert(_,_)");
    let refused = Err(InterpretResultErrorKind::IncorrectNumberOfArgsPassed);
    assert_eq!(context.call(&subject, &getter, vec![num(1.0)]), refused);
    assert_eq!(context.call(&subject, &unary, Vec::<StackValue<Num>>::new()), refused);
    assert_eq!(context.call(&subject, &unary, vec![num(1.0), num(2.0)]), refused);
    assert_eq!(context.call(&subject, &binary, vec![num(1.0), num(2.0), num(3.0)]), refused);
    assert_eq!(context.call(&subject, &binary, vec![num(1.0)]), refused);
}

#[test]
fn the_recorded_count_decides_not_the_signature() {
    let context = machine();
    let subject = Handle::new(&context, 70);
    let odd = CallHandle::new_unchecked(&context, 9, b"add(_)", 2);
    assert_eq!(context.call(&subject, &odd, vec![num(1.0), num(2.0)]).unwrap().slot_count, 3);
    assert_eq!(
        context.call(&subject, &odd, vec![num(1.0)]),
        Err(InterpretResultErrorKind::IncorrectNumberOfArgsPassed)
    );
}
