use wren_bridge::context::{Context, Foreign, Native, NoTypeInfo};
use wren_bridge::handle::{
    check_terminated, count_arguments, find_nul, CallHandle, Handle, Released, SignatureError,
};

fn machine() -> Context<NoTypeInfo, Native> {
    Context::new(0x1000).expect("the address is not null")
}

#[test]
fn test_new_from_slice() {
    let context = machine();

    assert!(
        CallHandle::new_from_slice(&context, 1, b"Te_st_\0")
            .unwrap()
            .get_argument_count()
            == 0
    );
    assert!(
        CallHandle::new_from_slice(&context, 2, b"Te_st()\0")
            .unwrap()
            .get_argument_count()
            == 0
    );
    assert!(
        CallHandle::new_from_slice(&context, 3, b"Te_st(_)\0")
            .unwrap()
            .get_argument_count()
            == 1
    );
    assert!(
        CallHandle::new_from_slice(&context, 4, b"Test_(_,_)\0")
            .unwrap()
            .get_argument_count()
            == 2
    );
    assert!(
        CallHandle::new_from_slice(&context, 5, b"Test(_,_,_)\0")
            .unwrap()
            .get_argument_count()
            == 3
    );
}

#[test]
fn new_from_slice_keeps_the_reference_and_the_machine() {
    let context = machine();
    let call = CallHandle::new_from_slice(&context, 77, b"call(_)\0").unwrap();
    assert_eq!(call.as_ptr(), 77);
    assert_eq!(call.release(), Released { vm: 0x1000, pointer: 77 });
}

#[test]
fn new_from_slice_refuses_a_slice_without_terminator() {
    let context = machine();
    assert_eq!(
        CallHandle::new_from_slice(&context, 1, b"Test(_)").unwrap_err(),
        SignatureError::NotNulTerminated
    );
    assert_eq!(
        CallHandle::new_from_slice(&context, 1, b"").unwrap_err(),
        SignatureError::NotNulTerminated
    );
}

#[test]
fn new_from_slice_refuses_an_interior_nul() {
    let context = machine();
    assert_eq!(
        CallHandle::new_from_slice(&context, 1, b"Te\0st(_)\0").unwrap_err(),
        SignatureError::InteriorNul(2)
    );
    assert_eq!(
        CallHandle::new_from_slice(&context, 1, b"\0\0").unwrap_err(),
        SignatureError::InteriorNul(0)
    );
    assert_eq!(
        CallHandle::new_from_slice(&context, 1, b"Test\0(_)").unwrap_err(),
        SignatureError::InteriorNul(4)
    );
}

#[test]
fn new_from_slice_takes_the_empty_signature() {
    let context = machine();
    let call = CallHandle::new_from_slice(&context, 9, b"\0").unwrap();
    assert_eq!(call.get_argument_count(), 0);
}

#[test]
fn check_terminated_gives_the_length_before_the_terminator() {
    assert_eq!(check_terminated(b"abc\0"), Ok(3));
    assert_eq!(check_terminated(b"\0"), Ok(0));
    assert_eq!(check_terminated(b"abc"), Err(SignatureError::NotNulTerminated));
    assert_eq!(check_terminated(b"a\0c\0"), Err(SignatureError::InteriorNul(1)));
}

#[test]
fn find_nul_gives_the_first_position_or_the_length() {
    assert_eq!(find_nul(b""), 0);
    assert_eq!(find_nul(b"abc"), 3);
    assert_eq!(find_nul(b"ab\0c\0"), 2);
    assert_eq!(find_nul(b"\0"), 0);
}

#[test]
fn count_arguments_counts_placeholders_after_the_first_parenthesis() {
    assert_eq!(count_arguments(b""), 0);
    assert_eq!(count_arguments(b"getter"), 0);
    assert_eq!(count_arguments(b"get_ter_"), 0);
    assert_eq!(count_arguments(b"call()"), 0);
    assert_eq!(count_arguments(b"call(_)"), 1);
    assert_eq!(count_arguments(b"ca_ll_(_,_)"), 2);
    assert_eq!(count_arguments(b"[_,_]=(_)"), 1);
    assert_eq!(count_arguments(b"(_)(_)"), 2);
    assert_eq!(count_arguments(b"(____"), 4);
    assert_eq!(count_arguments(b"_(_"), 1);
    assert_eq!(count_arguments(b"call(_,_,_,_,_,_,_,_,_,_,_,_,_,_,_,_)"), 16);
}

#[test]
fn new_from_signature_records_the_counted_arity() {
    let context = machine();
    let call = CallHandle::new_from_signature(&context, 5, b"resume_(_,_)");
    assert_eq!(call.get_argument_count(), 2);
    assert_eq!(call.as_ptr(), 5);
}

#[test]
fn new_unchecked_records_the_count_it_is_given() {
    let context = machine();
    let call = CallHandle::new_unchecked(&context, 5, b"resume_(_,_)", 7);
    assert_eq!(call.get_argument_count(), 7);
}

#[test]
fn context_makes_the_same_call_handles() {
    let context = machine();
    let call = context.make_call_handle(5, b"add(_,_)");
    assert_eq!(call.get_argument_count(), 2);
    assert_eq!(call.release(), Released { vm: 0x1000, pointer: 5 });
    let call = context.make_call_handle_slice(6, b"add(_)\0").unwrap();
    assert_eq!(call.get_argument_count(), 1);
    assert_eq!(
        context.make_call_handle_slice(6, b"add(_)").unwrap_err(),
        SignatureError::NotNulTerminated
    );
}

#[test]
fn handle_holds_its_reference_until_release() {
    let context = machine();
    let handle = Handle::new(&context, 42);
    assert_eq!(handle.as_ptr(), 42);
    assert_eq!(handle.release(), Released { vm: 0x1000, pointer: 42 });
}

#[test]
fn handles_are_equal_by_reference() {
    let context = machine();
    let a = Handle::new(&context, 42);
    let b = Handle::new(&context, 42);
    let c = Handle::new(&context, 43);
    assert!(a == b);
    assert!(a != c);
}

#[test]
fn context_is_never_null() {
    assert!(Context::<NoTypeInfo, Native>::new(0).is_none());
    let context = Context::<NoTypeInfo, Native>::new(8).unwrap();
    assert_eq!(context.as_ptr(), 8);
    assert_eq!(Context::<NoTypeInfo, Foreign>::new_unchecked(16).as_ptr(), 16);
}

#[test]
fn context_views_keep_the_machine() {
    let context = Context::<u32, Native>::new(24).unwrap();
    assert_eq!(context.as_foreign().as_ptr(), 24);
    assert_eq!(context.as_raw().as_ptr(), 24);
    assert_eq!(context.as_raw().as_foreign().as_ptr(), 24);
}
