use wren_bridge::error::{
    ErrorKind, InterpretResultErrorKind, WREN_ERROR_COMPILE, WREN_ERROR_RUNTIME,
    WREN_ERROR_STACK_TRACE, WREN_RESULT_COMPILE_ERROR, WREN_RESULT_RUNTIME_ERROR,
    WREN_RESULT_SUCCESS,
};

#[test]
fn result_codes_are_the_machines() {
    assert_eq!(WREN_RESULT_SUCCESS, 0);
    assert_eq!(WREN_RESULT_COMPILE_ERROR, 1);
    assert_eq!(WREN_RESULT_RUNTIME_ERROR, 2);
    assert_eq!(WREN_ERROR_COMPILE, 0);
    assert_eq!(WREN_ERROR_RUNTIME, 1);
    assert_eq!(WREN_ERROR_STACK_TRACE, 2);
}

#[test]
fn success_is_ok() {
    assert_eq!(InterpretResultErrorKind::new_from_result(0), Ok(()));
}

#[test]
fn compile_error_is_compile() {
    assert_eq!(
        InterpretResultErrorKind::new_from_result(1),
        Err(InterpretResultErrorKind::Compile)
    );
}

#[test]
fn runtime_error_is_runtime() {
    assert_eq!(
        InterpretResultErrorKind::new_from_result(2),
        Err(InterpretResultErrorKind::Runtime)
    );
}

#[test]
fn other_codes_are_unknown_and_kept() {
    assert_eq!(
        InterpretResultErrorKind::new_from_result(3),
        Err(InterpretResultErrorKind::Unknown(3))
    );
    assert_eq!(
        InterpretResultErrorKind::new_from_result(u32::MAX),
        Err(InterpretResultErrorKind::Unknown(u32::MAX))
    );
}

#[test]
fn compile_report_carries_its_context() {
    match ErrorKind::new(WREN_ERROR_COMPILE, "main", 12, "Expect expression.") {
        ErrorKind::Compile(context) => {
            assert_eq!(context.module, "main");
            assert_eq!(context.line, 12);
            assert_eq!(context.msg, "Expect expression.");
        }
        other => panic!("not a compile error: {:?}", other),
    }
}

#[test]
fn runtime_report_carries_only_its_message() {
    match ErrorKind::new(WREN_ERROR_RUNTIME, "ignored", -1, "Null does not implement 'foo'.") {
        ErrorKind::Runtime(msg) => assert_eq!(msg, "Null does not implement 'foo'."),
        other => panic!("not a runtime error: {:?}", other),
    }
}

#[test]
fn stack_trace_report_carries_its_context() {
    match ErrorKind::new(WREN_ERROR_STACK_TRACE, "main", 3, "(script)") {
        ErrorKind::Stacktrace(context) => {
            assert_eq!(context.module, "main");
            assert_eq!(context.line, 3);
            assert_eq!(context.msg, "(script)");
        }
        other => panic!("not a stack trace: {:?}", other),
    }
}

#[test]
fn unknown_report_keeps_its_code_and_context() {
    match ErrorKind::new(9, "main", 3, "what") {
        ErrorKind::Unknown(code, context) => {
            assert_eq!(code, 9);
            assert_eq!(context.module, "main");
            assert_eq!(context.line, 3);
            assert_eq!(context.msg, "what");
        }
        other => panic!("not an unknown report: {:?}", other),
    }
}

#[test]
fn only_runtime_reports_name_no_module() {
    assert!(ErrorKind::names_module(WREN_ERROR_COMPILE));
    assert!(!ErrorKind::names_module(WREN_ERROR_RUNTIME));
    assert!(ErrorKind::names_module(WREN_ERROR_STACK_TRACE));
    assert!(ErrorKind::names_module(17));
}
