//! What the virtual machine reports when something goes wrong.
//!
//! The machine answers every entry with a result code, and hands every
//! compile error, runtime error and line of a stack trace to the host's
//! error callback with a type code. Both codes are plain numbers; this
//! module says what each of them means.

use vstd::prelude::*;

verus! {

/// The result code for source that compiled and ran.
pub const WREN_RESULT_SUCCESS: u32 = 0;

/// The result code for source that did not compile.
pub const WREN_RESULT_COMPILE_ERROR: u32 = 1;

/// The result code for a fiber that was aborted by a runtime error.
pub const WREN_RESULT_RUNTIME_ERROR: u32 = 2;

/// The type code of a compile error.
pub const WREN_ERROR_COMPILE: u32 = 0;

/// The type code of the message of a runtime error.
pub const WREN_ERROR_RUNTIME: u32 = 1;

/// The type code of one line of the stack trace that follows a runtime
/// error.
pub const WREN_ERROR_STACK_TRACE: u32 = 2;

/// Why an entry into the machine did not succeed.
#[derive(Debug, Clone, Copy, PartialEq, Eq, Structural)]
pub enum InterpretResultErrorKind {
    /// The source did not compile.
    Compile,
    /// The fiber was aborted by a runtime error.
    Runtime,
    /// The machine answered with a result code that is none of the known
    /// ones.
    Unknown(u32),
    /// The call was never made: it passes another number of arguments than
    /// its method takes.
    IncorrectNumberOfArgsPassed,
}

impl InterpretResultErrorKind {
    /// Reads a result code of the machine.
    pub fn new_from_result(result: u32) -> (r: Result<(), InterpretResultErrorKind>)
        ensures
            r is Ok <==> result == WREN_RESULT_SUCCESS,
            result == WREN_RESULT_COMPILE_ERROR ==> r == Err::<(), InterpretResultErrorKind>(
                InterpretResultErrorKind::Compile,
            ),
            result == WREN_RESULT_RUNTIME_ERROR ==> r == Err::<(), InterpretResultErrorKind>(
                InterpretResultErrorKind::Runtime,
            ),
            result > WREN_RESULT_RUNTIME_ERROR ==> r == Err::<(), InterpretResultErrorKind>(
                InterpretResultErrorKind::Unknown(result),
            ),
    {
        if result == WREN_RESULT_COMPILE_ERROR {
            Err(InterpretResultErrorKind::Compile)
        } else if result == WREN_RESULT_RUNTIME_ERROR {
            Err(InterpretResultErrorKind::Runtime)
        } else if result == WREN_RESULT_SUCCESS {
            Ok(())
        } else {
            Err(InterpretResultErrorKind::Unknown(result))
        }
    }
}

/// Where in the source an error was found.
#[derive(Debug, Clone, Copy)]
pub struct ErrorContext<'s> {
    pub module: &'s str,
    pub line: i32,
    pub msg: &'s str,
}

/// One report to the host's error callback.
#[derive(Debug, Clone, Copy)]
pub enum ErrorKind<'s> {
    /// The source did not compile.
    Compile(ErrorContext<'s>),
    /// A fiber was aborted with this message.
    Runtime(&'s str),
    /// One frame of the stack trace of the runtime error reported before.
    Stacktrace(ErrorContext<'s>),
    /// A report with a type code that is none of the known ones.
    Unknown(u32, ErrorContext<'s>),
}

impl<'s> ErrorKind<'s> {
    /// Whether a report with this type code names a module and a line. The
    /// message of a runtime error does not, and the host must not read them
    /// from such a report.
    pub fn names_module(error_type: u32) -> (named: bool)
        ensures
            named <==> error_type != WREN_ERROR_RUNTIME,
    {
        error_type != WREN_ERROR_RUNTIME
    }

    /// Reads a report of the machine. `module` and `line` are left out of
    /// the message of a runtime error.
    pub fn new(error_type: u32, module: &'s str, line: i32, msg: &'s str) -> (kind: ErrorKind<'s>)
        ensures
            error_type == WREN_ERROR_COMPILE ==> kind == ErrorKind::Compile(
                (ErrorContext { module, line, msg }),
            ),
            error_type == WREN_ERROR_RUNTIME ==> kind == ErrorKind::Runtime(msg),
            error_type == WREN_ERROR_STACK_TRACE ==> kind == ErrorKind::Stacktrace(
                (ErrorContext { module, line, msg }),
            ),
            error_type > WREN_ERROR_STACK_TRACE ==> kind == ErrorKind::Unknown(
                error_type,
                (ErrorContext { module, line, msg }),
            ),
    {
        if error_type == WREN_ERROR_RUNTIME {
            ErrorKind::Runtime(msg)
        } else {
            let context = ErrorContext { module, line, msg };
            if error_type == WREN_ERROR_COMPILE {
                ErrorKind::Compile(context)
            } else if error_type == WREN_ERROR_STACK_TRACE {
                ErrorKind::Stacktrace(context)
            } else {
                ErrorKind::Unknown(error_type, context)
            }
        }
    }
}

} // verus!
