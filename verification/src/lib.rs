//! Runs a function in a forked child process, so that whatever it does to
//! memory cannot affect the calling process, and hands its result back.
//!
//! One isolated execution is a protocol between two processes that share a
//! pipe. The parent creates the pipe and forks; the child closes its read end,
//! runs the callable, writes the serialized result and exits with a code that
//! tells the parent how far it got; the parent closes its write end, reads the
//! pipe to its end (so that a result larger than the pipe never blocks the
//! child), waits for the child and reads its exit status, and only after a
//! happy exit deserializes what it read.
//!
//! This crate holds the decisions of that protocol: [`step`] takes where an
//! execution stands and what the last operation reported, and says what to do
//! next. The operations themselves (system calls, running the callable,
//! (de)serialization) are made by whoever drives the steps.
use vstd::prelude::*;

pub mod errors;
pub mod c;
pub mod protocol;
pub mod laws;

use crate::c::{
    ForkReturn, PipeFds, SystemFunctionsImpl, RealSystemFunctions, WaitpidStatus,
    child_process_exited_on_its_own, child_process_killed_by_signal, errno_eintr, is_eintr,
    exited_on_its_own, killed_by_signal, signal_reading_varies,
};
use crate::errors::{
    OsError, MemIsolateError, CallableDidNotExecuteError, CallableExecutedError,
    CallableStatusUnknownError,
};

verus! {

/// The child exits with this code when all went well.
pub const CHILD_EXIT_HAPPY: i32 = 0;

/// The child exits with this code when it could not close its read end.
pub const CHILD_EXIT_IF_READ_CLOSE_FAILED: i32 = 3;

/// The child exits with this code when it could not write its result.
pub const CHILD_EXIT_IF_WRITE_FAILED: i32 = 4;

/// The system functions an execution uses: the real ones.
pub fn get_system_functions() -> (sys: SystemFunctionsImpl)
    ensures
        sys is Real,
{
    SystemFunctionsImpl::Real(RealSystemFunctions)
}

/// Runs the user-supplied callable once and hands back what it returned.
pub fn execute_callable<F, T>(callable: F) -> (result: T)
    where
        F: FnOnce() -> T,
    requires
        callable.requires(()),
    ensures
        callable.ensures((), result),
{
    callable()
}

/// The pipe, or the error for a pipe that could not be created: the callable
/// has not run.
pub fn create_pipe(pipe_result: Result<PipeFds, OsError>) -> (r: Result<PipeFds, MemIsolateError>)
    ensures
        r == match pipe_result {
            Ok(fds) => Ok(fds),
            Err(e) => Err(MemIsolateError::CallableDidNotExecute(
                CallableDidNotExecuteError::PipeCreationFailed(e),
            )),
        },
{
    match pipe_result {
        Ok(pipe_fds) => Ok(pipe_fds),
        Err(err) => Err(MemIsolateError::CallableDidNotExecute(
            CallableDidNotExecuteError::PipeCreationFailed(err),
        )),
    }
}

/// What a `waitpid` result means for the wait.
#[derive(Debug)]
pub enum WaitStep {
    /// The wait was interrupted by a signal: wait again.
    Retry,
    /// The wait is over, with the child's status or an error.
    Done(Result<WaitpidStatus, MemIsolateError>),
}

/// The wait's outcome: an interrupted `waitpid` (`EINTR`) is retried, any
/// other failure leaves the callable's status unknown.
pub open spec fn wait_step(waitpid_result: Result<i32, OsError>) -> WaitStep {
    match waitpid_result {
        Ok(status) => WaitStep::Done(Ok(status)),
        Err(e) => if is_eintr(e.code) {
            WaitStep::Retry
        } else {
            WaitStep::Done(Err(MemIsolateError::CallableStatusUnknown(
                CallableStatusUnknownError::WaitFailed(e),
            )))
        },
    }
}

/// Reads what `waitpid` reported for the child.
pub fn wait_for_child(waitpid_result: Result<i32, OsError>) -> (r: WaitStep)
    ensures
        r == wait_step(waitpid_result),
{
    match waitpid_result {
        Ok(status) => WaitStep::Done(Ok(status)),
        Err(wait_err) => {
            if wait_err.code == errno_eintr() {
                WaitStep::Retry
            } else {
                WaitStep::Done(Err(MemIsolateError::CallableStatusUnknown(
                    CallableStatusUnknownError::WaitFailed(wait_err),
                )))
            }
        },
    }
}

/// What the child's `waitpid` status means: an exit with the happy code is
/// success, the two other codes the child uses name the step at which it
/// failed, and anything else leaves the callable's status unknown.
pub open spec fn child_verdict(status: i32) -> Result<(), MemIsolateError> {
    match exited_on_its_own(status) {
        Some(code) => if code == CHILD_EXIT_HAPPY {
            Ok(())
        } else if code == CHILD_EXIT_IF_READ_CLOSE_FAILED {
            Err(MemIsolateError::CallableDidNotExecute(
                CallableDidNotExecuteError::ChildPipeCloseFailed(None),
            ))
        } else if code == CHILD_EXIT_IF_WRITE_FAILED {
            Err(MemIsolateError::CallableExecuted(
                CallableExecutedError::ChildPipeWriteFailed(None),
            ))
        } else {
            Err(MemIsolateError::CallableStatusUnknown(
                CallableStatusUnknownError::UnexpectedChildExitStatus(code),
            ))
        },
        None => match killed_by_signal(status) {
            Some(signal) => Err(MemIsolateError::CallableStatusUnknown(
                CallableStatusUnknownError::ChildProcessKilledBySignal(signal),
            )),
            None => Err(MemIsolateError::CallableStatusUnknown(
                CallableStatusUnknownError::UnexpectedWaitpidReturnValue(status),
            )),
        },
    }
}

/// The error for a status that is neither an exit nor a kill.
pub open spec fn unrecognized_status(status: i32) -> Result<(), MemIsolateError> {
    Err(MemIsolateError::CallableStatusUnknown(
        CallableStatusUnknownError::UnexpectedWaitpidReturnValue(status),
    ))
}

/// Turns the child's `waitpid` status into success or the matching error.
/// The status that systems read differently (see `signal_reading_varies`)
/// may also be reported as unrecognized.
pub fn error_if_child_unhappy(waitpid_bespoke_status: WaitpidStatus) -> (r: Result<(), MemIsolateError>)
    ensures
        r == child_verdict(waitpid_bespoke_status)
            || (signal_reading_varies(waitpid_bespoke_status) && r == unrecognized_status(waitpid_bespoke_status)),
{
    if let Some(exit_status) = child_process_exited_on_its_own(waitpid_bespoke_status) {
        if exit_status == CHILD_EXIT_HAPPY {
            Ok(())
        } else if exit_status == CHILD_EXIT_IF_READ_CLOSE_FAILED {
            Err(MemIsolateError::CallableDidNotExecute(
                CallableDidNotExecuteError::ChildPipeCloseFailed(None),
            ))
        } else if exit_status == CHILD_EXIT_IF_WRITE_FAILED {
            Err(MemIsolateError::CallableExecuted(
                CallableExecutedError::ChildPipeWriteFailed(None),
            ))
        } else {
            Err(MemIsolateError::CallableStatusUnknown(
                CallableStatusUnknownError::UnexpectedChildExitStatus(exit_status),
            ))
        }
    } else if let Some(signal) = child_process_killed_by_signal(waitpid_bespoke_status) {
        Err(MemIsolateError::CallableStatusUnknown(
            CallableStatusUnknownError::ChildProcessKilledBySignal(signal),
        ))
    } else {
        Err(MemIsolateError::CallableStatusUnknown(
            CallableStatusUnknownError::UnexpectedWaitpidReturnValue(waitpid_bespoke_status),
        ))
    }
}

/// What the parent hands back once the child's bytes were decoded:
/// `decoded` is the decoded `Result` the child sent, or the decoder's message.
pub open spec fn deserialized<T>(decoded: Result<Result<T, MemIsolateError>, String>) -> Result<T, MemIsolateError> {
    match decoded {
        Ok(Ok(value)) => Ok(value),
        Ok(Err(err)) => Err(err),
        Err(msg) => Err(MemIsolateError::CallableExecuted(
            CallableExecutedError::DeserializationFailed(msg),
        )),
    }
}

/// Hands back the child's result once its bytes were decoded; a decoding
/// failure means the callable ran but its result is lost.
pub fn deserialize_result<T>(decoded: Result<Result<T, MemIsolateError>, String>) -> (r: Result<T, MemIsolateError>)
    ensures
        r == deserialized(decoded),
{
    match decoded {
        Ok(Ok(result)) => Ok(result),
        Ok(Err(err)) => Err(err),
        Err(err) => Err(MemIsolateError::CallableExecuted(
            CallableExecutedError::DeserializationFailed(err),
        )),
    }
}

/// What the child sends: `encoded` is the encoding of the callable's value
/// wrapped in `Ok`, or the encoder's message. When the value could not be
/// encoded, the child sends the error that says so instead (returned here as
/// `Err`, to be encoded wrapped in `Err`).
pub fn serialize_result_or_error_value(encoded: Result<Vec<u8>, String>) -> (r: Result<Vec<u8>, MemIsolateError>)
    ensures
        r == match encoded {
            Ok(bytes) => Ok(bytes),
            Err(msg) => Err(MemIsolateError::CallableExecuted(
                CallableExecutedError::SerializationFailed(msg),
            )),
        },
{
    match encoded {
        Ok(bytes) => Ok(bytes),
        Err(err) => Err(MemIsolateError::CallableExecuted(
            CallableExecutedError::SerializationFailed(err),
        )),
    }
}

/// The child's reaction to writing its result: `Some` exit code when the
/// write (or flush) failed, `None` when it succeeded.
pub fn write_and_flush_or_exit(write_result: Result<(), OsError>) -> (exit_code: Option<i32>)
    ensures
        exit_code == match write_result {
            Ok(()) => None,
            Err(_) => Some(CHILD_EXIT_IF_WRITE_FAILED),
        },
{
    match write_result {
        Ok(()) => None,
        Err(_) => Some(CHILD_EXIT_IF_WRITE_FAILED),
    }
}

/// The code the child exits with after it sent its result.
pub fn exit_happy() -> (exit_code: i32)
    ensures
        exit_code == CHILD_EXIT_HAPPY,
{
    CHILD_EXIT_HAPPY
}

/// The child's result as read from the pipe: a read error, or no bytes at
/// all (the child died before it wrote anything), leave the callable's
/// status unknown.
pub fn read_all_of_child_result_pipe(read_result: Result<Vec<u8>, OsError>) -> (r: Result<Vec<u8>, MemIsolateError>)
    ensures
        r == match read_result {
            Ok(buffer) => if buffer@.len() == 0 {
                Err(MemIsolateError::CallableStatusUnknown(
                    CallableStatusUnknownError::CallableProcessDiedDuringExecution,
                ))
            } else {
                Ok(buffer)
            },
            Err(e) => Err(MemIsolateError::CallableStatusUnknown(
                CallableStatusUnknownError::ParentPipeReadFailed(e),
            )),
        },
{
    match read_result {
        Err(err) => Err(MemIsolateError::CallableStatusUnknown(
            CallableStatusUnknownError::ParentPipeReadFailed(err),
        )),
        Ok(buffer) => {
            if buffer.len() == 0 {
                Err(MemIsolateError::CallableStatusUnknown(
                    CallableStatusUnknownError::CallableProcessDiedDuringExecution,
                ))
            } else {
                Ok(buffer)
            }
        },
    }
}

/// The parent's reaction to closing its write end.
pub fn close_write_end_of_pipe_in_parent(close_result: Result<(), OsError>) -> (r: Result<(), MemIsolateError>)
    ensures
        r == match close_result {
            Ok(()) => Ok(()),
            Err(e) => Err(MemIsolateError::CallableStatusUnknown(
                CallableStatusUnknownError::ParentPipeCloseFailed(e),
            )),
        },
{
    match close_result {
        Ok(()) => Ok(()),
        Err(err) => Err(MemIsolateError::CallableStatusUnknown(
            CallableStatusUnknownError::ParentPipeCloseFailed(err),
        )),
    }
}

/// The child's reaction to closing its read end: on failure, the error to
/// report through the pipe and the code to exit with.
pub fn close_read_end_of_pipe_in_child_or_exit(close_result: Result<(), OsError>) -> (r: Result<(), (MemIsolateError, i32)>)
    ensures
        r == match close_result {
            Ok(()) => Ok(()),
            Err(e) => Err((
                MemIsolateError::CallableDidNotExecute(
                    CallableDidNotExecuteError::ChildPipeCloseFailed(Some(e)),
                ),
                CHILD_EXIT_IF_READ_CLOSE_FAILED,
            )),
        },
{
    match close_result {
        Ok(()) => Ok(()),
        Err(close_err) => Err((
            MemIsolateError::CallableDidNotExecute(
                CallableDidNotExecuteError::ChildPipeCloseFailed(Some(close_err)),
            ),
            CHILD_EXIT_IF_READ_CLOSE_FAILED,
        )),
    }
}

} // verus!
