//! The isolation protocol as a state machine: where an execution stands, what
//! the last operation reported, and what to do next.
use vstd::prelude::*;
use crate::c::{ForkReturn, PipeFds, signal_reading_varies};
use crate::errors::{OsError, MemIsolateError, CallableDidNotExecuteError, CallableStatusUnknownError};
use crate::{
    WaitStep, wait_step, child_verdict, create_pipe, wait_for_child, error_if_child_unhappy,
    read_all_of_child_result_pipe, close_write_end_of_pipe_in_parent,
    close_read_end_of_pipe_in_child_or_exit, write_and_flush_or_exit, exit_happy,
    CHILD_EXIT_HAPPY, CHILD_EXIT_IF_READ_CLOSE_FAILED, CHILD_EXIT_IF_WRITE_FAILED,
};

verus! {

/// Where one isolated execution stands.
#[derive(Debug)]
pub enum Stage {
    /// The pipe is being created.
    Start,
    /// The pipe exists; the process is being forked.
    Piped(PipeFds),
    /// Parent: its copy of the write end is being closed.
    ParentClosingWriteEnd { read_fd: i32, child_pid: i32 },
    /// Parent: reading the child's result to the end of the pipe, before it
    /// waits, so that the child never blocks on a full pipe.
    ParentReading { child_pid: i32 },
    /// Parent: waiting for the child to end, holding what the read gave
    /// (the bytes, or the read's error).
    ParentWaiting { child_pid: i32, read: Result<Vec<u8>, OsError> },
    /// Child: its copy of the read end is being closed.
    ChildClosingReadEnd { write_fd: i32 },
    /// Child: the callable is running and its result being written.
    ChildRunning,
    /// Nothing is left to do.
    Finished,
}

/// What the last operation reported.
#[derive(Debug)]
pub enum Event {
    /// The result of `pipe`.
    PipeCreated(Result<PipeFds, OsError>),
    /// The result of `fork`, as seen by this process.
    Forked(Result<ForkReturn, OsError>),
    /// The result of `close`.
    Closed(Result<(), OsError>),
    /// The result of `waitpid`.
    Waited(Result<i32, OsError>),
    /// Everything read from the pipe, or the read error.
    ReadAll(Result<Vec<u8>, OsError>),
    /// The result of writing (and flushing) the child's encoded result.
    Written(Result<(), OsError>),
}

/// What to do next.
#[derive(Debug)]
pub enum Action {
    /// Create a pipe; report `PipeCreated`.
    CreatePipe,
    /// Fork; report `Forked`.
    Fork,
    /// Close this descriptor; report `Closed`.
    Close(i32),
    /// Wait for this child; report `Waited`.
    Waitpid(i32),
    /// Read this descriptor to the end of the pipe (until the child closed
    /// its write end), then close it; report `ReadAll`.
    ReadToEnd(i32),
    /// Child: run the callable, encode its result, write it to this
    /// descriptor and flush; report `Written`.
    RunCallable(i32),
    /// Child: encode this error, write it to the descriptor, and exit with
    /// the code.
    ReportAndExit(i32, MemIsolateError, i32),
    /// Child: exit with this code.
    Exit(i32),
    /// Parent: decode these bytes; they are the execution's result.
    Deserialize(Vec<u8>),
    /// The execution ends with this error.
    Fail(MemIsolateError),
}

/// The event that the stage waits for.
pub open spec fn fits(stage: Stage, event: Event) -> bool {
    match stage {
        Stage::Start => event is PipeCreated,
        Stage::Piped(_) => event is Forked,
        Stage::ParentClosingWriteEnd { .. } => event is Closed,
        Stage::ParentReading { .. } => event is ReadAll,
        Stage::ParentWaiting { .. } => event is Waited,
        Stage::ChildClosingReadEnd { .. } => event is Closed,
        Stage::ChildRunning => event is Written,
        Stage::Finished => false,
    }
}

/// The stages of the child process.
pub open spec fn is_child_stage(stage: Stage) -> bool {
    stage is ChildClosingReadEnd || stage is ChildRunning
}

/// The protocol: the next stage and action for a stage and the event it
/// waits for.
pub open spec fn transition(stage: Stage, event: Event) -> (Stage, Action) {
    match (stage, event) {
        (Stage::Start, Event::PipeCreated(Ok(fds))) => (Stage::Piped(fds), Action::Fork),
        (Stage::Start, Event::PipeCreated(Err(e))) => (Stage::Finished, Action::Fail(
            MemIsolateError::CallableDidNotExecute(CallableDidNotExecuteError::PipeCreationFailed(e)),
        )),
        (Stage::Piped(_), Event::Forked(Err(e))) => (Stage::Finished, Action::Fail(
            MemIsolateError::CallableDidNotExecute(CallableDidNotExecuteError::ForkFailed(e)),
        )),
        (Stage::Piped(fds), Event::Forked(Ok(ForkReturn::Child))) => (
            Stage::ChildClosingReadEnd { write_fd: fds.write_fd },
            Action::Close(fds.read_fd),
        ),
        (Stage::Piped(fds), Event::Forked(Ok(ForkReturn::Parent(pid)))) => (
            Stage::ParentClosingWriteEnd { read_fd: fds.read_fd, child_pid: pid },
            Action::Close(fds.write_fd),
        ),
        (Stage::ParentClosingWriteEnd { read_fd, child_pid }, Event::Closed(r)) => match r {
            Ok(()) => (Stage::ParentReading { child_pid }, Action::ReadToEnd(read_fd)),
            Err(e) => (Stage::Finished, Action::Fail(MemIsolateError::CallableStatusUnknown(
                CallableStatusUnknownError::ParentPipeCloseFailed(e),
            ))),
        },
        (Stage::ParentReading { child_pid }, Event::ReadAll(read)) => (
            Stage::ParentWaiting { child_pid, read },
            Action::Waitpid(child_pid),
        ),
        (Stage::ParentWaiting { child_pid, read }, Event::Waited(r)) => match wait_step(r) {
            WaitStep::Retry => (Stage::ParentWaiting { child_pid, read }, Action::Waitpid(child_pid)),
            WaitStep::Done(Err(e)) => (Stage::Finished, Action::Fail(e)),
            WaitStep::Done(Ok(status)) => match child_verdict(status) {
                Ok(()) => match read {
                    Err(e) => (Stage::Finished, Action::Fail(MemIsolateError::CallableStatusUnknown(
                        CallableStatusUnknownError::ParentPipeReadFailed(e),
                    ))),
                    Ok(buffer) => if buffer@.len() == 0 {
                        (Stage::Finished, Action::Fail(MemIsolateError::CallableStatusUnknown(
                            CallableStatusUnknownError::CallableProcessDiedDuringExecution,
                        )))
                    } else {
                        (Stage::Finished, Action::Deserialize(buffer))
                    },
                },
                Err(e) => (Stage::Finished, Action::Fail(e)),
            },
        },
        (Stage::ChildClosingReadEnd { write_fd }, Event::Closed(r)) => match r {
            Ok(()) => (Stage::ChildRunning, Action::RunCallable(write_fd)),
            Err(e) => (Stage::Finished, Action::ReportAndExit(
                write_fd,
                MemIsolateError::CallableDidNotExecute(CallableDidNotExecuteError::ChildPipeCloseFailed(Some(e))),
                CHILD_EXIT_IF_READ_CLOSE_FAILED,
            )),
        },
        (Stage::ChildRunning, Event::Written(r)) => match r {
            Ok(()) => (Stage::Finished, Action::Exit(CHILD_EXIT_HAPPY)),
            Err(_) => (Stage::Finished, Action::Exit(CHILD_EXIT_IF_WRITE_FAILED)),
        },
        // A stage with an event it does not wait for is no step of the protocol.
        _ => (Stage::Finished, Action::Fail(MemIsolateError::CallableStatusUnknown(
            CallableStatusUnknownError::CallableProcessDiedDuringExecution,
        ))),
    }
}

/// The parent waits and the child's status is the one that systems read
/// differently (see `signal_reading_varies`).
pub open spec fn reads_varying_status(stage: Stage, event: Event) -> bool {
    &&& stage is ParentWaiting
    &&& event matches Event::Waited(Ok(status)) && signal_reading_varies(status)
}

/// Where the status that systems read differently is not read as a kill:
/// the execution ends with the status reported as unrecognized.
pub open spec fn varying_status_outcome(stage: Stage, event: Event) -> (Stage, Action) {
    match event {
        Event::Waited(Ok(status)) => (Stage::Finished, Action::Fail(MemIsolateError::CallableStatusUnknown(
            CallableStatusUnknownError::UnexpectedWaitpidReturnValue(status),
        ))),
        _ => (Stage::Finished, Action::Exit(CHILD_EXIT_HAPPY)),
    }
}

/// How an execution starts: the pipe is created first.
pub fn begin() -> (r: (Stage, Action))
    ensures
        r == (Stage::Start, Action::CreatePipe),
{
    (Stage::Start, Action::CreatePipe)
}

/// Takes one step of the protocol.
pub fn step(stage: Stage, event: Event) -> (r: (Stage, Action))
    requires
        fits(stage, event),
    ensures
        r == transition(stage, event)
            || (reads_varying_status(stage, event) && r == varying_status_outcome(stage, event)),
{
    match (stage, event) {
        (Stage::Start, Event::PipeCreated(pipe_result)) => match create_pipe(pipe_result) {
            Ok(fds) => (Stage::Piped(fds), Action::Fork),
            Err(e) => (Stage::Finished, Action::Fail(e)),
        },
        (Stage::Piped(fds), Event::Forked(fork_result)) => match fork_result {
            Err(err) => (Stage::Finished, Action::Fail(
                MemIsolateError::CallableDidNotExecute(CallableDidNotExecuteError::ForkFailed(err)),
            )),
            Ok(ForkReturn::Child) => (
                Stage::ChildClosingReadEnd { write_fd: fds.write_fd },
                Action::Close(fds.read_fd),
            ),
            Ok(ForkReturn::Parent(child_pid)) => (
                Stage::ParentClosingWriteEnd { read_fd: fds.read_fd, child_pid },
                Action::Close(fds.write_fd),
            ),
        },
        (Stage::ParentClosingWriteEnd { read_fd, child_pid }, Event::Closed(close_result)) => {
            match close_write_end_of_pipe_in_parent(close_result) {
                Ok(()) => (Stage::ParentReading { child_pid }, Action::ReadToEnd(read_fd)),
                Err(e) => (Stage::Finished, Action::Fail(e)),
            }
        },
        (Stage::ParentReading { child_pid }, Event::ReadAll(read)) => (
            Stage::ParentWaiting { child_pid, read },
            Action::Waitpid(child_pid),
        ),
        (Stage::ParentWaiting { child_pid, read }, Event::Waited(waitpid_result)) => {
            match wait_for_child(waitpid_result) {
                WaitStep::Retry => (Stage::ParentWaiting { child_pid, read }, Action::Waitpid(child_pid)),
                WaitStep::Done(Err(e)) => (Stage::Finished, Action::Fail(e)),
                WaitStep::Done(Ok(status)) => match error_if_child_unhappy(status) {
                    Ok(()) => match read_all_of_child_result_pipe(read) {
                        Ok(buffer) => (Stage::Finished, Action::Deserialize(buffer)),
                        Err(e) => (Stage::Finished, Action::Fail(e)),
                    },
                    Err(e) => (Stage::Finished, Action::Fail(e)),
                },
            }
        },
        (Stage::ChildClosingReadEnd { write_fd }, Event::Closed(close_result)) => {
            match close_read_end_of_pipe_in_child_or_exit(close_result) {
                Ok(()) => (Stage::ChildRunning, Action::RunCallable(write_fd)),
                Err((e, code)) => (Stage::Finished, Action::ReportAndExit(write_fd, e, code)),
            }
        },
        (Stage::ChildRunning, Event::Written(write_result)) => match write_and_flush_or_exit(write_result) {
            Some(code) => (Stage::Finished, Action::Exit(code)),
            None => (Stage::Finished, Action::Exit(exit_happy())),
        },
        (_, _) => {
            proof {
                assert(false);
            }
            (Stage::Finished, Action::Exit(CHILD_EXIT_HAPPY))
        },
    }
}

} // verus!
