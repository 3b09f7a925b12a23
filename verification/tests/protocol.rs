use mem_isolate::c::{ForkReturn, PipeFds};
use mem_isolate::errors::{
    CallableDidNotExecuteError, CallableExecutedError, CallableStatusUnknownError,
    MemIsolateError, OsError,
};
use mem_isolate::protocol::{begin, step, Action, Event, Stage};

fn exit_status(code: i32) -> i32 {
    code << 8
}

const FDS: PipeFds = PipeFds { read_fd: 10, write_fd: 11 };

#[test]
fn parent_run_that_succeeds() {
    let (stage, action) = begin();
    assert!(matches!(action, Action::CreatePipe));
    let (stage, action) = step(stage, Event::PipeCreated(Ok(FDS)));
    assert!(matches!(action, Action::Fork));
    let (stage, action) = step(stage, Event::Forked(Ok(ForkReturn::Parent(99))));
    assert!(matches!(action, Action::Close(11)));
    // the pipe is read before the parent waits
    let (stage, action) = step(stage, Event::Closed(Ok(())));
    assert!(matches!(action, Action::ReadToEnd(10)));
    let (stage, action) = step(stage, Event::ReadAll(Ok(vec![0, 0, 0, 0, 42])));
    assert!(matches!(action, Action::Waitpid(99)));
    // three interrupted waits, then the real one
    let mut stage = stage;
    for _ in 0..3 {
        let (next, action) = step(stage, Event::Waited(Err(OsError::from_raw_os_error(libc::EINTR))));
        assert!(matches!(action, Action::Waitpid(99)));
        stage = next;
    }
    let (stage, action) = step(stage, Event::Waited(Ok(exit_status(0))));
    assert!(matches!(action, Action::Deserialize(ref b) if b == &vec![0, 0, 0, 0, 42]));
    assert!(matches!(stage, Stage::Finished));
}

#[test]
fn large_result_is_read_before_waiting() {
    let big = vec![7u8; 1_000_000];
    let (stage, action) = step(
        Stage::ParentClosingWriteEnd { read_fd: 10, child_pid: 99 },
        Event::Closed(Ok(())),
    );
    assert!(matches!(action, Action::ReadToEnd(10)));
    let (stage, action) = step(stage, Event::ReadAll(Ok(big.clone())));
    assert!(matches!(action, Action::Waitpid(99)));
    let (_, action) = step(stage, Event::Waited(Ok(exit_status(0))));
    assert!(matches!(action, Action::Deserialize(ref b) if b == &big));
}

#[test]
fn child_run_that_succeeds() {
    let (stage, _) = begin();
    let (stage, _) = step(stage, Event::PipeCreated(Ok(FDS)));
    let (stage, action) = step(stage, Event::Forked(Ok(ForkReturn::Child)));
    assert!(matches!(action, Action::Close(10)));
    let (stage, action) = step(stage, Event::Closed(Ok(())));
    assert!(matches!(action, Action::RunCallable(11)));
    let (stage, action) = step(stage, Event::Written(Ok(())));
    assert!(matches!(action, Action::Exit(0)));
    assert!(matches!(stage, Stage::Finished));
}

#[test]
fn child_failures_exit_with_their_codes() {
    let (stage, action) = step(
        Stage::ChildClosingReadEnd { write_fd: 11 },
        Event::Closed(Err(OsError::from_raw_os_error(libc::EBADF))),
    );
    assert!(matches!(stage, Stage::Finished));
    assert!(matches!(
        action,
        Action::ReportAndExit(
            11,
            MemIsolateError::CallableDidNotExecute(CallableDidNotExecuteError::ChildPipeCloseFailed(Some(e))),
            3
        ) if e.code == libc::EBADF
    ));
    let (_, action) = step(Stage::ChildRunning, Event::Written(Err(OsError::from_raw_os_error(libc::EPIPE))));
    assert!(matches!(action, Action::Exit(4)));
}

#[test]
fn failures_before_fork_did_not_execute() {
    let (_, action) = step(Stage::Start, Event::PipeCreated(Err(OsError::from_raw_os_error(libc::ENFILE))));
    assert!(matches!(
        action,
        Action::Fail(MemIsolateError::CallableDidNotExecute(CallableDidNotExecuteError::PipeCreationFailed(e)))
            if e.code == libc::ENFILE
    ));
    let (_, action) = step(Stage::Piped(FDS), Event::Forked(Err(OsError::from_raw_os_error(libc::EAGAIN))));
    assert!(matches!(
        action,
        Action::Fail(MemIsolateError::CallableDidNotExecute(CallableDidNotExecuteError::ForkFailed(e)))
            if e.code == libc::EAGAIN
    ));
}

#[test]
fn parent_failures_after_fork() {
    let (_, action) = step(
        Stage::ParentClosingWriteEnd { read_fd: 10, child_pid: 99 },
        Event::Closed(Err(OsError::from_raw_os_error(libc::EIO))),
    );
    assert!(matches!(
        action,
        Action::Fail(MemIsolateError::CallableStatusUnknown(CallableStatusUnknownError::ParentPipeCloseFailed(e)))
            if e.code == libc::EIO
    ));
    // a failed read still waits for the child; the child's status comes first
    let read_failed = || Stage::ParentWaiting {
        child_pid: 99,
        read: Err(OsError::from_raw_os_error(libc::EBADF)),
    };
    let (stage, action) = step(
        Stage::ParentReading { child_pid: 99 },
        Event::ReadAll(Err(OsError::from_raw_os_error(libc::EBADF))),
    );
    assert!(matches!(action, Action::Waitpid(99)));
    assert!(matches!(stage, Stage::ParentWaiting { child_pid: 99, read: Err(e) } if e.code == libc::EBADF));
    let (_, action) = step(read_failed(), Event::Waited(Ok(exit_status(0))));
    assert!(matches!(
        action,
        Action::Fail(MemIsolateError::CallableStatusUnknown(CallableStatusUnknownError::ParentPipeReadFailed(e)))
            if e.code == libc::EBADF
    ));
    let (_, action) = step(read_failed(), Event::Waited(Ok(exit_status(4))));
    assert!(matches!(
        action,
        Action::Fail(MemIsolateError::CallableExecuted(CallableExecutedError::ChildPipeWriteFailed(None)))
    ));
    let waiting = || Stage::ParentWaiting { child_pid: 99, read: Ok(vec![1]) };
    let (_, action) = step(waiting(), Event::Waited(Err(OsError::from_raw_os_error(libc::ECHILD))));
    assert!(matches!(
        action,
        Action::Fail(MemIsolateError::CallableStatusUnknown(CallableStatusUnknownError::WaitFailed(_)))
    ));
    let (_, action) = step(waiting(), Event::Waited(Ok(exit_status(3))));
    assert!(matches!(
        action,
        Action::Fail(MemIsolateError::CallableDidNotExecute(CallableDidNotExecuteError::ChildPipeCloseFailed(None)))
    ));
    let (_, action) = step(waiting(), Event::Waited(Ok(exit_status(4))));
    assert!(matches!(
        action,
        Action::Fail(MemIsolateError::CallableExecuted(CallableExecutedError::ChildPipeWriteFailed(None)))
    ));
    let (_, action) = step(waiting(), Event::Waited(Ok(libc::SIGTERM)));
    assert!(matches!(
        action,
        Action::Fail(MemIsolateError::CallableStatusUnknown(
            CallableStatusUnknownError::ChildProcessKilledBySignal(libc::SIGTERM)
        ))
    ));
    let (_, action) = step(
        Stage::ParentWaiting { child_pid: 99, read: Ok(vec![]) },
        Event::Waited(Ok(exit_status(0))),
    );
    assert!(matches!(
        action,
        Action::Fail(MemIsolateError::CallableStatusUnknown(
            CallableStatusUnknownError::CallableProcessDiedDuringExecution
        ))
    ));
}
