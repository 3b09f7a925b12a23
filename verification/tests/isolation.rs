use std::sync::atomic::{AtomicBool, Ordering};
use mem_isolate::c::{
    child_process_exited_on_its_own, child_process_killed_by_signal, ForkReturn, PipeFds,
    RealSystemFunctions, SysCall, SystemFunctionsImpl,
};
use mem_isolate::errors::{
    CallableDidNotExecuteError, CallableExecutedError, CallableStatusUnknownError,
    MemIsolateError, OsError,
};
use mem_isolate::{
    close_read_end_of_pipe_in_child_or_exit, close_write_end_of_pipe_in_parent, create_pipe,
    deserialize_result, error_if_child_unhappy, execute_callable, exit_happy,
    get_system_functions, read_all_of_child_result_pipe, serialize_result_or_error_value,
    wait_for_child, write_and_flush_or_exit, WaitStep, CHILD_EXIT_HAPPY,
    CHILD_EXIT_IF_READ_CLOSE_FAILED, CHILD_EXIT_IF_WRITE_FAILED,
};

#[derive(Debug, PartialEq)]
struct MyResult {
    value: i32,
}

fn exit_status(code: i32) -> i32 {
    code << 8
}

#[test]
fn static_memory_mutation_without_isolation() {
    static MEMORY: AtomicBool = AtomicBool::new(false);
    let mutate = || MEMORY.store(true, Ordering::SeqCst);

    // Directly modify static memory
    mutate();

    // Verify the change persists
    assert!(MEMORY.load(Ordering::SeqCst), "Static memory should be modified");
}

#[test]
fn callable_runs_once_and_its_value_is_returned() {
    let result = execute_callable(|| MyResult { value: 42 });
    assert_eq!(result, MyResult { value: 42 });

    let mut counter = 0;
    let value = execute_callable(|| {
        counter += 1;
        counter
    });
    assert_eq!(value, 1);
    assert_eq!(counter, 1);
}

#[test]
fn system_functions_are_real_by_default() {
    assert!(matches!(get_system_functions(), SystemFunctionsImpl::Real(_)));
    let mut sys = get_system_functions();
    assert!(matches!(sys.fork(), SysCall::Real));
    assert!(matches!(sys.waitpid(1), SysCall::Real));
}

#[test]
fn exit_status_decoding() {
    assert_eq!(child_process_exited_on_its_own(exit_status(0)), Some(0));
    assert_eq!(child_process_exited_on_its_own(exit_status(3)), Some(3));
    assert_eq!(child_process_exited_on_its_own(exit_status(255)), Some(255));
    assert_eq!(child_process_killed_by_signal(exit_status(3)), None);
    // killed by SIGTERM (15)
    assert_eq!(child_process_exited_on_its_own(15), None);
    assert_eq!(child_process_killed_by_signal(15), Some(15));
    // killed by SIGKILL (9) with a core flag
    assert_eq!(child_process_killed_by_signal(9 | 0x80), Some(9));
    // stopped by SIGSTOP (19): neither exited nor killed
    let stopped = (19 << 8) | 0x7f;
    assert_eq!(child_process_exited_on_its_own(stopped), None);
    assert_eq!(child_process_killed_by_signal(stopped), None);
}

#[test]
fn error_if_child_unhappy_reads_exit_codes() {
    assert!(error_if_child_unhappy(exit_status(CHILD_EXIT_HAPPY)).is_ok());
    assert!(matches!(
        error_if_child_unhappy(exit_status(CHILD_EXIT_IF_READ_CLOSE_FAILED)),
        Err(MemIsolateError::CallableDidNotExecute(
            CallableDidNotExecuteError::ChildPipeCloseFailed(None)
        ))
    ));
    assert!(matches!(
        error_if_child_unhappy(exit_status(CHILD_EXIT_IF_WRITE_FAILED)),
        Err(MemIsolateError::CallableExecuted(
            CallableExecutedError::ChildPipeWriteFailed(None)
        ))
    ));
    assert!(matches!(
        error_if_child_unhappy(exit_status(101)),
        Err(MemIsolateError::CallableStatusUnknown(
            CallableStatusUnknownError::UnexpectedChildExitStatus(101)
        ))
    ));
    assert!(matches!(
        error_if_child_unhappy(libc::SIGTERM),
        Err(MemIsolateError::CallableStatusUnknown(
            CallableStatusUnknownError::ChildProcessKilledBySignal(libc::SIGTERM)
        ))
    ));
    assert!(matches!(
        error_if_child_unhappy(libc::SIGKILL),
        Err(MemIsolateError::CallableStatusUnknown(
            CallableStatusUnknownError::ChildProcessKilledBySignal(libc::SIGKILL)
        ))
    ));
    // read as a kill by signal 19 by Linux's libc
    assert!(matches!(
        error_if_child_unhappy(0x13),
        Err(MemIsolateError::CallableStatusUnknown(
            CallableStatusUnknownError::ChildProcessKilledBySignal(19)
        ))
    ));
    let stopped = (19 << 8) | 0x7f;
    assert!(matches!(
        error_if_child_unhappy(stopped),
        Err(MemIsolateError::CallableStatusUnknown(
            CallableStatusUnknownError::UnexpectedWaitpidReturnValue(s)
        )) if s == stopped
    ));
}

#[test]
fn pipe_creation_failure_did_not_execute() {
    let fds = PipeFds { read_fd: 3, write_fd: 4 };
    assert_eq!(create_pipe(Ok(fds)).unwrap(), fds);
    assert!(matches!(
        create_pipe(Err(OsError::from_raw_os_error(libc::ENFILE))),
        Err(MemIsolateError::CallableDidNotExecute(
            CallableDidNotExecuteError::PipeCreationFailed(e)
        )) if e.code == libc::ENFILE
    ));
}

#[test]
fn interrupted_wait_is_retried() {
    assert!(matches!(
        wait_for_child(Err(OsError::from_raw_os_error(libc::EINTR))),
        WaitStep::Retry
    ));
    assert!(matches!(
        wait_for_child(Err(OsError::from_raw_os_error(libc::ECHILD))),
        WaitStep::Done(Err(MemIsolateError::CallableStatusUnknown(
            CallableStatusUnknownError::WaitFailed(e)
        ))) if e.code == libc::ECHILD
    ));
    assert!(matches!(wait_for_child(Ok(0)), WaitStep::Done(Ok(0))));
}

#[test]
fn result_pipe_reading() {
    assert_eq!(read_all_of_child_result_pipe(Ok(vec![1, 2, 3])).unwrap(), vec![1, 2, 3]);
    assert!(matches!(
        read_all_of_child_result_pipe(Ok(vec![])),
        Err(MemIsolateError::CallableStatusUnknown(
            CallableStatusUnknownError::CallableProcessDiedDuringExecution
        ))
    ));
    assert!(matches!(
        read_all_of_child_result_pipe(Err(OsError::from_raw_os_error(libc::EBADF))),
        Err(MemIsolateError::CallableStatusUnknown(
            CallableStatusUnknownError::ParentPipeReadFailed(e)
        )) if e.code == libc::EBADF
    ));
}

#[test]
fn pipe_end_closing() {
    assert!(close_write_end_of_pipe_in_parent(Ok(())).is_ok());
    assert!(matches!(
        close_write_end_of_pipe_in_parent(Err(OsError::from_raw_os_error(libc::EIO))),
        Err(MemIsolateError::CallableStatusUnknown(
            CallableStatusUnknownError::ParentPipeCloseFailed(e)
        )) if e.raw_os_error() == Some(libc::EIO)
    ));
    assert!(close_read_end_of_pipe_in_child_or_exit(Ok(())).is_ok());
    assert!(matches!(
        close_read_end_of_pipe_in_child_or_exit(Err(OsError::from_raw_os_error(libc::EBADF))),
        Err((MemIsolateError::CallableDidNotExecute(
            CallableDidNotExecuteError::ChildPipeCloseFailed(Some(e))
        ), 3)) if e.code == libc::EBADF
    ));
}

#[test]
fn child_exit_codes() {
    assert_eq!(exit_happy(), 0);
    assert_eq!(write_and_flush_or_exit(Ok(())), None);
    assert_eq!(write_and_flush_or_exit(Err(OsError::from_raw_os_error(libc::EPIPE))), Some(4));
}

#[test]
fn results_cross_the_pipe() {
    let value: Result<i32, MemIsolateError> = deserialize_result(Ok(Ok(42)));
    assert_eq!(value.unwrap(), 42);

    let sent = MemIsolateError::CallableExecuted(CallableExecutedError::SerializationFailed(
        "Fake serialization error".to_string(),
    ));
    let back: Result<i32, MemIsolateError> = deserialize_result(Ok(Err(sent)));
    assert!(matches!(
        back,
        Err(MemIsolateError::CallableExecuted(CallableExecutedError::SerializationFailed(ref m)))
            if m == "Fake serialization error"
    ));

    let failed: Result<i32, MemIsolateError> =
        deserialize_result(Err("Intentional deserialization failure".to_string()));
    assert!(matches!(
        failed,
        Err(MemIsolateError::CallableExecuted(CallableExecutedError::DeserializationFailed(ref m)))
            if m.contains("Intentional deserialization failure")
    ));

    assert_eq!(serialize_result_or_error_value(Ok(vec![0, 42])).unwrap(), vec![0, 42]);
    assert!(matches!(
        serialize_result_or_error_value(Err("Fake serialization error".to_string())),
        Err(MemIsolateError::CallableExecuted(CallableExecutedError::SerializationFailed(ref m)))
            if m.contains("Fake serialization error")
    ));
}

#[test]
fn io_errors_as_error_numbers() {
    let os = std::io::Error::from_raw_os_error(libc::EAGAIN);
    assert_eq!(OsError::from_io_error(&os).code, libc::EAGAIN);
    let other = std::io::Error::new(std::io::ErrorKind::Other, "Custom error");
    assert_eq!(OsError::from_io_error(&other).code, libc::EIO);
}

#[test]
fn raw_system_call_results() {
    let real = RealSystemFunctions;
    assert_eq!(real.fork_outcome(-1, libc::EAGAIN).unwrap_err().code, libc::EAGAIN);
    assert_eq!(real.fork_outcome(0, 0).unwrap(), ForkReturn::Child);
    assert_eq!(real.fork_outcome(1234, 0).unwrap(), ForkReturn::Parent(1234));
    assert_eq!(
        real.pipe_outcome(0, 5, 6, 0).unwrap(),
        PipeFds { read_fd: 5, write_fd: 6 }
    );
    assert_eq!(real.pipe_outcome(-1, 0, 0, libc::EMFILE).unwrap_err().code, libc::EMFILE);
    assert!(real.close_outcome(0, 0).is_ok());
    assert_eq!(real.close_outcome(-1, libc::EBADF).unwrap_err().code, libc::EBADF);
    assert_eq!(real.waitpid_outcome(77, exit_status(3), 0).unwrap(), exit_status(3));
    assert_eq!(real.waitpid_outcome(-1, 0, libc::EINTR).unwrap_err().code, libc::EINTR);
}
