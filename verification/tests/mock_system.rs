use mem_isolate::c::mock::{
    configured_strict, configured_with_fallback, with_mock_system, CallBehavior, MockConfig,
    MockableSystemFunctions,
};
use mem_isolate::c::{ForkReturn, PipeFds, SysCall};
use mem_isolate::errors::OsError;
use std::io;

/// The result a mocked call answered with; a call left to the real system
/// function has no mocked result.
fn mocked<T>(call: SysCall<T>) -> Result<T, OsError> {
    match call {
        SysCall::Mocked(result) => result,
        SysCall::Real => panic!("the call was left to the real system function"),
    }
}

#[test]
fn mock_functions() {
    // Create a new mock and use it directly
    let mut mock = MockableSystemFunctions::with_fallback();

    // Test directly using the mock
    let _ = mock.fork();

    // Check enabling/disabling fallback
    assert!(mock.is_fallback_enabled());
    mock.disable_fallback();
    assert!(!mock.is_fallback_enabled());
    mock.enable_fallback();
    assert!(mock.is_fallback_enabled());
}

#[test]
fn with_mock_system_helper() {
    // with_mock_system provides the mock to the closure
    with_mock_system(MockConfig::Fallback, |mock| {
        // Use the mock within the closure
        let _ = mock.fork();
        assert!(mock.is_fallback_enabled());
    });
}

#[test]
fn fork_mocking() {
    let mut mock = MockableSystemFunctions::strict();
    mock.expect_fork(CallBehavior::Mock(Ok(ForkReturn::Parent(123))));
    mock.expect_fork(CallBehavior::Mock(Ok(ForkReturn::Child)));

    let result1 = mocked(mock.fork()).expect("Fork should succeed");
    assert!(matches!(result1, ForkReturn::Parent(123)));
    let result2 = mocked(mock.fork()).expect("Fork should succeed");
    assert!(matches!(result2, ForkReturn::Child));
}

#[test]
fn pipe_mocking() {
    with_mock_system(
        configured_strict(|mock| {
            mock.expect_pipe(CallBehavior::Mock(Ok(PipeFds {
                read_fd: 1000,
                write_fd: 1001,
            })))
            .expect_close(CallBehavior::Mock(Ok(())))
            .expect_close(CallBehavior::Mock(Ok(())));
        }),
        |mock| {
            let pipe_fds = mocked(mock.pipe()).expect("Pipe should succeed");

            assert_eq!(pipe_fds.read_fd, 1000);
            assert_eq!(pipe_fds.write_fd, 1001);

            mocked(mock.close(pipe_fds.read_fd)).expect("Close should succeed");
            mocked(mock.close(pipe_fds.write_fd)).expect("Close should succeed");
        },
    );
}

#[test]
fn close_mocking() {
    let mut mock = MockableSystemFunctions::strict();
    mock.expect_close(CallBehavior::Mock(Ok(())));

    let result = mocked(mock.close(999));
    assert!(result.is_ok());
}

#[test]
fn waitpid_mocking() {
    let mut mock = MockableSystemFunctions::strict();
    mock.expect_waitpid(CallBehavior::Mock(Ok(42)));

    let status = mocked(mock.waitpid(123)).expect("Waitpid should succeed");
    assert_eq!(status, 42);
}

#[test]
fn error_conditions() {
    let mut mock = MockableSystemFunctions::strict();

    // Set up various error conditions
    mock.expect_fork(CallBehavior::Mock(Err(OsError::from_raw_os_error(libc::EAGAIN))));
    mock.expect_pipe(CallBehavior::Mock(Err(OsError::from_raw_os_error(libc::EMFILE))));
    mock.expect_close(CallBehavior::Mock(Err(OsError::from_raw_os_error(libc::EBADF))));
    mock.expect_waitpid(CallBehavior::Mock(Err(OsError::from_raw_os_error(libc::ECHILD))));

    // Test fork error
    let fork_result = mocked(mock.fork());
    assert!(fork_result.is_err());
    assert_eq!(fork_result.unwrap_err().raw_os_error(), Some(libc::EAGAIN));

    // Test pipe error
    let pipe_result = mocked(mock.pipe());
    assert!(pipe_result.is_err());
    assert_eq!(pipe_result.unwrap_err().raw_os_error(), Some(libc::EMFILE));

    // Test close error
    let close_result = mocked(mock.close(1));
    assert!(close_result.is_err());
    assert_eq!(close_result.unwrap_err().raw_os_error(), Some(libc::EBADF));

    // Test waitpid error
    let waitpid_result = mocked(mock.waitpid(1));
    assert!(waitpid_result.is_err());
    assert_eq!(
        waitpid_result.unwrap_err().raw_os_error(),
        Some(libc::ECHILD)
    );
}

#[test]
fn multiple_expectations() {
    let mut mock = MockableSystemFunctions::with_fallback();

    // Set up a sequence of expectations
    mock.expect_fork(CallBehavior::Mock(Ok(ForkReturn::Parent(1))))
        .expect_fork(CallBehavior::Mock(Ok(ForkReturn::Parent(2))))
        .expect_fork(CallBehavior::Mock(Ok(ForkReturn::Parent(3))));

    // Verify calls are processed in order
    assert!(matches!(mocked(mock.fork()).unwrap(), ForkReturn::Parent(1)));
    assert!(matches!(mocked(mock.fork()).unwrap(), ForkReturn::Parent(2)));
    assert!(matches!(mocked(mock.fork()).unwrap(), ForkReturn::Parent(3)));
}

#[test]
fn non_os_error_handling() {
    // Create a special io::Error that's not an OS error
    let custom_error = io::Error::new(io::ErrorKind::Other, "Custom error");

    let mut mock = MockableSystemFunctions::with_fallback();

    // As an error number, it becomes EIO
    mock.expect_fork(CallBehavior::Mock(Err(OsError::from_io_error(&custom_error))));

    let result = mocked(mock.fork());
    assert!(result.is_err());
    // Should be converted to EIO
    assert_eq!(result.unwrap_err().raw_os_error(), Some(libc::EIO));
}

#[test]
fn mixed_real_and_mock_calls() {
    with_mock_system(
        configured_with_fallback(|mock| {
            // First fork mocked to return a parent
            mock.expect_fork(CallBehavior::Mock(Ok(ForkReturn::Parent(42))));

            // The rest use real implementations
            mock.expect_fork(CallBehavior::Real);
            mock.expect_fork(CallBehavior::Real);
        }),
        |mock| {
            let result1 = mocked(mock.fork()).expect("Mock fork should succeed");
            assert!(matches!(result1, ForkReturn::Parent(42)));

            // The next two are left to the real fork
            assert!(matches!(mock.fork(), SysCall::Real));
            assert!(matches!(mock.fork(), SysCall::Real));
            // and once the queue is empty, fallback leaves calls to the real fork too
            assert!(matches!(mock.fork(), SysCall::Real));
        },
    );
}

#[test]
fn strict_mock_with_configuration_only_answers_from_queue() {
    let mut mock = MockableSystemFunctions::strict();
    assert!(!mock.can_fork());
    mock.expect_fork(CallBehavior::Real);
    assert!(mock.can_fork());
    assert!(matches!(mock.fork(), SysCall::Real));
    assert!(!mock.can_fork());
    assert!(!mock.can_pipe() && !mock.can_close() && !mock.can_waitpid());
}

#[test]
fn cloned_mock_keeps_fallback_but_not_expectations() {
    let mut mock = MockableSystemFunctions::strict();
    mock.expect_fork(CallBehavior::Mock(Ok(ForkReturn::Child)));
    let clone = mock.clone();
    assert!(!clone.is_fallback_enabled());
    assert!(!clone.can_fork());
    assert!(mock.can_fork());

    let default = MockableSystemFunctions::default();
    assert!(default.is_fallback_enabled());
    assert!(default.can_fork());
}

#[test]
fn strict_config_disables_fallback() {
    with_mock_system(MockConfig::Strict, |mock| {
        assert!(!mock.is_fallback_enabled());
    });
    with_mock_system(configured_strict(|_| {}), |mock| {
        assert!(!mock.is_fallback_enabled());
    });
    let value = with_mock_system(configured_with_fallback(|_| {}), |mock| {
        assert!(mock.is_fallback_enabled());
        7
    });
    assert_eq!(value, 7);
}
