//! The errors of an isolated execution, organised in three levels:
//!
//! 1. the effect of the error on the callable (did it run, did it not, is it
//!    unknown);
//! 2. the operation of the isolation that failed (pipe, fork, wait, ...);
//! 3. the operating-system error number behind it, where there is one.
//!
//! These errors describe what went wrong with the isolation itself. The
//! callable may define its own errors by returning a `Result` or an `Option`.
use vstd::prelude::*;

verus! {

/// An operating-system error number (`errno`) reported by a system call.
#[derive(Debug, Clone, Copy, PartialEq, Eq, Structural)]
pub struct OsError {
    /// The raw error number.
    pub code: i32,
}

impl OsError {
    /// The error with the given raw error number.
    pub fn from_raw_os_error(code: i32) -> (e: OsError)
        ensures
            e.code == code,
    {
        OsError { code }
    }

    /// The error number of an `io::Error`: its own for an operating-system
    /// error, `EIO` for any other.
    pub fn from_io_error(err: &std::io::Error) -> (e: OsError)
        ensures
            e.code == match raw_os_error_of(*err) {
                Some(code) => code,
                None => 5,
            },
    {
        match io_error_raw_os_error(err) {
            Some(code) => OsError { code },
            None => OsError { code: errno_eio() },
        }
    }

    /// The raw error number of this error; an `OsError` always has one.
    pub fn raw_os_error(&self) -> (r: Option<i32>)
        ensures
            r == Some(self.code),
    {
        Some(self.code)
    }
}

/// `std::io::Error`, carried through opaquely.
#[verifier::external_type_specification]
#[verifier::external_body]
pub struct ExIoError(std::io::Error);

/// What `std::io::Error::raw_os_error` returns for an error: its error
/// number if it is an operating-system error, `None` otherwise.
pub uninterp spec fn raw_os_error_of(err: std::io::Error) -> Option<i32>;

/// `std::io::Error::raw_os_error`, a getter: the contract claims only that
/// its result is the one named `raw_os_error_of` for the same error.
#[verifier::external_body]
fn io_error_raw_os_error(err: &std::io::Error) -> (r: Option<i32>)
    ensures
        r == raw_os_error_of(*err),
{
    err.raw_os_error()
}

/// `libc::EIO`, the error number for a generic I/O error; 5 on Linux, macOS
/// and the BSDs, which is what the contract claims. It does not hold on
/// other Unix targets.
#[verifier::external_body]
fn errno_eio() -> (r: i32)
    ensures
        r == 5,
{
    libc::EIO
}

/// The primary error of an isolated execution: what happened to the callable.
#[derive(Debug)]
pub enum MemIsolateError {
    /// Something went wrong before the callable was executed. The callable
    /// never ran, so it is safe to retry it, even if it is not idempotent.
    CallableDidNotExecute(CallableDidNotExecuteError),
    /// Something went wrong after the callable was executed. Do not retry it
    /// unless it is idempotent.
    CallableExecuted(CallableExecutedError),
    /// Something went wrong and it is unknown whether the callable was
    /// executed. Retry it only if it is idempotent.
    CallableStatusUnknown(CallableStatusUnknownError),
}

/// Something went wrong **after** the callable was executed.
#[derive(Debug)]
pub enum CallableExecutedError {
    /// The callable's result could not be serialized in the child process.
    SerializationFailed(String),
    /// The callable's result could not be deserialized in the parent process.
    DeserializationFailed(String),
    /// The child could not write its result to the pipe.
    ChildPipeWriteFailed(Option<OsError>),
}

/// Something went wrong **before** the callable was executed.
#[derive(Debug)]
pub enum CallableDidNotExecuteError {
    /// The pipe used to talk to the child could not be created.
    PipeCreationFailed(OsError),
    /// The child could not close its copy of the pipe's read end.
    ChildPipeCloseFailed(Option<OsError>),
    /// The child process could not be forked.
    ForkFailed(OsError),
}

/// Something went wrong and it cannot be told whether the callable ran.
#[derive(Debug)]
pub enum CallableStatusUnknownError {
    /// The parent could not close its copy of the pipe's write end.
    ParentPipeCloseFailed(OsError),
    /// Waiting for the child process failed.
    WaitFailed(OsError),
    /// The parent could not read the child's result from the pipe.
    ParentPipeReadFailed(OsError),
    /// The child process died while the callable was executing.
    CallableProcessDiedDuringExecution,
    /// The child process exited with a status that the isolation never uses.
    UnexpectedChildExitStatus(i32),
    /// The child process was killed by the given signal.
    ChildProcessKilledBySignal(i32),
    /// `waitpid` reported a status that is neither an exit nor a kill.
    UnexpectedWaitpidReturnValue(i32),
}

impl MemIsolateError {
    /// The callable is known not to have run.
    pub open spec fn did_not_execute(self) -> bool {
        self is CallableDidNotExecute
    }

    /// The callable is known to have run.
    pub open spec fn executed(self) -> bool {
        self is CallableExecuted
    }

    /// It is unknown whether the callable ran.
    pub open spec fn status_unknown(self) -> bool {
        self is CallableStatusUnknown
    }

}

} // verus!
