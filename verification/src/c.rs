//! The system calls that an isolated execution makes, and how their raw
//! results are read.
//!
//! The calls themselves (`fork`, `pipe`, `close`, `waitpid`, `_exit`) are made
//! by the caller of this module; what they return is turned here into values,
//! and a mocked set of system functions decides, call by call, whether the
//! real call is made or a configured result is used instead.
//!
//! The contracts of the libc items below (the wait-status macros and
//! `EINTR`) hold on Linux, macOS and the BSDs, the systems this crate
//! supports. On other Unix targets that libc knows (Haiku, AIX, Hurd, ...)
//! libc computes them differently and the contracts do not hold.
use vstd::prelude::*;
use crate::errors::OsError;

pub mod mock;

use mock::MockableSystemFunctions;

verus! {

/// What `fork` returned in the process that sees it.
#[derive(Debug, Clone, Copy, PartialEq, Eq, Structural)]
pub enum ForkReturn {
    /// In the parent: the child's process id.
    Parent(i32),
    /// In the child.
    Child,
}

/// The two ends of a pipe.
#[derive(Debug, Clone, Copy, PartialEq, Eq, Structural)]
pub struct PipeFds {
    /// The end that is read from.
    pub read_fd: i32,
    /// The end that is written to.
    pub write_fd: i32,
}

/// A status as `waitpid` reports it.
pub type WaitpidStatus = i32;

/// The exit code of a process that exited on its own.
pub type ExitStatus = i32;

/// A signal number.
pub type Signal = i32;

/// `WIFEXITED`: the child exited on its own.
pub open spec fn status_exited(status: i32) -> bool {
    (status & 0x7f) == 0
}

/// `WEXITSTATUS`: the exit code of a child that exited on its own.
pub open spec fn status_exit_code(status: i32) -> i32 {
    (status >> 8) & 0xff
}

/// `WIFSIGNALED`: the child was terminated by a signal.
pub open spec fn status_signaled(status: i32) -> bool {
    (((status & 0x7f) + 1) as i8) >= 2
}

/// The one status that libc reads differently across the supported systems:
/// Linux, macOS and the other BSDs count `0x13` as a kill by signal 19,
/// FreeBSD does not count it as a kill.
pub open spec fn signal_reading_varies(status: i32) -> bool {
    status == 0x13
}

/// `WTERMSIG`: the signal that terminated the child.
pub open spec fn status_term_signal(status: i32) -> i32 {
    status & 0x7f
}

/// `libc::WIFEXITED`. On Linux, macOS and the BSDs, libc computes it as
/// `(status & 0x7f) == 0` (0o177 is 0x7f), and this is what the contract
/// claims of it; it does not hold on other Unix targets.
#[verifier::external_body]
fn wifexited(status: i32) -> (r: bool)
    ensures
        r == status_exited(status),
{
    libc::WIFEXITED(status)
}

/// `libc::WEXITSTATUS`. On Linux, macOS and the BSDs, libc computes it as
/// `(status >> 8) & 0xff`, and this is what the contract claims of it; it
/// does not hold on other Unix targets.
#[verifier::external_body]
fn wexitstatus(status: i32) -> (r: i32)
    ensures
        r == status_exit_code(status),
{
    libc::WEXITSTATUS(status)
}

/// `libc::WIFSIGNALED`. On Linux libc computes it as
/// `((status & 0x7f) + 1) as i8 >= 2`; on macOS and the BSDs as "the low
/// seven bits are neither 0 nor 0o177", which is the same; FreeBSD adds
/// `&& status != 0x13`. The contract claims what holds on all of them: a
/// `true` answer implies the Linux formula, and the Linux formula implies a
/// `true` answer for every status but `0x13`. It does not hold on other
/// Unix targets.
#[verifier::external_body]
fn wifsignaled(status: i32) -> (r: bool)
    ensures
        r ==> status_signaled(status),
        status_signaled(status) && !signal_reading_varies(status) ==> r,
{
    libc::WIFSIGNALED(status)
}

/// `libc::WTERMSIG`. On Linux, macOS and the BSDs, libc computes it as
/// `status & 0x7f`, and this is what the contract claims of it; it does not
/// hold on other Unix targets.
#[verifier::external_body]
fn wtermsig(status: i32) -> (r: i32)
    ensures
        r == status_term_signal(status),
{
    libc::WTERMSIG(status)
}

/// The error number is `EINTR`: the call was interrupted by a signal (4 on
/// Linux, macOS and the BSDs).
pub open spec fn is_eintr(code: i32) -> bool {
    code == 4
}

/// `libc::EINTR`, the error number of a system call interrupted by a
/// signal; 4 on Linux, macOS and the BSDs, which is what the contract
/// claims. It does not hold on other Unix targets (Haiku, Hurd).
#[verifier::external_body]
pub(crate) fn errno_eintr() -> (r: i32)
    ensures
        r == 4,
{
    libc::EINTR
}

/// The `waitpid` status of a child that exited on its own with `code`:
/// libc's `W_EXITCODE(code, 0)`, `(code << 8) | 0`.
pub open spec fn exit_word(code: i32) -> i32 {
    (code << 8) | 0
}

/// The exit code of the child if it exited on its own.
pub open spec fn exited_on_its_own(status: i32) -> Option<i32> {
    if status_exited(status) { Some(status_exit_code(status)) } else { None }
}

/// The terminating signal if the child was killed by one (as Linux reads the
/// status).
pub open spec fn killed_by_signal(status: i32) -> Option<i32> {
    if status_signaled(status) { Some(status_term_signal(status)) } else { None }
}

/// The exit code of the child, if the `waitpid` status says that it exited
/// on its own.
pub fn child_process_exited_on_its_own(waitpid_status: WaitpidStatus) -> (r: Option<ExitStatus>)
    ensures
        r == exited_on_its_own(waitpid_status),
{
    if wifexited(waitpid_status) {
        Some(wexitstatus(waitpid_status))
    } else {
        None
    }
}

/// The signal that killed the child, if the `waitpid` status says that a
/// signal did. For the one status that systems read differently, the answer
/// may also be `None`.
pub fn child_process_killed_by_signal(waitpid_status: WaitpidStatus) -> (r: Option<Signal>)
    ensures
        r == killed_by_signal(waitpid_status)
            || (signal_reading_varies(waitpid_status) && r is None),
{
    if wifsignaled(waitpid_status) {
        Some(wtermsig(waitpid_status))
    } else {
        None
    }
}

/// What a `fork` that returned `ret` means; `errno` is the error number read
/// right after the call.
pub open spec fn fork_outcome(ret: i32, errno: i32) -> Result<ForkReturn, OsError> {
    if ret == -1 {
        Err(OsError { code: errno })
    } else if ret == 0 {
        Ok(ForkReturn::Child)
    } else {
        Ok(ForkReturn::Parent(ret))
    }
}

/// What a `pipe` that returned `ret` and filled in `read_fd` and `write_fd`
/// means.
pub open spec fn pipe_outcome(ret: i32, read_fd: i32, write_fd: i32, errno: i32) -> Result<PipeFds, OsError> {
    if ret == -1 {
        Err(OsError { code: errno })
    } else {
        Ok(PipeFds { read_fd, write_fd })
    }
}

/// What a `close` that returned `ret` means.
pub open spec fn close_outcome(ret: i32, errno: i32) -> Result<(), OsError> {
    if ret == -1 {
        Err(OsError { code: errno })
    } else {
        Ok(())
    }
}

/// What a `waitpid` that returned `ret` and filled in `status` means.
pub open spec fn waitpid_outcome(ret: i32, status: i32, errno: i32) -> Result<i32, OsError> {
    if ret == -1 {
        Err(OsError { code: errno })
    } else {
        Ok(status)
    }
}

/// The real system functions: the calls go to the operating system.
#[derive(Debug, Clone, Copy)]
pub struct RealSystemFunctions;

impl RealSystemFunctions {
    /// Reads the value that `fork` returned: `-1` is a failure with the given
    /// error number, `0` is the child, anything else the child's pid.
    pub fn fork_outcome(&self, ret: i32, errno: i32) -> (r: Result<ForkReturn, OsError>)
        ensures
            r == fork_outcome(ret, errno),
    {
        if ret == -1 {
            Err(OsError::from_raw_os_error(errno))
        } else if ret == 0 {
            Ok(ForkReturn::Child)
        } else {
            Ok(ForkReturn::Parent(ret))
        }
    }

    /// Reads the value that `pipe` returned together with the two descriptors
    /// it filled in.
    pub fn pipe_outcome(&self, ret: i32, read_fd: i32, write_fd: i32, errno: i32) -> (r: Result<PipeFds, OsError>)
        ensures
            r == pipe_outcome(ret, read_fd, write_fd, errno),
    {
        if ret == -1 {
            Err(OsError::from_raw_os_error(errno))
        } else {
            Ok(PipeFds { read_fd, write_fd })
        }
    }

    /// Reads the value that `close` returned.
    pub fn close_outcome(&self, ret: i32, errno: i32) -> (r: Result<(), OsError>)
        ensures
            r == close_outcome(ret, errno),
    {
        if ret == -1 {
            Err(OsError::from_raw_os_error(errno))
        } else {
            Ok(())
        }
    }

    /// Reads the value that `waitpid` returned together with the status it
    /// filled in.
    pub fn waitpid_outcome(&self, ret: i32, status: i32, errno: i32) -> (r: Result<i32, OsError>)
        ensures
            r == waitpid_outcome(ret, status, errno),
    {
        if ret == -1 {
            Err(OsError::from_raw_os_error(errno))
        } else {
            Ok(status)
        }
    }
}

/// How one system call is to be answered.
#[derive(Debug)]
pub enum SysCall<T> {
    /// Make the real call.
    Real,
    /// Do not make the call; this is its result.
    Mocked(Result<T, OsError>),
}

/// Either the real system functions or a mock of them.
#[derive(Debug)]
pub enum SystemFunctionsImpl {
    /// The real system functions.
    Real(RealSystemFunctions),
    /// A mock that answers calls from its configured behaviours.
    Mock(MockableSystemFunctions),
}

impl SystemFunctionsImpl {
    /// Every call can be answered: the real functions always can, a mock only
    /// where it has a behaviour configured or falls back to the real call.
    pub open spec fn ready_for_fork(&self) -> bool {
        match self {
            SystemFunctionsImpl::Real(_) => true,
            SystemFunctionsImpl::Mock(m) => m.can_answer_fork(),
        }
    }

    /// A `pipe` can be answered.
    pub open spec fn ready_for_pipe(&self) -> bool {
        match self {
            SystemFunctionsImpl::Real(_) => true,
            SystemFunctionsImpl::Mock(m) => m.can_answer_pipe(),
        }
    }

    /// A `close` can be answered.
    pub open spec fn ready_for_close(&self) -> bool {
        match self {
            SystemFunctionsImpl::Real(_) => true,
            SystemFunctionsImpl::Mock(m) => m.can_answer_close(),
        }
    }

    /// A `waitpid` can be answered.
    pub open spec fn ready_for_waitpid(&self) -> bool {
        match self {
            SystemFunctionsImpl::Real(_) => true,
            SystemFunctionsImpl::Mock(m) => m.can_answer_waitpid(),
        }
    }

    /// How `fork` is to be answered.
    pub fn fork(&mut self) -> (r: SysCall<ForkReturn>)
        requires
            old(self).ready_for_fork(),
        ensures
            match *old(self) {
                SystemFunctionsImpl::Real(_) => r is Real && *final(self) is Real,
                SystemFunctionsImpl::Mock(m) => {
                    &&& r == mock::answer(m@.forks)
                    &&& *final(self) matches SystemFunctionsImpl::Mock(m2)
                    &&& m2@ == (mock::MockState { forks: mock::after_call(m@.forks), ..m@ })
                },
            },
    {
        match self {
            SystemFunctionsImpl::Real(_) => SysCall::Real,
            SystemFunctionsImpl::Mock(mock) => mock.fork(),
        }
    }

    /// How `pipe` is to be answered.
    pub fn pipe(&mut self) -> (r: SysCall<PipeFds>)
        requires
            old(self).ready_for_pipe(),
        ensures
            match *old(self) {
                SystemFunctionsImpl::Real(_) => r is Real && *final(self) is Real,
                SystemFunctionsImpl::Mock(m) => {
                    &&& r == mock::answer(m@.pipes)
                    &&& *final(self) matches SystemFunctionsImpl::Mock(m2)
                    &&& m2@ == (mock::MockState { pipes: mock::after_call(m@.pipes), ..m@ })
                },
            },
    {
        match self {
            SystemFunctionsImpl::Real(_) => SysCall::Real,
            SystemFunctionsImpl::Mock(mock) => mock.pipe(),
        }
    }

    /// How `close(fd)` is to be answered.
    pub fn close(&mut self, fd: i32) -> (r: SysCall<()>)
        requires
            old(self).ready_for_close(),
        ensures
            match *old(self) {
                SystemFunctionsImpl::Real(_) => r is Real && *final(self) is Real,
                SystemFunctionsImpl::Mock(m) => {
                    &&& r == mock::answer(m@.closes)
                    &&& *final(self) matches SystemFunctionsImpl::Mock(m2)
                    &&& m2@ == (mock::MockState { closes: mock::after_call(m@.closes), ..m@ })
                },
            },
    {
        match self {
            SystemFunctionsImpl::Real(_) => SysCall::Real,
            SystemFunctionsImpl::Mock(mock) => mock.close(fd),
        }
    }

    /// How `waitpid(pid)` is to be answered.
    pub fn waitpid(&mut self, pid: i32) -> (r: SysCall<i32>)
        requires
            old(self).ready_for_waitpid(),
        ensures
            match *old(self) {
                SystemFunctionsImpl::Real(_) => r is Real && *final(self) is Real,
                SystemFunctionsImpl::Mock(m) => {
                    &&& r == mock::answer(m@.waits)
                    &&& *final(self) matches SystemFunctionsImpl::Mock(m2)
                    &&& m2@ == (mock::MockState { waits: mock::after_call(m@.waits), ..m@ })
                },
            },
    {
        match self {
            SystemFunctionsImpl::Real(_) => SysCall::Real,
            SystemFunctionsImpl::Mock(mock) => mock.waitpid(pid),
        }
    }
}

} // verus!
