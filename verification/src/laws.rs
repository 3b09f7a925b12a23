//! Properties of the isolation protocol that span its steps and its two
//! processes.
use vstd::prelude::*;
use crate::c::{
    ForkReturn, PipeFds, fork_outcome, pipe_outcome, close_outcome, waitpid_outcome, exit_word, status_exited, status_exit_code, status_signaled, exited_on_its_own,
    killed_by_signal, is_eintr, signal_reading_varies,
};
use crate::c::mock::{CallImplementation, answer, after_call};
use crate::errors::{
    OsError, MemIsolateError, CallableDidNotExecuteError, CallableExecutedError,
    CallableStatusUnknownError,
};
use crate::protocol::{
    Stage, Event, Action, fits, transition, is_child_stage, reads_varying_status,
    varying_status_outcome,
};
use crate::{child_verdict, deserialized};

verus! {

/// A `waitpid` status says either that the child exited on its own or that a
/// signal killed it, never both.
pub proof fn law_exit_and_kill_exclude_each_other(status: i32)
    ensures
        !(status_exited(status) && status_signaled(status)),
        exited_on_its_own(status) is Some ==> killed_by_signal(status) is None,
{
    assert(!(((status & 0x7f) == 0) && ((((status & 0x7f) + 1) as i8) >= 2))) by (bit_vector);
}

/// The parent reads back exactly the exit code the child chose: a child that
/// exits on its own with a code below 256 is seen as exited, with that code,
/// and not as killed.
pub proof fn law_exit_code_read_back(code: i32)
    requires
        0 <= code < 256,
    ensures
        status_exited(exit_word(code)),
        status_exit_code(exit_word(code)) == code,
        !status_signaled(exit_word(code)),
        exited_on_its_own(exit_word(code)) == Some(code),
{
    assert((((code << 8) | 0) & 0x7f) == 0) by (bit_vector)
        requires 0 <= code < 256;
    assert(((((code << 8) | 0) >> 8) & 0xff) == code) by (bit_vector)
        requires 0 <= code < 256;
    law_exit_and_kill_exclude_each_other(exit_word(code));
}

/// The child never hands a value back to the caller: each of its steps
/// closes, runs the callable, or exits. And the code it exits with tells the
/// parent truthfully what happened: a close failure before the callable ran
/// reads as "did not execute", a write failure after it ran as "executed",
/// and a complete run as success.
pub proof fn law_child_exit_code_tells_parent_what_happened(stage: Stage, event: Event)
    requires
        is_child_stage(stage),
        fits(stage, event),
    ensures
        ({
            let (next, action) = transition(stage, event);
            match action {
                Action::RunCallable(_) => stage is ChildClosingReadEnd && next is ChildRunning,
                Action::ReportAndExit(_, err, code) => {
                    &&& stage is ChildClosingReadEnd
                    &&& err.did_not_execute()
                    &&& child_verdict(exit_word(code)) == Err::<(), MemIsolateError>(
                        MemIsolateError::CallableDidNotExecute(CallableDidNotExecuteError::ChildPipeCloseFailed(None)),
                    )
                },
                Action::Exit(code) => {
                    &&& stage is ChildRunning
                    &&& (event matches Event::Written(Ok(_)) ==> child_verdict(exit_word(code)) is Ok)
                    &&& (event matches Event::Written(Err(_)) ==> child_verdict(exit_word(code))
                        == Err::<(), MemIsolateError>(MemIsolateError::CallableExecuted(
                            CallableExecutedError::ChildPipeWriteFailed(None),
                        )))
                },
                _ => false,
            }
        }),
{
    law_exit_code_read_back(0);
    law_exit_code_read_back(3);
    law_exit_code_read_back(4);
}

/// Before the fork, every failure leaves the callable unexecuted, so it is
/// safe to retry.
pub proof fn law_failure_before_fork_did_not_execute(stage: Stage, event: Event)
    requires
        stage is Start || stage is Piped,
        fits(stage, event),
    ensures
        transition(stage, event).1 matches Action::Fail(e) ==> e.did_not_execute(),
{
}

/// After the fork, the parent says that the callable did not run only when
/// the child exited with the code for a failed close, and that it ran only
/// when the child exited with the code for a failed write; every other
/// failure leaves the callable's status unknown.
pub proof fn law_parent_failure_classified_by_child_exit_code(stage: Stage, event: Event)
    requires
        is_parent_stage(stage),
        fits(stage, event),
    ensures
        transition(stage, event).1 matches Action::Fail(e) ==> {
            &&& e.did_not_execute() ==> (event matches Event::Waited(Ok(s)) && exited_on_its_own(s) == Some(3i32))
            &&& e.executed() ==> (event matches Event::Waited(Ok(s)) && exited_on_its_own(s) == Some(4i32))
        },
{
}

/// The parent decodes a result only after the child exited on its own with
/// the happy code, and it decodes exactly the bytes it read from the pipe
/// (which it holds while it waits).
pub proof fn law_result_only_after_happy_exit(stage: Stage, event: Event)
    requires
        fits(stage, event),
    ensures
        transition(stage, event).1 matches Action::Deserialize(bytes) ==> {
            &&& stage matches Stage::ParentWaiting { read, .. } && read == Ok::<Vec<u8>, OsError>(bytes)
            &&& event matches Event::Waited(Ok(status)) && exited_on_its_own(status) == Some(0i32)
            &&& bytes@.len() > 0
        },
        transition(stage, event).0 matches Stage::ParentWaiting { read, .. } ==> {
            ||| event == Event::ReadAll(read)
            ||| stage matches Stage::ParentWaiting { read: held, .. } && held == read
        },
{
}

/// The parent reads the pipe to its end before it waits for the child, so a
/// child whose result does not fit in the pipe never blocks in its write
/// while the parent blocks in its wait: after closing its write end the
/// parent reads, and it waits only once the read is done.
pub proof fn law_parent_reads_before_it_waits(stage: Stage, event: Event)
    requires
        fits(stage, event),
    ensures
        (stage is ParentClosingWriteEnd && event == Event::Closed(Ok(())))
            ==> transition(stage, event).1 is ReadToEnd,
        transition(stage, event).1 is Waitpid ==> {
            ||| stage is ParentReading && event is ReadAll
            ||| stage is ParentWaiting
        },
{
}

/// A failed read does not end the execution: the parent still waits for
/// (and so reaps) the child, and the child's status comes first; only a
/// child that exited happily leaves the read's error to be reported.
pub proof fn law_failed_read_still_waits(child_pid: i32, read_err: OsError, status: i32)
    ensures
        transition(Stage::ParentReading { child_pid }, Event::ReadAll(Err(read_err)))
            == (Stage::ParentWaiting { child_pid, read: Err(read_err) }, Action::Waitpid(child_pid)),
        transition(
            Stage::ParentWaiting { child_pid, read: Err(read_err) },
            Event::Waited(Ok(status)),
        ).1 == Action::Fail(match child_verdict(status) {
            Err(e) => e,
            Ok(()) => MemIsolateError::CallableStatusUnknown(
                CallableStatusUnknownError::ParentPipeReadFailed(read_err),
            ),
        }),
{
}

/// How a raw `fork`, `pipe`, `close` or `waitpid` result is read: only a
/// return of `-1` is a failure, carrying the error number read right after
/// the call; any other return is a success, whatever that error number
/// still holds (a successful call does not reset it). `fork`'s `0` is the
/// child and any other value the child's pid, unchanged; `pipe`'s two
/// descriptors are the read end and the write end, in that order; `waitpid`
/// hands back the status it filled in.
pub proof fn law_raw_fork_and_pipe_results(ret: i32, errno: i32, read_fd: i32, write_fd: i32)
    ensures
        ret == -1 ==> fork_outcome(ret, errno) == Err::<ForkReturn, OsError>(OsError { code: errno }),
        ret == 0 ==> fork_outcome(ret, errno) == Ok::<ForkReturn, OsError>(ForkReturn::Child),
        ret != -1 && ret != 0 ==> fork_outcome(ret, errno) == Ok::<ForkReturn, OsError>(ForkReturn::Parent(ret)),
        ret == -1 ==> pipe_outcome(ret, read_fd, write_fd, errno) == Err::<PipeFds, OsError>(OsError { code: errno }),
        ret != -1 ==> pipe_outcome(ret, read_fd, write_fd, errno) == Ok::<PipeFds, OsError>(PipeFds { read_fd, write_fd }),
{
}

/// A `close` fails exactly when it returned `-1`, with the error number read
/// right after it; otherwise it succeeded, whatever that error number holds.
pub proof fn law_raw_close_result(ret: i32, errno: i32)
    ensures
        ret == -1 ==> close_outcome(ret, errno) == Err::<(), OsError>(OsError { code: errno }),
        ret != -1 ==> close_outcome(ret, errno) == Ok::<(), OsError>(()),
{
}

/// A `waitpid` fails exactly when it returned `-1`, with the error number
/// read right after it; otherwise it hands back the status it filled in,
/// whatever that error number holds (for instance an `EINTR` left by an
/// interrupted wait just before).
pub proof fn law_raw_waitpid_result(ret: i32, status: i32, errno: i32)
    ensures
        ret == -1 ==> waitpid_outcome(ret, status, errno) == Err::<i32, OsError>(OsError { code: errno }),
        ret != -1 ==> waitpid_outcome(ret, status, errno) == Ok::<i32, OsError>(status),
{
}

/// How a child's `waitpid` status is read, in terms of its bits: a status
/// whose low seven bits are 0 is an exit, with the code in the next eight
/// bits; 0 succeeds, 3 says the callable did not run, 4 that it ran, any
/// other code is unexpected. A status whose low seven bits are neither 0 nor
/// 0o177 is a kill, by the signal those seven bits name (a core-dump flag in
/// bit 7 is not part of the signal). Anything else is unrecognized.
pub proof fn law_child_status_read_by_its_bits(status: i32)
    ensures
        (status & 0x7f) == 0 && ((status >> 8) & 0xff) == 0
            ==> child_verdict(status) == Ok::<(), MemIsolateError>(()),
        (status & 0x7f) == 0 && ((status >> 8) & 0xff) == 3
            ==> child_verdict(status) == Err::<(), MemIsolateError>(MemIsolateError::CallableDidNotExecute(
                CallableDidNotExecuteError::ChildPipeCloseFailed(None),
            )),
        (status & 0x7f) == 0 && ((status >> 8) & 0xff) == 4
            ==> child_verdict(status) == Err::<(), MemIsolateError>(MemIsolateError::CallableExecuted(
                CallableExecutedError::ChildPipeWriteFailed(None),
            )),
        (status & 0x7f) == 0 && ((status >> 8) & 0xff) != 0 && ((status >> 8) & 0xff) != 3
            && ((status >> 8) & 0xff) != 4
            ==> child_verdict(status) == Err::<(), MemIsolateError>(MemIsolateError::CallableStatusUnknown(
                CallableStatusUnknownError::UnexpectedChildExitStatus((status >> 8) & 0xff),
            )),
        (status & 0x7f) != 0 && (status & 0x7f) != 0x7f
            ==> child_verdict(status) == Err::<(), MemIsolateError>(MemIsolateError::CallableStatusUnknown(
                CallableStatusUnknownError::ChildProcessKilledBySignal(status & 0x7f),
            )),
        (status & 0x7f) == 0x7f
            ==> child_verdict(status) == Err::<(), MemIsolateError>(MemIsolateError::CallableStatusUnknown(
                CallableStatusUnknownError::UnexpectedWaitpidReturnValue(status),
            )),
        (status & 0x7f) == 0 ==> exited_on_its_own(status) == Some((status >> 8) & 0xff),
        (status & 0x7f) != 0 && (status & 0x7f) != 0x7f ==> killed_by_signal(status) == Some(status & 0x7f),
{
    assert((status & 0x7f) != 0 && (status & 0x7f) != 0x7f ==> ((((status & 0x7f) + 1) as i8) >= 2)) by (bit_vector);
    assert((status & 0x7f) == 0x7f ==> !((((status & 0x7f) + 1) as i8) >= 2)) by (bit_vector);
}

/// Once the parent has waited, the child's status decides: whatever the
/// read gave (bytes, no bytes, or an error), a child that did not exit
/// happily ends the execution with the error its status names, a kill with
/// the signal. Only after a happy exit is the read looked at: an error is
/// reported, no bytes at all mean the child died before it wrote, and any
/// bytes, however few, are decoded, all of them.
pub proof fn law_child_status_decides_before_the_read(
    child_pid: i32,
    read: Result<Vec<u8>, OsError>,
    status: i32,
)
    ensures
        (status & 0x7f) != 0 && (status & 0x7f) != 0x7f
            ==> transition(Stage::ParentWaiting { child_pid, read }, Event::Waited(Ok(status))).1
                == Action::Fail(MemIsolateError::CallableStatusUnknown(
                    CallableStatusUnknownError::ChildProcessKilledBySignal(status & 0x7f),
                )),
        child_verdict(status) matches Err(e)
            ==> transition(Stage::ParentWaiting { child_pid, read }, Event::Waited(Ok(status))).1
                == Action::Fail(e),
        (status & 0x7f) == 0 && ((status >> 8) & 0xff) == 4
            ==> transition(Stage::ParentWaiting { child_pid, read }, Event::Waited(Ok(status))).1
                == Action::Fail(MemIsolateError::CallableExecuted(
                    CallableExecutedError::ChildPipeWriteFailed(None),
                )),
        (status & 0x7f) == 0 && ((status >> 8) & 0xff) == 0 && read is Ok && read->Ok_0@.len() > 0
            ==> transition(Stage::ParentWaiting { child_pid, read }, Event::Waited(Ok(status))).1
                == Action::Deserialize(read->Ok_0),
        (status & 0x7f) == 0 && ((status >> 8) & 0xff) == 0 && read is Ok && read->Ok_0@.len() == 0
            ==> transition(Stage::ParentWaiting { child_pid, read }, Event::Waited(Ok(status))).1
                == Action::Fail(MemIsolateError::CallableStatusUnknown(
                    CallableStatusUnknownError::CallableProcessDiedDuringExecution,
                )),
        (status & 0x7f) == 0 && ((status >> 8) & 0xff) == 0 && read is Err
            ==> transition(Stage::ParentWaiting { child_pid, read }, Event::Waited(Ok(status))).1
                == Action::Fail(MemIsolateError::CallableStatusUnknown(
                    CallableStatusUnknownError::ParentPipeReadFailed(read->Err_0),
                )),
{
    law_child_status_read_by_its_bits(status);
}

/// A `waitpid` interrupted by a signal never ends the execution: the parent
/// waits for the same child again, still holding what it read.
pub proof fn law_interrupted_wait_is_retried(child_pid: i32, read: Result<Vec<u8>, OsError>, err: OsError)
    requires
        is_eintr(err.code),
    ensures
        transition(
            Stage::ParentWaiting { child_pid, read },
            Event::Waited(Err(err)),
        ) == (Stage::ParentWaiting { child_pid, read }, Action::Waitpid(child_pid)),
{
}

/// The status that systems read differently ends the execution either way,
/// and either way leaves the callable's status unknown: the readings differ
/// only in which unknown they report.
pub proof fn law_varying_status_reading_stays_unknown(stage: Stage, event: Event)
    requires
        fits(stage, event),
        reads_varying_status(stage, event),
    ensures
        transition(stage, event).0 is Finished,
        transition(stage, event).1 matches Action::Fail(e) && e.status_unknown(),
        varying_status_outcome(stage, event).0 is Finished,
        varying_status_outcome(stage, event).1 matches Action::Fail(e) && e.status_unknown(),
{
    assert(((0x13i32 & 0x7f) == 0) == false) by (bit_vector);
}

/// Every action that is not the last asks for exactly the event that the
/// next stage waits for, and the last actions (exit, decode, fail) leave
/// nothing to do: a driver that answers each action with its result always
/// feeds `step` an event that fits.
pub proof fn law_every_action_is_answered_by_a_fitting_event(stage: Stage, event: Event, reply: Event)
    requires
        fits(stage, event),
    ensures
        answers(transition(stage, event).1, reply) ==> fits(transition(stage, event).0, reply),
        transition(stage, event).0 is Finished <==> ends_execution(transition(stage, event).1),
        reads_varying_status(stage, event) ==> varying_status_outcome(stage, event).0 is Finished
            && ends_execution(varying_status_outcome(stage, event).1),
        answers(Action::CreatePipe, reply) ==> fits(Stage::Start, reply),
{
}

/// `reply` is the event that reports the result of `action`.
pub open spec fn answers(action: Action, reply: Event) -> bool {
    match action {
        Action::CreatePipe => reply is PipeCreated,
        Action::Fork => reply is Forked,
        Action::Close(_) => reply is Closed,
        Action::Waitpid(_) => reply is Waited,
        Action::ReadToEnd(_) => reply is ReadAll,
        Action::RunCallable(_) => reply is Written,
        _ => false,
    }
}

/// The action ends this process's part of the execution.
pub open spec fn ends_execution(action: Action) -> bool {
    action is ReportAndExit || action is Exit || action is Deserialize || action is Fail
}

/// The stages of the parent process after the fork.
pub open spec fn is_parent_stage(stage: Stage) -> bool {
    stage is ParentClosingWriteEnd || stage is ParentReading || stage is ParentWaiting
}

/// The parent hands back exactly what the child sent: its value, or the
/// error it sent in place of a value.
pub proof fn law_parent_hands_back_what_child_sent<T>(sent: Result<T, MemIsolateError>)
    ensures
        deserialized(Ok::<Result<T, MemIsolateError>, String>(sent)) == sent,
{
}

/// A mock answers calls first in, first out: a behaviour queued behind others
/// does not change the answer to the next call, and stays queued behind them;
/// a behaviour queued alone answers the next call and is then used up.
pub proof fn law_mock_first_in_first_out<T>(queue: Seq<CallImplementation<T>>, imp: CallImplementation<T>)
    ensures
        queue.len() > 0 ==> answer(queue.push(imp)) == answer(queue),
        queue.len() > 0 ==> after_call(queue.push(imp)) == after_call(queue).push(imp),
        queue.len() == 0 ==> answer(queue.push(imp)) == answer(seq![imp]),
        queue.len() == 0 ==> after_call(queue.push(imp)).len() == 0,
{
    if queue.len() > 0 {
        assert(queue.push(imp).drop_first() =~= queue.drop_first().push(imp));
    } else {
        assert(queue.push(imp) =~= seq![imp]);
    }
}

/// A mock with nothing queued for a call leaves it to the real system
/// function.
pub proof fn law_mock_without_behavior_makes_real_call<T>(queue: Seq<CallImplementation<T>>)
    requires
        queue.len() == 0,
    ensures
        answer(queue) is Real,
        after_call(queue) == queue,
{
}

// ----- Whole runs -----------------------------------------------------------

/// `events` are, in order, the events that one process reports, starting at
/// `stage`, each fitting the stage it is reported in.
pub open spec fn valid_run(stage: Stage, events: Seq<Event>) -> bool
    decreases events.len(),
{
    if events.len() == 0 {
        true
    } else {
        fits(stage, events[0]) && valid_run(transition(stage, events[0]).0, events.drop_first())
    }
}

/// How many times the run asks for the callable to be run.
pub open spec fn callable_runs(stage: Stage, events: Seq<Event>) -> nat
    decreases events.len(),
{
    if events.len() == 0 {
        0
    } else {
        let (next, action) = transition(stage, events[0]);
        (if action is RunCallable { 1nat } else { 0nat }) + callable_runs(next, events.drop_first())
    }
}

/// The run ends in an error that says the callable did not run.
pub open spec fn reports_not_executed(stage: Stage, events: Seq<Event>) -> bool
    decreases events.len(),
{
    if events.len() == 0 {
        false
    } else {
        let (next, action) = transition(stage, events[0]);
        (action matches Action::Fail(e) && e.did_not_execute()) || reports_not_executed(next, events.drop_first())
    }
}

/// The run ends in an error that says the callable ran.
pub open spec fn reports_executed(stage: Stage, events: Seq<Event>) -> bool
    decreases events.len(),
{
    if events.len() == 0 {
        false
    } else {
        let (next, action) = transition(stage, events[0]);
        (action matches Action::Fail(e) && e.executed()) || reports_executed(next, events.drop_first())
    }
}

/// The bytes the run decodes as its result, if it gets that far.
pub open spec fn decodes(stage: Stage, events: Seq<Event>) -> Option<Vec<u8>>
    decreases events.len(),
{
    if events.len() == 0 {
        None
    } else {
        let (next, action) = transition(stage, events[0]);
        match action {
            Action::Deserialize(bytes) => Some(bytes),
            _ => decodes(next, events.drop_first()),
        }
    }
}

/// The code the run exits with, if it gets that far.
pub open spec fn exits_with(stage: Stage, events: Seq<Event>) -> Option<i32>
    decreases events.len(),
{
    if events.len() == 0 {
        None
    } else {
        let (next, action) = transition(stage, events[0]);
        match action {
            Action::Exit(code) => Some(code),
            Action::ReportAndExit(_, _, code) => Some(code),
            _ => exits_with(next, events.drop_first()),
        }
    }
}

/// The first bytes read from the pipe in `events`.
pub open spec fn bytes_read(events: Seq<Event>) -> Option<Vec<u8>>
    decreases events.len(),
{
    if events.len() == 0 {
        None
    } else {
        match events[0] {
            Event::ReadAll(Ok(bytes)) => Some(bytes),
            _ => bytes_read(events.drop_first()),
        }
    }
}

/// `fork` reported `ret` somewhere in `events`.
pub open spec fn forked_as(events: Seq<Event>, ret: ForkReturn) -> bool
    decreases events.len(),
{
    events.len() > 0 && (events[0] == Event::Forked(Ok(ret)) || forked_as(events.drop_first(), ret))
}

/// `fork` made this process the parent of a child, somewhere in `events`.
pub open spec fn forked_a_child(events: Seq<Event>) -> bool
    decreases events.len(),
{
    events.len() > 0 && (events[0] matches Event::Forked(Ok(ForkReturn::Parent(_))) || forked_a_child(events.drop_first()))
}

/// Every status that `waitpid` reports in `events` is that of a child that
/// exited on its own with `code`.
pub open spec fn waits_report(events: Seq<Event>, code: i32) -> bool
    decreases events.len(),
{
    events.len() == 0 || (
        (events[0] matches Event::Waited(Ok(status)) ==> status == exit_word(code))
        && waits_report(events.drop_first(), code)
    )
}

/// A child run never runs the callable more than once, and a run that is
/// past the child's first step runs it no more.
proof fn lemma_child_run(stage: Stage, events: Seq<Event>)
    requires
        is_child_stage(stage) || stage is Finished,
        valid_run(stage, events),
    ensures
        callable_runs(stage, events) <= 1,
        !(stage is ChildClosingReadEnd) ==> callable_runs(stage, events) == 0,
        !reports_not_executed(stage, events),
        !reports_executed(stage, events),
        decodes(stage, events) is None,
        !forked_a_child(events),
        !forked_as(events, ForkReturn::Child),
        exits_with(stage, events) matches Some(code) ==> {
            &&& code == 0 || code == 3 || code == 4
            &&& code == 3 ==> callable_runs(stage, events) == 0
            &&& code != 3 && stage is ChildClosingReadEnd ==> callable_runs(stage, events) == 1
        },
    decreases events.len(),
{
    if events.len() > 0 {
        let (next, _) = transition(stage, events[0]);
        assert(valid_run(next, events.drop_first()));
        lemma_child_run(next, events.drop_first());
    }
}

/// A parent run after the fork never runs the callable, and the class of
/// the error it ends with follows the code the child exited with.
proof fn lemma_parent_run(stage: Stage, events: Seq<Event>, code: i32)
    requires
        is_parent_stage(stage) || stage is Finished,
        valid_run(stage, events),
    ensures
        callable_runs(stage, events) == 0,
        !forked_a_child(events),
        !forked_as(events, ForkReturn::Child),
        waits_report(events, code) && 0 <= code < 256 ==> {
            &&& reports_not_executed(stage, events) ==> code == 3
            &&& reports_executed(stage, events) ==> code == 4
            &&& decodes(stage, events) is Some ==> code == 0 && decodes(stage, events) == match stage {
                Stage::ParentWaiting { read: Ok(buffer), .. } => Some(buffer),
                Stage::ParentWaiting { read: Err(_), .. } => None,
                _ => bytes_read(events),
            }
        },
    decreases events.len(),
{
    if 0 <= code < 256 {
        law_exit_code_read_back(code);
    }
    if events.len() > 0 {
        let (next, _) = transition(stage, events[0]);
        let rest = events.drop_first();
        assert(valid_run(next, rest));
        lemma_parent_run(next, rest, code);
    }
}

/// A run from before the fork: what `fork` makes of this process decides
/// whether it may run the callable, and how it classifies failures.
proof fn lemma_run_before_fork(stage: Stage, events: Seq<Event>, code: i32)
    requires
        stage is Start || stage is Piped,
        valid_run(stage, events),
    ensures
        callable_runs(stage, events) <= 1,
        callable_runs(stage, events) == 1 ==> forked_as(events, ForkReturn::Child),
        forked_a_child(events) ==> callable_runs(stage, events) == 0,
        waits_report(events, code) && 0 <= code < 256 ==> {
            &&& reports_not_executed(stage, events) ==> !forked_a_child(events) || code == 3
            &&& reports_executed(stage, events) ==> forked_a_child(events) && code == 4
            &&& decodes(stage, events) is Some ==> {
                &&& forked_a_child(events)
                &&& code == 0
                &&& decodes(stage, events) == bytes_read(events)
            }
        },
    decreases events.len(),
{
    if events.len() > 0 {
        let (next, _) = transition(stage, events[0]);
        let rest = events.drop_first();
        assert(valid_run(next, rest));
        if next is Piped {
            lemma_run_before_fork(next, rest, code);
        } else if next is Finished || is_child_stage(next) {
            lemma_child_run(next, rest);
        } else {
            lemma_parent_run(next, rest, code);
        }
    }
}

/// A whole run of one process, from the start: the callable is asked for at
/// most once, only in the child that `fork` made, and never in the process
/// that became the parent.
pub proof fn law_callable_runs_at_most_once_and_only_in_the_child(events: Seq<Event>)
    requires
        valid_run(Stage::Start, events),
    ensures
        callable_runs(Stage::Start, events) <= 1,
        callable_runs(Stage::Start, events) == 1 ==> forked_as(events, ForkReturn::Child),
        forked_a_child(events) ==> callable_runs(Stage::Start, events) == 0,
{
    lemma_run_before_fork(Stage::Start, events, 0);
}

/// The error an execution ends with tells whether the callable ran. The
/// parent's run and the child's run are taken together; the parent learns
/// how the child ended only from `waitpid`, which reports the code the child
/// exited with (the callable returns; it does not end the child itself).
/// Then: an error that says "did not execute" comes either before any child
/// was forked or from a child that never ran the callable; an error that says
/// "executed" comes from a child that ran it; and a decoded result comes from
/// a child that ran it and exited happily, and is exactly what the parent
/// read from the pipe.
pub proof fn law_error_class_tells_whether_callable_ran(
    parent_events: Seq<Event>,
    child_events: Seq<Event>,
    write_fd: i32,
    code: i32,
)
    requires
        valid_run(Stage::Start, parent_events),
        valid_run(Stage::ChildClosingReadEnd { write_fd }, child_events),
        exits_with(Stage::ChildClosingReadEnd { write_fd }, child_events) == Some(code),
        waits_report(parent_events, code),
    ensures
        reports_not_executed(Stage::Start, parent_events) ==> !forked_a_child(parent_events)
            || callable_runs(Stage::ChildClosingReadEnd { write_fd }, child_events) == 0,
        reports_executed(Stage::Start, parent_events) ==> forked_a_child(parent_events)
            && callable_runs(Stage::ChildClosingReadEnd { write_fd }, child_events) == 1,
        decodes(Stage::Start, parent_events) is Some ==> {
            &&& forked_a_child(parent_events)
            &&& callable_runs(Stage::ChildClosingReadEnd { write_fd }, child_events) == 1
            &&& code == 0
            &&& decodes(Stage::Start, parent_events) == bytes_read(parent_events)
        },
{
    lemma_child_run(Stage::ChildClosingReadEnd { write_fd }, child_events);
    lemma_run_before_fork(Stage::Start, parent_events, code);
}

} // verus!
