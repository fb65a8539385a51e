//! Whole terminations: the engine run to its end against a process whose
//! answers are known, and what every such run has in common.

use vstd::prelude::*;
use crate::engine::first_action;
use crate::engine::react;
use crate::engine::Action;
use crate::engine::Event;
use crate::engine::Step;
use crate::error::Error;
use crate::strategy::ProcessTermination;
use crate::strategy::Waiting;

verus! {

/// A process as the engine sees it: for each operation, the event that the
/// operation reports. No strategy performs an operation twice, so one event
/// per operation describes the process for a whole termination.
pub struct Script<S> {
    /// What sending Ctrl+C reports.
    pub ctrl_c: Event<S>,
    /// What the unbounded wait reports.
    pub wait: Event<S>,
    /// What the bounded wait reports.
    pub wait_timeout: Event<S>,
    /// What the kill reports.
    pub kill: Event<S>,
}

impl<S> Script<S> {
    /// The event that `action` reports.
    pub open spec fn answer(self, action: Action) -> Event<S> {
        match action {
            Action::Wait => self.wait,
            Action::WaitTimeout(_) => self.wait_timeout,
            Action::CtrlC => self.ctrl_c,
            Action::Kill => self.kill,
        }
    }
}

/// A termination that was run: the operations performed, in order, and the
/// result, which is `None` where the run was cut short.
pub struct Run<S> {
    pub operations: Seq<Action>,
    pub result: Option<Result<Option<S>, Error>>,
}

/// Follows the engine from `step` on, answering each operation from
/// `script`, for at most `limit` operations.
pub open spec fn run_from<S>(
    termination: ProcessTermination,
    step: Step<S>,
    script: Script<S>,
    limit: nat,
) -> Run<S>
    decreases limit,
{
    match step {
        Step::Finished(result) => Run { operations: Seq::empty(), result: Some(result) },
        Step::Perform(action) => if limit == 0 {
            Run { operations: Seq::empty(), result: None }
        } else {
            let rest = run_from(
                termination,
                react(termination, action, script.answer(action)),
                script,
                (limit - 1) as nat,
            );
            Run { operations: seq![action] + rest.operations, result: rest.result }
        },
    }
}

/// The termination of `script` under `termination`, from its opening
/// operation. Three operations are the most any strategy performs.
pub open spec fn run<S>(termination: ProcessTermination, script: Script<S>) -> Run<S> {
    run_from(termination, Step::Perform(first_action(termination)), script, 3)
}

/// The failure that keeps a signal from counting as sent, if there is one.
pub open spec fn refusal<S>(event: Event<S>) -> Option<Error> {
    match event {
        Event::Completed => None,
        Event::Failed(error) => Some(error),
        _ => Some(Error::UnknownError()),
    }
}

/// The result of a wait that nothing follows.
pub open spec fn waited<S>(event: Event<S>, bounded: bool) -> Result<Option<S>, Error> {
    match event {
        Event::Exited(status) => Ok(Some(status)),
        Event::TimedOut => if bounded {
            Err(Error::Timeout)
        } else {
            Err(Error::UnknownError())
        },
        Event::Completed => Err(Error::UnknownError()),
        Event::Failed(error) => Err(error),
    }
}

/// The result of the wait of `termination` and of the kill that may follow
/// it.
pub open spec fn wait_result<S>(termination: ProcessTermination, script: Script<S>) -> Result<
    Option<S>,
    Error,
> {
    match termination.waiting() {
        Waiting::NoWait => Ok(None),
        Waiting::Unbounded => waited(script.wait, false),
        Waiting::Bounded(_) => if termination.kills_on_timeout() && script.wait_timeout
            is TimedOut {
            match refusal(script.kill) {
                Some(error) => Err(error),
                None => Ok(None),
            }
        } else {
            waited(script.wait_timeout, true)
        },
    }
}

/// The operations of the wait of `termination` and of the kill that may
/// follow it.
pub open spec fn wait_operations<S>(
    termination: ProcessTermination,
    script: Script<S>,
) -> Seq<Action> {
    match termination.waiting() {
        Waiting::NoWait => Seq::empty(),
        Waiting::Unbounded => seq![Action::Wait],
        Waiting::Bounded(timeout) => if termination.kills_on_timeout() && script.wait_timeout
            is TimedOut {
            seq![Action::WaitTimeout(timeout), Action::Kill]
        } else {
            seq![Action::WaitTimeout(timeout)]
        },
    }
}

/// What terminating `script` under `termination` returns: the opening signal
/// first, whose failure ends everything, then the wait and its fallback.
pub open spec fn outcome<S>(termination: ProcessTermination, script: Script<S>) -> Result<
    Option<S>,
    Error,
> {
    if termination.sends_ctrl_c() {
        match refusal(script.ctrl_c) {
            Some(error) => Err(error),
            None => wait_result(termination, script),
        }
    } else if termination.kills_first() {
        match refusal(script.kill) {
            Some(error) => Err(error),
            None => wait_result(termination, script),
        }
    } else {
        wait_result(termination, script)
    }
}

/// The operations that terminating `script` under `termination` performs, in
/// order.
pub open spec fn operations<S>(termination: ProcessTermination, script: Script<S>) -> Seq<
    Action,
> {
    if termination.sends_ctrl_c() {
        if script.ctrl_c is Completed {
            seq![Action::CtrlC] + wait_operations(termination, script)
        } else {
            seq![Action::CtrlC]
        }
    } else if termination.kills_first() {
        if script.kill is Completed {
            seq![Action::Kill] + wait_operations(termination, script)
        } else {
            seq![Action::Kill]
        }
    } else {
        wait_operations(termination, script)
    }
}

/// The engine, followed step by step, ends within three operations, performs
/// exactly the operations that the strategy describes and returns exactly
/// what the strategy describes, whatever the process answers.
pub proof fn lemma_run_is_outcome<S>(termination: ProcessTermination, script: Script<S>)
    ensures
        run(termination, script).result == Some(outcome(termination, script)),
        run(termination, script).operations == operations(termination, script),
{
    reveal_with_fuel(run_from, 4);
    let first = first_action(termination);
    let second = react(termination, first, script.answer(first));
    assert(run(termination, script).operations =~= operations(termination, script));
}

/// Every termination performs at least one operation, at most three, and
/// none of them twice. This is why one event per operation is enough to
/// describe the process.
pub proof fn lemma_operations_few_and_distinct<S>(termination: ProcessTermination, script: Script<S>)
    ensures
        1 <= run(termination, script).operations.len() <= 3,
        run(termination, script).operations.no_duplicates(),
{
    lemma_run_is_outcome(termination, script);
}

/// Whether the signal that opens `termination`, if it has one, goes out
/// under `script`.
pub open spec fn opening_succeeds<S>(termination: ProcessTermination, script: Script<S>) -> bool {
    &&& termination.sends_ctrl_c() ==> script.ctrl_c is Completed
    &&& termination.kills_first() ==> script.kill is Completed
}

/// A strategy with a bounded wait and no kill fallback, run on a process
/// that outlives the timeout, ends in [`Error::Timeout`] and never kills the
/// process, provided that its opening Ctrl+C, if it has one, was delivered.
pub proof fn lemma_timeout_without_fallback<S>(termination: ProcessTermination, script: Script<S>)
    requires
        termination.has_timeout(),
        !termination.kills_on_timeout(),
        opening_succeeds(termination, script),
        script.wait_timeout is TimedOut,
    ensures
        run(termination, script).result == Some(Err::<Option<S>, Error>(Error::Timeout)),
        !run(termination, script).operations.contains(Action::Kill),
{
    lemma_run_is_outcome(termination, script);
}

/// A strategy with a kill fallback, run on a process that outlives the
/// timeout, kills the process as its last operation and ends in `Ok(None)`,
/// provided that its opening Ctrl+C, if it has one, was delivered and that
/// the kill went through.
pub proof fn lemma_timeout_with_fallback<S>(termination: ProcessTermination, script: Script<S>)
    requires
        termination.kills_on_timeout(),
        opening_succeeds(termination, script),
        script.wait_timeout is TimedOut,
        script.kill is Completed,
    ensures
        run(termination, script).result == Some(Ok::<Option<S>, Error>(None)),
        run(termination, script).operations.len() > 0,
        run(termination, script).operations.last() == Action::Kill,
{
    lemma_run_is_outcome(termination, script);
}

/// A strategy that waits without bound, run on a process that exits, ends in
/// the exit status that the wait saw, provided that its opening signal, if
/// it has one, went out.
pub proof fn lemma_unbounded_wait_reports_status<S>(
    termination: ProcessTermination,
    script: Script<S>,
    status: S,
)
    requires
        termination.waits_indefinitely(),
        opening_succeeds(termination, script),
        script.wait == Event::Exited(status),
    ensures
        run(termination, script).result == Some(Ok::<Option<S>, Error>(Some(status))),
        run(termination, script).operations.len() > 0,
        run(termination, script).operations.last() == Action::Wait,
{
    lemma_run_is_outcome(termination, script);
}

/// A strategy that opens with a signal, Ctrl+C or the kill, performs
/// nothing else before the signal has gone out; where the signal fails,
/// nothing else is performed at all and the failure is the result.
pub proof fn lemma_signal_precedes_wait<S>(termination: ProcessTermination, script: Script<S>)
    requires
        termination.sends_ctrl_c() || termination.kills_first(),
    ensures
        run(termination, script).operations.len() > 0,
        run(termination, script).operations[0] == first_action(termination),
        first_action(termination) == if termination.sends_ctrl_c() {
            Action::CtrlC
        } else {
            Action::Kill
        },
        script.answer(first_action(termination)) matches Event::Failed(error) ==> {
            &&& run(termination, script).operations == seq![first_action(termination)]
            &&& run(termination, script).result == Some(Err::<Option<S>, Error>(error))
        },
{
    lemma_run_is_outcome(termination, script);
}

} // verus!
