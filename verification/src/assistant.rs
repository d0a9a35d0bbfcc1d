//! The assistant's main cycle as a state machine: listen, think, execute,
//! inform, with a check for a shutdown request around every outside step.
//!
//! The machine decides; whoever drives it performs each [`Command`] (reading
//! input, printing, running an action, cleaning up) and feeds back the
//! matching [`Event`].

use vstd::prelude::*;
use vstd::string::*;
use crate::types::{Action, Decision, ReplyKind, UserRequest};

verus! {

pub const STARTUP_MESSAGE: &'static str = "JARVIS запущен. Уже доступны текстовые команды, запись микрофона и debug-воспроизведение последней записи. Напиши `помощь` или попробуй `слушай 5`.";

pub const SHUTDOWN_REQUESTED_MESSAGE: &'static str = "Получен Ctrl+C. Завершаю работу.";

pub const INPUT_CLOSED_MESSAGE: &'static str = "Входной поток закрыт. Завершаю работу.";

pub const EXECUTION_ERROR_PREFIX: &'static str = "Во время исполнения произошла ошибка: ";

pub const CLEANUP_FAILED_PREFIX: &'static str =
    "JARVIS завершил работу, но cleanup временных записей завершился ошибкой: ";

pub const CLEANUP_ALSO_FAILED: &'static str =
    "\nДополнительно cleanup временных записей завершился ошибкой: ";

/// The points of the cycle at which a shutdown request is looked for, with
/// what the cycle carries past that point.
pub enum Checkpoint {
    /// At the top of the cycle, before reading a request.
    BeforeListen,
    /// Right after reading; `None` means the input was closed.
    AfterListen(Option<UserRequest>),
    /// Before announcing that the input is closed.
    InputClosed,
    /// After an action ran, before reporting on it.
    AfterExecution { report: Result<String, String>, should_exit: bool },
}

/// Where the assistant is in its run.
pub enum Stage {
    /// Not started.
    Created,
    /// The startup message is being shown.
    AwaitingStartupInform,
    /// A shutdown request is being looked for.
    AwaitingShutdownCheck(Checkpoint),
    /// The shutdown notice is being shown.
    AwaitingShutdownNotice,
    /// A request is being read.
    AwaitingRequest,
    /// The input-closed notice is being shown.
    AwaitingClosedNotice,
    /// The brain is deciding.
    AwaitingDecision,
    /// The decision's message is being shown.
    AwaitingDecisionInform { action: Option<Action>, should_exit: bool },
    /// The decision's action is running.
    AwaitingExecution { should_exit: bool },
    /// The action's report is being shown.
    AwaitingReportInform { should_exit: bool },
    /// The cycle ended with `run_result`; the executor is cleaning up.
    AwaitingExecutorShutdown { run_result: Result<(), String> },
    /// The run is over.
    Finished,
}

/// The outside work the driver performs next.
pub enum Command {
    /// Show `message` as a reply of kind `kind`.
    Inform { kind: ReplyKind, message: String },
    /// Look whether a shutdown was requested.
    CheckShutdown,
    /// Read the next request.
    Listen,
    /// Ask the brain for a decision on `request`.
    Think { request: UserRequest },
    /// Run `action`.
    Execute { action: Action },
    /// Let the executor clean up.
    ShutdownExecutor,
    /// The run is over with `result`.
    Finish { result: Result<(), String> },
}

/// What the outside work gave.
pub enum Event {
    Informed(Result<(), String>),
    ShutdownChecked(bool),
    Listened(Result<Option<UserRequest>, String>),
    Thought(Decision),
    Executed(Result<String, String>),
    ExecutorShutDown(Result<(), String>),
}

// ---------------------------------------------------------------------------
// The transition relation
// ---------------------------------------------------------------------------

/// Whether `stage` waits for an event of the kind of `event`.
pub open spec fn expects(stage: Stage, event: Event) -> bool {
    match stage {
        Stage::AwaitingStartupInform | Stage::AwaitingShutdownNotice
        | Stage::AwaitingClosedNotice | Stage::AwaitingDecisionInform { .. }
        | Stage::AwaitingReportInform { .. } => event is Informed,
        Stage::AwaitingShutdownCheck(_) => event is ShutdownChecked,
        Stage::AwaitingRequest => event is Listened,
        Stage::AwaitingDecision => event is Thought,
        Stage::AwaitingExecution { .. } => event is Executed,
        Stage::AwaitingExecutorShutdown { .. } => event is ExecutorShutDown,
        Stage::Created | Stage::Finished => false,
    }
}

/// Whether `event` is the kind of answer that `command` asks for.
pub open spec fn answers(command: Command, event: Event) -> bool {
    match command {
        Command::Inform { .. } => event is Informed,
        Command::CheckShutdown => event is ShutdownChecked,
        Command::Listen => event is Listened,
        Command::Think { .. } => event is Thought,
        Command::Execute { .. } => event is Executed,
        Command::ShutdownExecutor => event is ExecutorShutDown,
        Command::Finish { .. } => false,
    }
}

/// Whether `command` shows `message` as a reply of kind `kind`.
pub open spec fn informs(command: Command, kind: ReplyKind, message: Seq<char>) -> bool {
    command matches Command::Inform { kind: k, message: m } && k == kind && m@ == message
}

/// The cycle ended with `run_result`: the executor cleans up next.
pub open spec fn ends_cycle(run_result: Result<(), String>, post: Stage, command: Command) -> bool {
    post == (Stage::AwaitingExecutorShutdown { run_result }) && command == Command::ShutdownExecutor
}

/// Back to the top of the cycle, or out of it when the decision asked to exit.
pub open spec fn cycle_tail(should_exit: bool, post: Stage, command: Command) -> bool {
    if should_exit {
        ends_cycle(Ok(()), post, command)
    } else {
        post == Stage::AwaitingShutdownCheck(Checkpoint::BeforeListen) && command
            == Command::CheckShutdown
    }
}

/// After a decision's message: run its action, if any, else finish the cycle.
pub open spec fn after_message(
    action: Option<Action>,
    should_exit: bool,
    post: Stage,
    command: Command,
) -> bool {
    match action {
        Some(a) => post == (Stage::AwaitingExecution { should_exit }) && command == (
        Command::Execute { action: a }),
        None => cycle_tail(should_exit, post, command),
    }
}

/// The step taken when no shutdown was requested at checkpoint `at`.
pub open spec fn past_checkpoint(at: Checkpoint, post: Stage, command: Command) -> bool {
    match at {
        Checkpoint::BeforeListen => post == Stage::AwaitingRequest && command == Command::Listen,
        Checkpoint::AfterListen(Some(request)) => post == Stage::AwaitingDecision && command == (
        Command::Think { request }),
        Checkpoint::AfterListen(None) => post == Stage::AwaitingShutdownCheck(
            Checkpoint::InputClosed,
        ) && command == Command::CheckShutdown,
        Checkpoint::InputClosed => post == Stage::AwaitingClosedNotice && informs(
            command,
            ReplyKind::Info,
            INPUT_CLOSED_MESSAGE@,
        ),
        Checkpoint::AfterExecution { report, should_exit } => post == (
        Stage::AwaitingReportInform { should_exit }) && match report {
            Ok(text) => command == (Command::Inform { kind: ReplyKind::Execution, message: text }),
            Err(error) => informs(
                command,
                ReplyKind::Error,
                EXECUTION_ERROR_PREFIX@ + error@,
            ),
        },
    }
}

/// What a run ended with, given the cycle's result and the executor's cleanup.
pub open spec fn run_outcome(run_result: Result<(), String>, cleanup: Result<(), String>) -> Result<
    (),
    Seq<char>,
> {
    match (run_result, cleanup) {
        (Ok(()), Ok(())) => Ok(()),
        (Err(run_error), Ok(())) => Err(run_error@),
        (Ok(()), Err(cleanup_error)) => Err(CLEANUP_FAILED_PREFIX@ + cleanup_error@),
        (Err(run_error), Err(cleanup_error)) => Err(
            run_error@ + CLEANUP_ALSO_FAILED@ + cleanup_error@,
        ),
    }
}

/// The model of a run's result.
pub open spec fn result_view(r: Result<(), String>) -> Result<(), Seq<char>> {
    match r {
        Ok(()) => Ok(()),
        Err(e) => Err(e@),
    }
}

/// One step of the assistant: from `pre`, on `event`, it moves to `post` and
/// asks for `command`.
pub open spec fn transition(pre: Stage, event: Event, post: Stage, command: Command) -> bool {
    match (pre, event) {
        (Stage::AwaitingStartupInform, Event::Informed(Ok(()))) => post
            == Stage::AwaitingShutdownCheck(Checkpoint::BeforeListen) && command
            == Command::CheckShutdown,
        (Stage::AwaitingStartupInform, Event::Informed(Err(error))) => post == Stage::Finished
            && command == (Command::Finish { result: Err(error) }),
        (Stage::AwaitingShutdownCheck(_), Event::ShutdownChecked(true)) => post
            == Stage::AwaitingShutdownNotice && informs(
            command,
            ReplyKind::Info,
            SHUTDOWN_REQUESTED_MESSAGE@,
        ),
        (Stage::AwaitingShutdownCheck(at), Event::ShutdownChecked(false)) => past_checkpoint(
            at,
            post,
            command,
        ),
        (Stage::AwaitingShutdownNotice, Event::Informed(Ok(()))) => ends_cycle(
            Ok(()),
            post,
            command,
        ),
        (Stage::AwaitingShutdownNotice, Event::Informed(Err(error))) => ends_cycle(
            Err(error),
            post,
            command,
        ),
        (Stage::AwaitingRequest, Event::Listened(Ok(request))) => post
            == Stage::AwaitingShutdownCheck(Checkpoint::AfterListen(request)) && command
            == Command::CheckShutdown,
        (Stage::AwaitingRequest, Event::Listened(Err(error))) => ends_cycle(
            Err(error),
            post,
            command,
        ),
        (Stage::AwaitingClosedNotice, Event::Informed(Ok(()))) => ends_cycle(
            Ok(()),
            post,
            command,
        ),
        (Stage::AwaitingClosedNotice, Event::Informed(Err(error))) => ends_cycle(
            Err(error),
            post,
            command,
        ),
        (Stage::AwaitingDecision, Event::Thought(decision)) => if decision.message@.len() > 0 {
            post == (Stage::AwaitingDecisionInform {
                action: decision.action,
                should_exit: decision.should_exit,
            }) && command == (Command::Inform {
                kind: decision.kind,
                message: decision.message,
            })
        } else {
            after_message(decision.action, decision.should_exit, post, command)
        },
        (
            Stage::AwaitingDecisionInform { action, should_exit },
            Event::Informed(Ok(())),
        ) => after_message(action, should_exit, post, command),
        (Stage::AwaitingDecisionInform { .. }, Event::Informed(Err(error))) => ends_cycle(
            Err(error),
            post,
            command,
        ),
        (Stage::AwaitingExecution { should_exit }, Event::Executed(report)) => post
            == Stage::AwaitingShutdownCheck(Checkpoint::AfterExecution { report, should_exit })
            && command == Command::CheckShutdown,
        (Stage::AwaitingReportInform { should_exit }, Event::Informed(Ok(()))) => cycle_tail(
            should_exit,
            post,
            command,
        ),
        (Stage::AwaitingReportInform { .. }, Event::Informed(Err(error))) => ends_cycle(
            Err(error),
            post,
            command,
        ),
        (
            Stage::AwaitingExecutorShutdown { run_result },
            Event::ExecutorShutDown(cleanup),
        ) => post == Stage::Finished && match command {
            Command::Finish { result } => result_view(result) == run_outcome(run_result, cleanup),
            _ => false,
        },
        _ => false,
    }
}

// ---------------------------------------------------------------------------
// The machine
// ---------------------------------------------------------------------------

/// The assistant's decision state machine.
pub struct Assistant {
    stage: Stage,
}

/// The result of a run from the cycle's result and the executor's cleanup.
pub fn combine_run_results(run_result: Result<(), String>, cleanup: Result<(), String>) -> (r:
    Result<(), String>)
    ensures
        result_view(r) == run_outcome(run_result, cleanup),
{
    match (run_result, cleanup) {
        (Ok(()), Ok(())) => Ok(()),
        (Err(run_error), Ok(())) => Err(run_error),
        (Ok(()), Err(cleanup_error)) => {
            let mut message = String::from_str(CLEANUP_FAILED_PREFIX);
            message.append(cleanup_error.as_str());
            Err(message)
        },
        (Err(run_error), Err(cleanup_error)) => {
            let mut message = run_error;
            message.append(CLEANUP_ALSO_FAILED);
            message.append(cleanup_error.as_str());
            Err(message)
        },
    }
}

fn inform_command(kind: ReplyKind, message: &str) -> (c: Command)
    ensures
        informs(c, kind, message@),
{
    Command::Inform { kind, message: String::from_str(message) }
}

fn after_message_step(action: Option<Action>, should_exit: bool) -> (r: (Stage, Command))
    ensures
        after_message(action, should_exit, r.0, r.1),
{
    match action {
        Some(a) => (Stage::AwaitingExecution { should_exit }, Command::Execute { action: a }),
        None => cycle_tail_step(should_exit),
    }
}

fn cycle_tail_step(should_exit: bool) -> (r: (Stage, Command))
    ensures
        cycle_tail(should_exit, r.0, r.1),
{
    if should_exit {
        (Stage::AwaitingExecutorShutdown { run_result: Ok(()) }, Command::ShutdownExecutor)
    } else {
        (Stage::AwaitingShutdownCheck(Checkpoint::BeforeListen), Command::CheckShutdown)
    }
}

fn past_checkpoint_step(at: Checkpoint) -> (r: (Stage, Command))
    ensures
        past_checkpoint(at, r.0, r.1),
{
    match at {
        Checkpoint::BeforeListen => (Stage::AwaitingRequest, Command::Listen),
        Checkpoint::AfterListen(Some(request)) => (
            Stage::AwaitingDecision,
            Command::Think { request },
        ),
        Checkpoint::AfterListen(None) => (
            Stage::AwaitingShutdownCheck(Checkpoint::InputClosed),
            Command::CheckShutdown,
        ),
        Checkpoint::InputClosed => (
            Stage::AwaitingClosedNotice,
            inform_command(ReplyKind::Info, INPUT_CLOSED_MESSAGE),
        ),
        Checkpoint::AfterExecution { report, should_exit } => {
            let command = match report {
                Ok(text) => Command::Inform { kind: ReplyKind::Execution, message: text },
                Err(error) => {
                    let mut message = String::from_str(EXECUTION_ERROR_PREFIX);
                    message.append(error.as_str());
                    Command::Inform { kind: ReplyKind::Error, message }
                },
            };
            (Stage::AwaitingReportInform { should_exit }, command)
        },
    }
}

impl Assistant {
    /// The stage the assistant is in.
    pub closed spec fn stage(&self) -> Stage {
        self.stage
    }

    /// A fresh assistant that has not started yet.
    pub fn new() -> (a: Self)
        ensures
            a.stage() == Stage::Created,
    {
        Assistant { stage: Stage::Created }
    }

    /// Starts a run: the first thing to do is to show the startup message.
    pub fn run(&mut self) -> (c: Command)
        requires
            old(self).stage() == Stage::Created,
        ensures
            final(self).stage() == Stage::AwaitingStartupInform,
            informs(c, ReplyKind::Info, STARTUP_MESSAGE@),
    {
        self.stage = Stage::AwaitingStartupInform;
        inform_command(ReplyKind::Info, STARTUP_MESSAGE)
    }

    /// Whether the assistant waits for an event of the kind of `event`.
    pub fn expects(&self, event: &Event) -> (r: bool)
        ensures
            r == expects(self.stage(), *event),
    {
        match (&self.stage, event) {
            (Stage::AwaitingStartupInform, Event::Informed(_)) => true,
            (Stage::AwaitingShutdownNotice, Event::Informed(_)) => true,
            (Stage::AwaitingClosedNotice, Event::Informed(_)) => true,
            (Stage::AwaitingDecisionInform { .. }, Event::Informed(_)) => true,
            (Stage::AwaitingReportInform { .. }, Event::Informed(_)) => true,
            (Stage::AwaitingShutdownCheck(_), Event::ShutdownChecked(_)) => true,
            (Stage::AwaitingRequest, Event::Listened(_)) => true,
            (Stage::AwaitingDecision, Event::Thought(_)) => true,
            (Stage::AwaitingExecution { .. }, Event::Executed(_)) => true,
            (Stage::AwaitingExecutorShutdown { .. }, Event::ExecutorShutDown(_)) => true,
            _ => false,
        }
    }

    /// Whether the run is over.
    pub fn is_finished(&self) -> (r: bool)
        ensures
            r == (self.stage() == Stage::Finished),
    {
        match self.stage {
            Stage::Finished => true,
            _ => false,
        }
    }

    /// Takes the result of the last command and gives the next one.
    pub fn step(&mut self, event: Event) -> (c: Command)
        requires
            expects(old(self).stage(), event),
        ensures
            transition(old(self).stage(), event, final(self).stage(), c),
    {
        let mut stage = Stage::Finished;
        std::mem::swap(&mut stage, &mut self.stage);
        let (next, command) = match (stage, event) {
            (Stage::AwaitingStartupInform, Event::Informed(Ok(()))) => (
                Stage::AwaitingShutdownCheck(Checkpoint::BeforeListen),
                Command::CheckShutdown,
            ),
            (Stage::AwaitingStartupInform, Event::Informed(Err(error))) => (
                Stage::Finished,
                Command::Finish { result: Err(error) },
            ),
            (Stage::AwaitingShutdownCheck(at), Event::ShutdownChecked(requested)) => {
                if requested {
                    (
                        Stage::AwaitingShutdownNotice,
                        inform_command(ReplyKind::Info, SHUTDOWN_REQUESTED_MESSAGE),
                    )
                } else {
                    past_checkpoint_step(at)
                }
            },
            (Stage::AwaitingShutdownNotice, Event::Informed(Ok(()))) => (
                Stage::AwaitingExecutorShutdown { run_result: Ok(()) },
                Command::ShutdownExecutor,
            ),
            (Stage::AwaitingShutdownNotice, Event::Informed(Err(error))) => (
                Stage::AwaitingExecutorShutdown { run_result: Err(error) },
                Command::ShutdownExecutor,
            ),
            (Stage::AwaitingRequest, Event::Listened(Ok(request))) => (
                Stage::AwaitingShutdownCheck(Checkpoint::AfterListen(request)),
                Command::CheckShutdown,
            ),
            (Stage::AwaitingRequest, Event::Listened(Err(error))) => (
                Stage::AwaitingExecutorShutdown { run_result: Err(error) },
                Command::ShutdownExecutor,
            ),
            (Stage::AwaitingClosedNotice, Event::Informed(Ok(()))) => (
                Stage::AwaitingExecutorShutdown { run_result: Ok(()) },
                Command::ShutdownExecutor,
            ),
            (Stage::AwaitingClosedNotice, Event::Informed(Err(error))) => (
                Stage::AwaitingExecutorShutdown { run_result: Err(error) },
                Command::ShutdownExecutor,
            ),
            (Stage::AwaitingDecision, Event::Thought(decision)) => {
                if decision.message.as_str().is_empty() {
                    after_message_step(decision.action, decision.should_exit)
                } else {
                    (
                        Stage::AwaitingDecisionInform {
                            action: decision.action,
                            should_exit: decision.should_exit,
                        },
                        Command::Inform { kind: decision.kind, message: decision.message },
                    )
                }
            },
            (
                Stage::AwaitingDecisionInform { action, should_exit },
                Event::Informed(Ok(())),
            ) => after_message_step(action, should_exit),
            (Stage::AwaitingDecisionInform { .. }, Event::Informed(Err(error))) => (
                Stage::AwaitingExecutorShutdown { run_result: Err(error) },
                Command::ShutdownExecutor,
            ),
            (Stage::AwaitingExecution { should_exit }, Event::Executed(report)) => (
                Stage::AwaitingShutdownCheck(Checkpoint::AfterExecution { report, should_exit }),
                Command::CheckShutdown,
            ),
            (Stage::AwaitingReportInform { should_exit }, Event::Informed(Ok(()))) =>
                cycle_tail_step(should_exit),
            (Stage::AwaitingReportInform { .. }, Event::Informed(Err(error))) => (
                Stage::AwaitingExecutorShutdown { run_result: Err(error) },
                Command::ShutdownExecutor,
            ),
            (
                Stage::AwaitingExecutorShutdown { run_result },
                Event::ExecutorShutDown(cleanup),
            ) => (Stage::Finished, Command::Finish { result: combine_run_results(run_result, cleanup) }),
            (_, _) => {
                proof {
                    assert(false);
                }
                (Stage::Finished, Command::Finish { result: Ok(()) })
            },
        };
        self.stage = next;
        command
    }
}


// ---------------------------------------------------------------------------
// Laws of the cycle
// ---------------------------------------------------------------------------

/// Every command but `Finish` names the event that comes next: the stage the
/// assistant moves to waits for exactly that answer; `Finish` ends the run.
pub proof fn lemma_command_names_next_event(
    pre: Stage,
    event: Event,
    post: Stage,
    command: Command,
    answer: Event,
)
    requires
        transition(pre, event, post, command),
    ensures
        (command is Finish) == (post == Stage::Finished),
        answers(command, answer) ==> expects(post, answer),
        expects(post, answer) ==> answers(command, answer),
{
}

/// A run ends only after the executor cleaned up, unless the startup message
/// itself could not be shown.
pub proof fn lemma_finish_only_after_cleanup(pre: Stage, event: Event, post: Stage, command: Command)
    requires
        transition(pre, event, post, command),
        command is Finish,
    ensures
        pre is AwaitingExecutorShutdown || (pre == Stage::AwaitingStartupInform
            && event matches Event::Informed(Err(_))),
{
}

/// A shutdown request, wherever it is noticed, is announced and then ends the
/// cycle, whether or not the announcement could be shown.
pub proof fn lemma_shutdown_request_ends_cycle(
    pre: Stage,
    mid: Stage,
    announce: Command,
    event: Event,
    post: Stage,
    command: Command,
)
    requires
        transition(pre, Event::ShutdownChecked(true), mid, announce),
        transition(mid, event, post, command),
    ensures
        informs(announce, ReplyKind::Info, SHUTDOWN_REQUESTED_MESSAGE@),
        command == Command::ShutdownExecutor,
        post is AwaitingExecutorShutdown,
{
}

/// A decision that asks to exit leaves the cycle once its message and its
/// report are shown: the assistant does not read another request.
pub proof fn lemma_exit_leaves_cycle(pre: Stage, event: Event, post: Stage, command: Command)
    requires
        transition(pre, event, post, command),
        pre matches Stage::AwaitingReportInform { should_exit: true }
            || pre matches Stage::AwaitingDecisionInform { action: None, should_exit: true },
    ensures
        command == Command::ShutdownExecutor,
        post is AwaitingExecutorShutdown,
{
}

/// A shown reply that carries no action goes back to the top of the cycle
/// (a shutdown check, then the next request) unless the decision asked to
/// exit: the cycle ends on such a reply exactly when `should_exit` is set.
pub proof fn lemma_plain_reply_continues(should_exit: bool, post: Stage, command: Command)
    requires
        transition(
            Stage::AwaitingDecisionInform { action: None, should_exit },
            Event::Informed(Ok(())),
            post,
            command,
        ),
    ensures
        !should_exit ==> post == Stage::AwaitingShutdownCheck(Checkpoint::BeforeListen)
            && command == Command::CheckShutdown,
        (post is AwaitingExecutorShutdown) <==> should_exit,
        (command == Command::ShutdownExecutor) <==> should_exit,
{
}

/// Once an action's report is shown, the assistant goes back to the top of
/// the cycle unless the decision asked to exit, and ends the cycle exactly
/// when it did.
pub proof fn lemma_report_then_next_request(should_exit: bool, post: Stage, command: Command)
    requires
        transition(
            Stage::AwaitingReportInform { should_exit },
            Event::Informed(Ok(())),
            post,
            command,
        ),
    ensures
        !should_exit ==> post == Stage::AwaitingShutdownCheck(Checkpoint::BeforeListen)
            && command == Command::CheckShutdown,
        (post is AwaitingExecutorShutdown) <==> should_exit,
{
}

/// A decision with a message, no action and no request to exit is shown and
/// then the assistant looks for a shutdown before reading the next request;
/// it never leaves the cycle on such a decision.
pub proof fn lemma_reply_then_next_request(
    decision: Decision,
    mid: Stage,
    show: Command,
    post: Stage,
    command: Command,
)
    requires
        decision.message@.len() > 0,
        decision.action is None,
        !decision.should_exit,
        transition(Stage::AwaitingDecision, Event::Thought(decision), mid, show),
        transition(mid, Event::Informed(Ok(())), post, command),
    ensures
        show == (Command::Inform { kind: decision.kind, message: decision.message }),
        post == Stage::AwaitingShutdownCheck(Checkpoint::BeforeListen),
        command == Command::CheckShutdown,
{
}

/// When no shutdown is requested, an action's report is shown as an
/// execution reply, and its error as an error reply with the standard prefix.
pub proof fn lemma_execution_is_reported(
    should_exit: bool,
    report: Result<String, String>,
    mid: Stage,
    check: Command,
    post: Stage,
    command: Command,
)
    requires
        transition(Stage::AwaitingExecution { should_exit }, Event::Executed(report), mid, check),
        transition(mid, Event::ShutdownChecked(false), post, command),
    ensures
        check == Command::CheckShutdown,
        report matches Ok(text) ==> command == (Command::Inform {
            kind: ReplyKind::Execution,
            message: text,
        }),
        report matches Err(error) ==> informs(
            command,
            ReplyKind::Error,
            EXECUTION_ERROR_PREFIX@ + error@,
        ),
{
}

/// A decision's message is shown before its action runs, and the action runs
/// once the message was shown.
pub proof fn lemma_message_before_action(
    decision: Decision,
    mid: Stage,
    show: Command,
    post: Stage,
    command: Command,
)
    requires
        decision.message@.len() > 0,
        decision.action is Some,
        transition(Stage::AwaitingDecision, Event::Thought(decision), mid, show),
        transition(mid, Event::Informed(Ok(())), post, command),
    ensures
        show == (Command::Inform { kind: decision.kind, message: decision.message }),
        command == (Command::Execute { action: decision.action->Some_0 }),
{
}

/// A run succeeds exactly when both the cycle and the cleanup succeeded; a
/// cycle error always leads the final error message.
pub proof fn lemma_run_outcome(run_result: Result<(), String>, cleanup: Result<(), String>)
    ensures
        run_outcome(run_result, cleanup) is Ok <==> (run_result is Ok && cleanup is Ok),
        run_result matches Err(e) ==> run_outcome(run_result, cleanup) matches Err(m)
            && e@.is_prefix_of(m),
        (run_result is Ok && cleanup is Err) ==> (run_outcome(run_result, cleanup) matches Err(m)
            && cleanup->Err_0@.is_suffix_of(m)),
{
    match (run_result, cleanup) {
        (Err(e), Ok(())) => {},
        (Err(e), Err(c)) => {
            assert((e@ + CLEANUP_ALSO_FAILED@ + c@).subrange(0, e@.len() as int) =~= e@);
        },
        (Ok(()), Err(c)) => {
            let m = CLEANUP_FAILED_PREFIX@ + c@;
            assert(m.subrange(m.len() - c@.len(), m.len() as int) =~= c@);
        },
        _ => {},
    }
}

} // verus!
