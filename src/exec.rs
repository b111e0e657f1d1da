use vstd::prelude::*;

verus! {

/// Why running a command failed.
#[derive(Clone, Copy, Debug, PartialEq, Eq, Structural)]
pub enum ExecFailure {
    /// The program could not be started.
    Spawn,
    /// Waiting for the program to end failed.
    Wait,
    /// The program ended without success; the exit code, or none where it
    /// was ended by a signal.
    Status(Option<i32>),
}

/// How far a run of a command has gone.
#[derive(Clone, Copy, Debug, PartialEq, Eq, Structural)]
pub enum ExecPhase {
    /// Nothing has happened yet.
    Ready,
    /// The command line is being logged.
    Logging,
    /// The program is being started.
    Spawning,
    /// The program runs and is waited for.
    Waiting,
    /// The run is over: the program exited with status zero.
    Succeeded,
    /// The run is over, and failed.
    Failed(ExecFailure),
}

/// What the caller reports to the run: a request to begin, or how the last
/// action went.
#[derive(Clone, Copy, Debug, PartialEq, Eq, Structural)]
pub enum ExecEvent {
    Begin,
    Logged,
    SpawnFailed,
    Spawned,
    WaitFailed,
    /// The program ended with this exit code, or none where a signal ended it.
    Exited(Option<i32>),
}

/// What the caller is to do next.
#[derive(Clone, Copy, Debug, PartialEq, Eq, Structural)]
pub enum ExecAction {
    /// Write the command's log line.
    Log,
    /// Start the program.
    Spawn,
    /// Wait for the program to end.
    Wait,
    /// Hand the outcome that the phase now holds to the caller.
    Report,
}

/// The outcome of a program that ended with `code`: success exactly when it
/// exited with status zero.
pub open spec fn exit_outcome(code: Option<i32>) -> Result<(), ExecFailure> {
    if code == Some(0i32) {
        Ok(())
    } else {
        Err(ExecFailure::Status(code))
    }
}

/// The phase that ends a run with `outcome`.
pub open spec fn finished(outcome: Result<(), ExecFailure>) -> ExecPhase {
    match outcome {
        Ok(()) => ExecPhase::Succeeded,
        Err(e) => ExecPhase::Failed(e),
    }
}

/// One transition of a run: the phase after `event` and the action it asks
/// for. An event that does not fit the phase changes nothing.
pub open spec fn step(phase: ExecPhase, event: ExecEvent) -> (ExecPhase, Option<ExecAction>) {
    match (phase, event) {
        (ExecPhase::Ready, ExecEvent::Begin) => (ExecPhase::Logging, Some(ExecAction::Log)),
        (ExecPhase::Logging, ExecEvent::Logged) => (ExecPhase::Spawning, Some(ExecAction::Spawn)),
        (ExecPhase::Spawning, ExecEvent::SpawnFailed) => (
            ExecPhase::Failed(ExecFailure::Spawn),
            Some(ExecAction::Report),
        ),
        (ExecPhase::Spawning, ExecEvent::Spawned) => (ExecPhase::Waiting, Some(ExecAction::Wait)),
        (ExecPhase::Waiting, ExecEvent::WaitFailed) => (
            ExecPhase::Failed(ExecFailure::Wait),
            Some(ExecAction::Report),
        ),
        (ExecPhase::Waiting, ExecEvent::Exited(code)) => (
            finished(exit_outcome(code)),
            Some(ExecAction::Report),
        ),
        _ => (phase, None),
    }
}

/// The phase reached and the actions asked for when `events` arrive, in
/// order, at a run in `phase`.
pub open spec fn run(phase: ExecPhase, events: Seq<ExecEvent>) -> (ExecPhase, Seq<ExecAction>)
    decreases events.len(),
{
    if events.len() == 0 {
        (phase, Seq::empty())
    } else {
        let (next, action) = step(phase, events[0]);
        let (last, rest) = run(next, events.drop_first());
        match action {
            Some(a) => (last, seq![a] + rest),
            None => (last, rest),
        }
    }
}

/// The outcome of a program that ended with `code`.
pub fn exit_result(code: Option<i32>) -> (r: Result<(), ExecFailure>)
    ensures
        r == exit_outcome(code),
        r is Ok <==> code == Some(0i32),
{
    match code {
        Some(c) => {
            if c == 0 {
                Ok(())
            } else {
                Err(ExecFailure::Status(code))
            }
        },
        None => Err(ExecFailure::Status(None)),
    }
}

/// Advances a run by one event.
pub fn exec_step(phase: ExecPhase, event: ExecEvent) -> (r: (ExecPhase, Option<ExecAction>))
    ensures
        r == step(phase, event),
{
    match (phase, event) {
        (ExecPhase::Ready, ExecEvent::Begin) => (ExecPhase::Logging, Some(ExecAction::Log)),
        (ExecPhase::Logging, ExecEvent::Logged) => (ExecPhase::Spawning, Some(ExecAction::Spawn)),
        (ExecPhase::Spawning, ExecEvent::SpawnFailed) => (
            ExecPhase::Failed(ExecFailure::Spawn),
            Some(ExecAction::Report),
        ),
        (ExecPhase::Spawning, ExecEvent::Spawned) => (ExecPhase::Waiting, Some(ExecAction::Wait)),
        (ExecPhase::Waiting, ExecEvent::WaitFailed) => (
            ExecPhase::Failed(ExecFailure::Wait),
            Some(ExecAction::Report),
        ),
        (ExecPhase::Waiting, ExecEvent::Exited(code)) => (
            match exit_result(code) {
                Ok(()) => ExecPhase::Succeeded,
                Err(e) => ExecPhase::Failed(e),
            },
            Some(ExecAction::Report),
        ),
        _ => (phase, None),
    }
}

proof fn lemma_no_log_after_ready(phase: ExecPhase, events: Seq<ExecEvent>)
    requires
        phase != ExecPhase::Ready,
    ensures
        run(phase, events).0 != ExecPhase::Ready,
        forall|i: int| 0 <= i < run(phase, events).1.len() ==> run(phase, events).1[i] != ExecAction::Log,
    decreases events.len(),
{
    if events.len() > 0 {
        let (next, action) = step(phase, events[0]);
        lemma_no_log_after_ready(next, events.drop_first());
        let rest = run(next, events.drop_first()).1;
        match action {
            Some(a) => {
                assert forall|i: int| 0 <= i < run(phase, events).1.len() implies run(phase, events).1[i] != ExecAction::Log by {
                    if i > 0 {
                        assert(run(phase, events).1[i] == rest[i - 1]);
                    }
                }
            },
            None => {},
        }
    }
}

/// Whatever a caller reports, a run that starts ready asks for the log line
/// first and never again, so the command is logged exactly once and before
/// the program is started or waited for; and a run that has asked for
/// anything has left the ready phase.
pub proof fn law_logged_once_first(events: Seq<ExecEvent>)
    ensures
        ({
            let (last, actions) = run(ExecPhase::Ready, events);
            &&& actions.len() > 0 ==> actions[0] == ExecAction::Log
            &&& forall|i: int| 1 <= i < actions.len() ==> actions[i] != ExecAction::Log
            &&& actions.len() > 0 <==> last != ExecPhase::Ready
        }),
    decreases events.len(),
{
    if events.len() > 0 {
        let (next, action) = step(ExecPhase::Ready, events[0]);
        if next == ExecPhase::Ready {
            law_logged_once_first(events.drop_first());
        } else {
            lemma_no_log_after_ready(next, events.drop_first());
            let rest = run(next, events.drop_first()).1;
            let actions = run(ExecPhase::Ready, events).1;
            assert forall|i: int| 1 <= i < actions.len() implies actions[i] != ExecAction::Log by {
                assert(actions[i] == rest[i - 1]);
            }
        }
    }
}

/// A run that finishes reports success exactly when the program was started,
/// waited for, and exited with status zero: the last event it took was
/// `Exited(Some(0))`.
pub proof fn law_success_only_on_zero_exit(phase: ExecPhase, event: ExecEvent)
    requires
        phase != ExecPhase::Succeeded,
    ensures
        step(phase, event).0 == ExecPhase::Succeeded <==> (phase == ExecPhase::Waiting
            && event == ExecEvent::Exited(Some(0i32))),
{
}

} // verus!
