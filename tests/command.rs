use build_util::command::CommandLine;
use build_util::exec::{exec_step, exit_result, ExecAction, ExecEvent, ExecFailure, ExecPhase};

fn strings(items: &[&str]) -> Vec<String> {
    items.iter().map(|s| s.to_string()).collect()
}

#[test]
fn arg_if_false_leaves_args() {
    let mut cmd = CommandLine::new("cc");
    cmd.arg("-c");
    cmd.arg_if(false, "x");
    assert_eq!(cmd.get_args(), &strings(&["-c"]));
}

#[test]
fn arg_if_true_appends_one() {
    let mut cmd = CommandLine::new("cc");
    cmd.arg("-c");
    cmd.arg("main.c");
    cmd.arg_if(true, "x");
    assert_eq!(cmd.get_args(), &strings(&["-c", "main.c", "x"]));
    assert_eq!(cmd.get_program(), "cc");
}

#[test]
fn args_if_appends_all_in_order() {
    let mut cmd = CommandLine::new("ld");
    cmd.arg("-o");
    cmd.args_if(true, &strings(&["a.o", "b.o"]));
    cmd.args_if(false, &strings(&["c.o"]));
    assert_eq!(cmd.get_args(), &strings(&["-o", "a.o", "b.o"]));
}

#[test]
fn log_line_joins_arguments_with_spaces() {
    let mut cmd = CommandLine::new("cargo");
    cmd.args(&strings(&["build", "--release"]));
    assert_eq!(cmd.log_line(), "% cargo build --release");
}

#[test]
fn log_line_without_arguments_keeps_separator() {
    let cmd = CommandLine::new("true");
    assert_eq!(cmd.log_line(), "% true ");
}

#[test]
fn exit_zero_is_success() {
    assert_eq!(exit_result(Some(0)), Ok(()));
}

#[test]
fn exit_nonzero_is_failure() {
    assert_eq!(exit_result(Some(1)), Err(ExecFailure::Status(Some(1))));
    assert_eq!(exit_result(None), Err(ExecFailure::Status(None)));
}

fn drive(events: &[ExecEvent]) -> (ExecPhase, Vec<ExecAction>) {
    let mut phase = ExecPhase::Ready;
    let mut actions = Vec::new();
    for event in events {
        let (next, action) = exec_step(phase, *event);
        phase = next;
        if let Some(a) = action {
            actions.push(a);
        }
    }
    (phase, actions)
}

#[test]
fn run_with_zero_exit_succeeds_after_one_log() {
    let (phase, actions) = drive(&[
        ExecEvent::Begin,
        ExecEvent::Logged,
        ExecEvent::Spawned,
        ExecEvent::Exited(Some(0)),
    ]);
    assert_eq!(phase, ExecPhase::Succeeded);
    assert_eq!(
        actions,
        vec![ExecAction::Log, ExecAction::Spawn, ExecAction::Wait, ExecAction::Report]
    );
}

#[test]
fn run_with_nonzero_exit_fails_after_one_log() {
    let (phase, actions) = drive(&[
        ExecEvent::Begin,
        ExecEvent::Logged,
        ExecEvent::Spawned,
        ExecEvent::Exited(Some(2)),
    ]);
    assert_eq!(phase, ExecPhase::Failed(ExecFailure::Status(Some(2))));
    assert_eq!(actions.iter().filter(|a| **a == ExecAction::Log).count(), 1);
    assert_eq!(actions[0], ExecAction::Log);
}

#[test]
fn run_with_spawn_failure() {
    let (phase, actions) = drive(&[ExecEvent::Begin, ExecEvent::Logged, ExecEvent::SpawnFailed]);
    assert_eq!(phase, ExecPhase::Failed(ExecFailure::Spawn));
    assert_eq!(actions, vec![ExecAction::Log, ExecAction::Spawn, ExecAction::Report]);
}

#[test]
fn run_with_wait_failure() {
    let (phase, _) = drive(&[
        ExecEvent::Begin,
        ExecEvent::Logged,
        ExecEvent::Spawned,
        ExecEvent::WaitFailed,
    ]);
    assert_eq!(phase, ExecPhase::Failed(ExecFailure::Wait));
}

#[test]
fn run_ignores_events_out_of_order() {
    let (phase, actions) = drive(&[
        ExecEvent::Spawned,
        ExecEvent::Begin,
        ExecEvent::Begin,
        ExecEvent::Exited(Some(0)),
    ]);
    assert_eq!(phase, ExecPhase::Logging);
    assert_eq!(actions, vec![ExecAction::Log]);
}
