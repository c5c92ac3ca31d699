use polkadot_cli::runner::ExecutionOutcome;
use polkadot_cli::runner::LoggedCommand;
use polkadot_cli::runner::needs_install;
use polkadot_cli::runner::outcome_of_status;
use polkadot_cli::runner::running_line;
use polkadot_cli::runner::stderr_line;
use polkadot_cli::runner::stdout_line;

fn command(program: &str, args: &[&str]) -> LoggedCommand {
    let mut cmd = LoggedCommand::new(program);
    for a in args {
        cmd.arg(a);
    }
    cmd
}

#[test]
fn builder_accumulates_arguments_in_order() {
    let cmd = command("git", &["clone", "--quiet", "url"]);
    assert_eq!(cmd.program, "git");
    assert_eq!(cmd.args, vec!["clone", "--quiet", "url"]);
    assert!(cmd.cwd.is_none());
}

#[test]
fn builder_accepts_empty_tokens_verbatim() {
    let cmd = command("tool", &["", "x", ""]);
    assert_eq!(cmd.args, vec!["", "x", ""]);
}

#[test]
fn command_line_joins_with_spaces() {
    let cmd = command("echo", &["a", "b"]);
    assert_eq!(cmd.command_line(), "echo a b");
}

#[test]
fn command_line_without_arguments_keeps_trailing_space() {
    let cmd = command("ls", &[]);
    assert_eq!(cmd.command_line(), "ls ");
}

#[test]
fn running_line_names_program_and_arguments() {
    let cmd = command("zepter", &["--version"]);
    assert_eq!(running_line(&cmd), "[INFO] Running command: zepter --version");
}

#[test]
fn zero_exit_reports_success_and_stays_off_the_error_stream() {
    let outcome = outcome_of_status(Ok(Some(0)));
    assert_eq!(outcome, ExecutionOutcome::Success);
    assert_eq!(
        stdout_line(&outcome),
        Some("[INFO] Command executed successfully.".to_string())
    );
    assert_eq!(stderr_line(&outcome), None);
}

#[test]
fn non_zero_exit_reports_the_code_on_the_error_stream() {
    let outcome = outcome_of_status(Ok(Some(3)));
    assert_eq!(outcome, ExecutionOutcome::NonZeroExit(3));
    assert_eq!(stdout_line(&outcome), None);
    let line = stderr_line(&outcome).unwrap();
    assert_eq!(line, "[WARN] Command exited with status: exit status: 3");
    assert!(line.contains("3"));
}

#[test]
fn large_exit_code_is_rendered_in_full() {
    let outcome = outcome_of_status(Ok(Some(65530)));
    assert_eq!(
        stderr_line(&outcome),
        Some("[WARN] Command exited with status: exit status: 65530".to_string())
    );
}

#[test]
fn negative_exit_code_is_rendered_with_sign() {
    let outcome = outcome_of_status(Ok(Some(-7)));
    assert_eq!(
        stderr_line(&outcome),
        Some("[WARN] Command exited with status: exit status: -7".to_string())
    );
}

#[test]
fn spawn_failure_reports_the_error_and_returns_normally() {
    let outcome = outcome_of_status(Err("No such file or directory".to_string()));
    assert_eq!(
        outcome,
        ExecutionOutcome::SpawnFailed("No such file or directory".to_string())
    );
    assert_eq!(stdout_line(&outcome), None);
    assert_eq!(
        stderr_line(&outcome),
        Some("[ERROR] Failed to execute command: No such file or directory".to_string())
    );
}

#[test]
fn termination_without_exit_code_goes_to_the_error_stream() {
    let outcome = outcome_of_status(Ok(None));
    assert_eq!(outcome, ExecutionOutcome::Terminated);
    assert_eq!(stdout_line(&outcome), None);
    assert_eq!(
        stderr_line(&outcome),
        Some("[WARN] Command exited with status: terminated by signal".to_string())
    );
}

#[test]
fn only_a_spawn_failure_asks_for_installation() {
    assert!(needs_install(&ExecutionOutcome::SpawnFailed("err".to_string())));
    assert!(!needs_install(&ExecutionOutcome::Success));
    assert!(!needs_install(&ExecutionOutcome::NonZeroExit(1)));
    assert!(!needs_install(&ExecutionOutcome::Terminated));
}

#[test]
fn current_dir_is_recorded() {
    let mut cmd = LoggedCommand::new("cargo");
    cmd.current_dir("./crates/solochain-template");
    assert_eq!(cmd.cwd, Some("./crates/solochain-template".to_string()));
}
