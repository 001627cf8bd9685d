use cuda_setup::host::{CommandOutput, Failure};
use cuda_setup::runner::{split_command, Attempt, CommandLine, RunState, Verdict};

fn exited(success: bool, stdout: &str) -> Attempt<String> {
    Attempt::Exited(CommandOutput {
        success,
        stdout: String::from(stdout),
        stderr: String::new(),
    })
}

/// Runs the runner over the attempts as they come; says how many it made
/// and how it ended.
fn attempts(
    check: bool,
    retries: usize,
    script: Vec<Attempt<String>>,
) -> (usize, Option<Result<CommandOutput<String>, Failure<String>>>) {
    let mut state = RunState::new(check, retries);
    let mut made = 0;
    for attempt in script {
        made += 1;
        match state.after(attempt) {
            Verdict::Again(next) => state = next,
            Verdict::Return(output) => return (made, Some(Ok(output))),
            Verdict::Fail(failure) => return (made, Some(Err(failure))),
        }
    }
    (made, None)
}

#[test]
fn command_is_split_at_whitespace() {
    assert_eq!(
        split_command("apt-get install -y  make\tgcc"),
        Some(CommandLine {
            program: String::from("apt-get"),
            args: vec![
                String::from("install"),
                String::from("-y"),
                String::from("make"),
                String::from("gcc"),
            ],
        })
    );
    assert_eq!(
        split_command("  reboot "),
        Some(CommandLine { program: String::from("reboot"), args: vec![] })
    );
}

#[test]
fn quotes_are_ordinary_characters() {
    assert_eq!(
        split_command("git config core.editor \"nvim -f\""),
        Some(CommandLine {
            program: String::from("git"),
            args: vec![
                String::from("config"),
                String::from("core.editor"),
                String::from("\"nvim"),
                String::from("-f\""),
            ],
        })
    );
}

#[test]
fn a_command_without_a_word_has_no_program() {
    assert_eq!(split_command(""), None);
    assert_eq!(split_command(" \t\n"), None);
}

#[test]
fn a_success_ends_the_run_at_once() {
    let (made, end) = attempts(true, 5, vec![exited(true, "ok"), exited(true, "never")]);
    assert_eq!(made, 1);
    assert_eq!(
        end,
        Some(Ok(CommandOutput {
            success: true,
            stdout: String::from("ok"),
            stderr: String::new()
        }))
    );
}

#[test]
fn retries_stop_at_the_first_success() {
    let script = vec![
        exited(false, "1"),
        exited(false, "2"),
        exited(true, "3"),
        exited(true, "4"),
    ];
    let (made, end) = attempts(true, 5, script);
    assert_eq!(made, 3);
    assert_eq!(end.unwrap().unwrap().stdout, "3");
}

#[test]
fn at_most_retries_plus_one_attempts_are_made() {
    for retries in 0..4 {
        let script: Vec<_> = (0..10).map(|_| exited(false, "no")).collect();
        let (made, end) = attempts(true, retries, script);
        assert_eq!(made, retries + 1);
        assert_eq!(end, Some(Err(Failure::CommandFailed)));
    }
}

#[test]
fn without_check_the_last_failure_is_returned() {
    let script = vec![exited(false, "first"), exited(false, "last"), exited(false, "none")];
    let (made, end) = attempts(false, 1, script);
    assert_eq!(made, 2);
    let output = end.unwrap().unwrap();
    assert!(!output.success);
    assert_eq!(output.stdout, "last");
}

#[test]
fn a_command_that_cannot_be_run_is_not_tried_again() {
    let script = vec![
        Attempt::NotRun { detail: String::from("No such file or directory") },
        exited(true, "never"),
    ];
    let (made, end) = attempts(false, 3, script);
    assert_eq!(made, 1);
    assert_eq!(
        end,
        Some(Err(Failure::Host { detail: String::from("No such file or directory") }))
    );
}

#[test]
fn the_run_waits_while_attempts_are_owed() {
    let (made, end) = attempts(true, 2, vec![exited(false, "1"), exited(false, "2")]);
    assert_eq!(made, 2);
    assert_eq!(end, None);
}

#[test]
fn zero_retries_means_one_attempt() {
    assert_eq!(RunState::new(true, 0), RunState { check: true, retries: 0, failed: 0 });
    assert_eq!(
        RunState::new(true, 0).after(exited(false, "")),
        Verdict::Fail(Failure::CommandFailed)
    );
    assert_eq!(
        RunState::new(false, 1).after(exited(false, "")),
        Verdict::Again(RunState { check: false, retries: 1, failed: 1 })
    );
}
