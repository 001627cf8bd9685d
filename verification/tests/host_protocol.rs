use cuda_setup::host::{
    acknowledge, find_out, observe, run_checked, run_checked_quiet, run_probe, settle,
    take_directory, CommandOutput, Failure, Invocation, Reply, Request,
};

fn output(success: bool) -> CommandOutput<String> {
    CommandOutput { success, stdout: String::from("out"), stderr: String::from("err") }
}

#[test]
fn failures_tell_the_user_what_happened() {
    assert_eq!(Failure::<String>::CommandFailed.describe(), "Command exited with nonzero code");
    assert_eq!(
        Failure::Integrity { path: String::from("cuda.run") }.describe(),
        "The installer file checksum does not match. Won't continue installation. \
         Try deleting cuda.run and trying again."
    );
    assert_eq!(
        Failure::Host { detail: String::from("No such file or directory") }.describe(),
        "No such file or directory"
    );
    assert_eq!(
        Failure::KernelRelease { release: String::from("unknown") }.describe(),
        "Cannot tell the kernel series from the release unknown"
    );
    assert_eq!(
        Failure::<String>::Protocol.describe(),
        "The host's reply does not answer the request"
    );
}

#[test]
fn the_three_kinds_of_command() {
    let invocation = |check, silent| {
        Request::Run(Invocation {
            command: String::from("uname -r"),
            check,
            input: None,
            silent,
            retries: 0,
        })
    };
    assert_eq!(run_checked(String::from("uname -r")), invocation(true, false));
    assert_eq!(run_checked_quiet(String::from("uname -r")), invocation(true, true));
    assert_eq!(run_probe(String::from("uname -r")), invocation(false, true));
}

#[test]
fn a_checked_command_must_succeed() {
    assert_eq!(settle(Reply::Ran(output(true))), Ok(output(true)));
    assert_eq!(settle(Reply::Ran(output(false))), Err(Failure::CommandFailed));
    assert_eq!(settle(Reply::Failed(Failure::CommandFailed)), Err(Failure::CommandFailed));
    assert_eq!(settle(Reply::Done), Err(Failure::Protocol));
}

#[test]
fn a_probing_command_may_fail() {
    assert_eq!(observe(Reply::Ran(output(true))), Ok(output(true)));
    assert_eq!(observe(Reply::Ran(output(false))), Ok(output(false)));
    assert_eq!(observe(Reply::Exists(true)), Err(Failure::Protocol));
    let failure = Failure::Host { detail: String::from("cannot spawn") };
    assert_eq!(observe(Reply::Failed(failure.clone())), Err(failure));
}

#[test]
fn other_replies_are_read_by_kind() {
    assert_eq!(acknowledge(Reply::Done), Ok(()));
    assert_eq!(acknowledge(Reply::Exists(true)), Err(Failure::Protocol));
    assert_eq!(find_out(Reply::Exists(true)), Ok(true));
    assert_eq!(find_out(Reply::Exists(false)), Ok(false));
    assert_eq!(find_out(Reply::Done), Err(Failure::Protocol));
    assert_eq!(take_directory(Reply::Dir(String::from("/tmp/x"))), Ok(String::from("/tmp/x")));
    assert_eq!(take_directory(Reply::Ran(output(true))), Err(Failure::Protocol));
    let failure = Failure::Host { detail: String::from("denied") };
    assert_eq!(acknowledge(Reply::Failed(failure.clone())), Err(failure.clone()));
    assert_eq!(find_out(Reply::Failed(failure.clone())), Err(failure.clone()));
    assert_eq!(take_directory(Reply::Failed(failure.clone())), Err(failure));
}
