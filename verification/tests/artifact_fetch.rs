use cuda_setup::fetch::{checksum_matches, download_file, file_name, FetchState};
use cuda_setup::host::{CommandOutput, Failure, Invocation, Progress, Reply, Request};

const URL: &str = "https://example.org/files/cuda_12.8.0_linux.run";
const SUM: &str = "c71027cf1a4ce84f80b9cbf81116e767";

fn ran(success: bool, stdout: &str) -> Reply<String> {
    Reply::Ran(CommandOutput { success, stdout: String::from(stdout), stderr: String::new() })
}

fn command(text: &str, silent: bool) -> Request<String> {
    Request::Run(Invocation {
        command: String::from(text),
        check: true,
        input: None,
        silent,
        retries: 0,
    })
}

fn probe_path(path: &str) -> Request<String> {
    Request::PathExists { path: String::from(path) }
}

/// Answers the fetch with the replies in turn; gives the requests it made
/// and its result, if it came to one.
fn fetch(
    url: &str,
    sum: &str,
    replies: Vec<Reply<String>>,
) -> (Vec<Request<String>>, Option<Result<String, Failure<String>>>) {
    let mut asked = Vec::new();
    let mut at: Progress<FetchState<String>, String, String> = download_file(url, sum);
    let mut replies = replies.into_iter();
    loop {
        match at {
            Progress::Done(result) => return (asked, Some(result)),
            Progress::Ask(state, request) => {
                asked.push(request);
                match replies.next() {
                    Some(reply) => at = state.next(reply),
                    None => return (asked, None),
                }
            }
        }
    }
}

#[test]
fn the_file_is_named_after_the_last_segment() {
    assert_eq!(file_name(URL), "cuda_12.8.0_linux.run");
    assert_eq!(file_name("installer.run"), "installer.run");
    assert_eq!(file_name("https://example.org/dir/"), "");
    assert_eq!(file_name(""), "");
}

#[test]
fn a_present_file_is_not_downloaded() {
    let (asked, end) = fetch(URL, SUM, vec![Reply::Exists(true), ran(true, "unused")]);
    assert_eq!(asked, vec![probe_path("cuda_12.8.0_linux.run")]);
    assert_eq!(end, Some(Ok(String::from("cuda_12.8.0_linux.run"))));
}

#[test]
fn a_present_file_is_not_downloaded_even_with_a_wrong_checksum_expected() {
    let (asked, end) = fetch(URL, "0000", vec![Reply::Exists(true)]);
    assert_eq!(asked.len(), 1);
    assert!(matches!(asked[0], Request::PathExists { .. }));
    assert_eq!(end, Some(Ok(String::from("cuda_12.8.0_linux.run"))));
}

#[test]
fn a_missing_file_is_downloaded_and_summed() {
    let listing = format!("{}  cuda_12.8.0_linux.run\n", SUM);
    let (asked, end) =
        fetch(URL, SUM, vec![Reply::Exists(false), ran(true, ""), ran(true, &listing)]);
    assert_eq!(
        asked,
        vec![
            probe_path("cuda_12.8.0_linux.run"),
            command("curl -fSsL -O https://example.org/files/cuda_12.8.0_linux.run", false),
            command("md5sum cuda_12.8.0_linux.run", true),
        ]
    );
    assert_eq!(end, Some(Ok(String::from("cuda_12.8.0_linux.run"))));
}

#[test]
fn a_wrong_checksum_is_an_integrity_failure_and_nothing_is_removed() {
    let listing = "d41d8cd98f00b204e9800998ecf8427e  cuda_12.8.0_linux.run\n";
    let (asked, end) =
        fetch(URL, SUM, vec![Reply::Exists(false), ran(true, ""), ran(true, listing)]);
    assert_eq!(
        end,
        Some(Err(Failure::Integrity { path: String::from("cuda_12.8.0_linux.run") }))
    );
    assert_eq!(asked.len(), 3);
    assert!(asked.iter().all(|request| match request {
        Request::PathExists { .. } => true,
        Request::Run(invocation) =>
            invocation.command.starts_with("curl ") || invocation.command.starts_with("md5sum "),
        _ => false,
    }));
}

#[test]
fn a_failed_download_is_a_command_failure() {
    let (asked, end) = fetch(URL, SUM, vec![Reply::Exists(false), ran(false, "")]);
    assert_eq!(asked.len(), 2);
    assert_eq!(end, Some(Err(Failure::CommandFailed)));
    let (_, end) = fetch(URL, SUM, vec![Reply::Exists(false), Reply::Failed(Failure::CommandFailed)]);
    assert_eq!(end, Some(Err(Failure::CommandFailed)));
}

#[test]
fn a_failed_checksum_command_is_a_command_failure() {
    let (asked, end) = fetch(URL, SUM, vec![Reply::Exists(false), ran(true, ""), ran(false, SUM)]);
    assert_eq!(asked.len(), 3);
    assert_eq!(end, Some(Err(Failure::CommandFailed)));
}

#[test]
fn a_reply_of_the_wrong_kind_is_a_protocol_failure() {
    let (_, end) = fetch(URL, SUM, vec![ran(true, "")]);
    assert_eq!(end, Some(Err(Failure::Protocol)));
    let (_, end) = fetch(URL, SUM, vec![Reply::Exists(false), Reply::Exists(true)]);
    assert_eq!(end, Some(Err(Failure::Protocol)));
}

#[test]
fn a_host_failure_is_handed_on() {
    let failure = Failure::Host { detail: String::from("permission denied") };
    let (_, end) = fetch(URL, SUM, vec![Reply::Failed(failure.clone())]);
    assert_eq!(end, Some(Err(failure)));
}

#[test]
fn the_checksum_is_the_first_word_and_case_matters() {
    assert!(checksum_matches("abc123  file\n", "abc123"));
    assert!(checksum_matches("  abc123\tfile", "abc123"));
    assert!(!checksum_matches("ABC123  file\n", "abc123"));
    assert!(!checksum_matches("abc1234  file\n", "abc123"));
    assert!(!checksum_matches("file abc123\n", "abc123"));
    assert!(!checksum_matches("", "abc123"));
    assert!(checksum_matches("", ""));
}
