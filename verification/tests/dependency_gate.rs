use cuda_setup::deps::{get_kernel_version, install_dependencies_debian, DepsState, Gate};
use cuda_setup::host::{CommandOutput, Failure, Invocation, Progress, Reply, Request};
use cuda_setup::release::CloudProvider;

const LISTING: &str = "\
linux-image-5.15.0-1015-aws - Linux kernel image
linux-image-5.15.0-1031-aws - Linux kernel image
linux-image-5.15.0-1031-azure - Linux kernel image
";

fn ran(success: bool, stdout: &str) -> Reply<String> {
    Reply::Ran(CommandOutput { success, stdout: String::from(stdout), stderr: String::new() })
}

fn checked(text: &str) -> Request<String> {
    Request::Run(Invocation {
        command: String::from(text),
        check: true,
        input: None,
        silent: false,
        retries: 0,
    })
}

fn probe(text: &str) -> Request<String> {
    Request::Run(Invocation {
        command: String::from(text),
        check: false,
        input: None,
        silent: true,
        retries: 0,
    })
}

fn survey(headers: &str) -> Vec<Request<String>> {
    vec![
        checked("apt-get update"),
        checked("uname -r"),
        checked("apt-cache search linux-image"),
        checked("uname -r"),
        probe(&format!("dpkg -l | grep {}", headers)),
    ]
}

fn install(image: &str, headers: &str) -> Request<String> {
    checked(&format!(
        "apt-get install -y make gcc {} {} software-properties-common pciutils gcc make dkms",
        image, headers
    ))
}

fn is_install(request: &Request<String>) -> bool {
    matches!(request, Request::Run(invocation) if invocation.command.starts_with("apt-get install"))
}

fn gate(
    provider: CloudProvider,
    replies: Vec<Reply<String>>,
) -> (Vec<Request<String>>, Option<Result<Gate, Failure<String>>>) {
    let mut asked = Vec::new();
    let mut at: Progress<DepsState<String>, Gate, String> = install_dependencies_debian(provider);
    let mut replies = replies.into_iter();
    loop {
        match at {
            Progress::Done(result) => return (asked, Some(result)),
            Progress::Ask(state, request) => {
                asked.push(request);
                match replies.next() {
                    Some(reply) => at = state.next(reply),
                    None => return (asked, None),
                }
            }
        }
    }
}

#[test]
fn kernel_release_is_the_trimmed_output() {
    assert_eq!(get_kernel_version("5.15.0-1031-aws\n"), "5.15.0-1031-aws");
    assert_eq!(get_kernel_version(""), "");
}

#[test]
fn matching_kernel_with_headers_passes_without_install() {
    let replies = vec![
        ran(true, "Hit:1 ..."),
        ran(true, "5.15.0-1031-aws\n"),
        ran(true, LISTING),
        ran(true, "5.15.0-1031-aws\n"),
        ran(true, "ii  linux-headers-5.15.0-1031-aws"),
        ran(true, "never asked for"),
    ];
    let (asked, end) = gate(CloudProvider::Aws, replies);
    assert_eq!(asked, survey("linux-headers-5.15.0-1031-aws"));
    assert!(!asked.iter().any(is_install));
    assert_eq!(end, Some(Ok(Gate::Proceed)));
}

#[test]
fn older_running_kernel_installs_and_requires_reboot() {
    let replies = vec![
        ran(true, ""),
        ran(true, "5.15.0-1015-aws\n"),
        ran(true, LISTING),
        ran(true, "5.15.0-1015-aws\n"),
        ran(false, ""),
        ran(true, "Setting up ..."),
    ];
    let (asked, end) = gate(CloudProvider::Aws, replies);
    let mut expected = survey("linux-headers-5.15.0-1031-aws");
    expected.push(install("linux-image-5.15.0-1031-aws", "linux-headers-5.15.0-1031-aws"));
    assert_eq!(asked, expected);
    assert_eq!(end, Some(Ok(Gate::RebootRequired)));
}

#[test]
fn older_running_kernel_requires_reboot_even_with_headers_present() {
    let replies = vec![
        ran(true, ""),
        ran(true, "5.15.0-1015-aws\n"),
        ran(true, LISTING),
        ran(true, "5.15.0-1015-aws\n"),
        ran(true, "ii  linux-headers-5.15.0-1031-aws"),
        ran(true, ""),
    ];
    let (asked, end) = gate(CloudProvider::Aws, replies);
    assert_eq!(asked.len(), 6);
    assert!(is_install(&asked[5]));
    assert_eq!(end, Some(Ok(Gate::RebootRequired)));
}

#[test]
fn missing_headers_install_without_reboot() {
    let replies = vec![
        ran(true, ""),
        ran(true, "5.15.0-1031-aws\n"),
        ran(true, LISTING),
        ran(true, "5.15.0-1031-aws\n"),
        ran(false, ""),
        ran(true, ""),
    ];
    let (asked, end) = gate(CloudProvider::Aws, replies);
    assert_eq!(asked.len(), 6);
    assert!(is_install(&asked[5]));
    assert_eq!(end, Some(Ok(Gate::Proceed)));
}

#[test]
fn the_platform_picks_the_candidates() {
    let replies = vec![
        ran(true, ""),
        ran(true, "5.15.0-1015-azure\n"),
        ran(true, LISTING),
        ran(true, "5.15.0-1015-azure\n"),
        ran(false, ""),
        ran(true, ""),
    ];
    let (asked, end) = gate(CloudProvider::Azure, replies);
    assert_eq!(
        asked[5],
        install("linux-image-5.15.0-1031-azure", "linux-headers-5.15.0-1031-azure")
    );
    assert_eq!(end, Some(Ok(Gate::RebootRequired)));
}

#[test]
fn an_empty_index_targets_build_zero() {
    let replies = vec![
        ran(true, ""),
        ran(true, "5.15.0-1031-aws\n"),
        ran(true, ""),
        ran(true, "5.15.0-1031-aws\n"),
        ran(false, ""),
        ran(true, ""),
    ];
    let (asked, end) = gate(CloudProvider::Aws, replies);
    assert_eq!(asked[4], probe("dpkg -l | grep linux-headers-5.15.0-0-aws"));
    assert_eq!(asked[5], install("linux-image-5.15.0-0-aws", "linux-headers-5.15.0-0-aws"));
    assert_eq!(end, Some(Ok(Gate::RebootRequired)));
}

#[test]
fn a_failed_install_is_fatal() {
    let replies = vec![
        ran(true, ""),
        ran(true, "5.15.0-1015-aws\n"),
        ran(true, LISTING),
        ran(true, "5.15.0-1015-aws\n"),
        ran(false, ""),
        ran(false, "E: Unable to locate package"),
    ];
    let (_, end) = gate(CloudProvider::Aws, replies);
    assert_eq!(end, Some(Err(Failure::CommandFailed)));
}

#[test]
fn a_failed_index_refresh_is_fatal() {
    let (asked, end) = gate(CloudProvider::Aws, vec![ran(false, "")]);
    assert_eq!(asked, vec![checked("apt-get update")]);
    assert_eq!(end, Some(Err(Failure::CommandFailed)));
}

#[test]
fn a_release_without_a_series_is_refused() {
    let (asked, end) = gate(CloudProvider::Gcp, vec![ran(true, ""), ran(true, "unknown\n")]);
    assert_eq!(asked.len(), 2);
    assert_eq!(end, Some(Err(Failure::KernelRelease { release: String::from("unknown") })));
}

#[test]
fn the_run_waits_for_each_reply() {
    let (asked, end) = gate(CloudProvider::Aws, vec![ran(true, ""), ran(true, "5.15.0-1-aws")]);
    assert_eq!(asked.len(), 3);
    assert_eq!(end, None);
}
