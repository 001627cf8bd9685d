use cuda_setup::driver::{install_driver, reboot, DriverOutcome, DriverState};
use cuda_setup::hold::{lock_kernel_updates_debian, marking_command, unlock_kernel_updates_debian};
use cuda_setup::host::{CommandOutput, Failure, Invocation, Progress, Reply, Request};
use cuda_setup::presence::{lists_device, verify_driver, DriverCheck, PresenceState};
use cuda_setup::release::{CloudProvider, CudaVersion};
use cuda_setup::removal::{uninstall_driver, RemovalOutcome, RemovalState};

const LISTING: &str = "linux-image-5.15.0-1031-aws - Linux kernel image\n";
const INSTALLER: &str = "cuda_12.8.0_570.86.10_linux.run";
const SUM: &str = "c71027cf1a4ce84f80b9cbf81116e767";

fn ran(success: bool, stdout: &str) -> Reply<String> {
    Reply::Ran(CommandOutput { success, stdout: String::from(stdout), stderr: String::new() })
}

fn run(text: &str, check: bool, silent: bool) -> Request<String> {
    Request::Run(Invocation { command: String::from(text), check, input: None, silent, retries: 0 })
}

fn commands(asked: &[Request<String>]) -> Vec<String> {
    asked
        .iter()
        .map(|request| match request {
            Request::Run(invocation) => invocation.command.clone(),
            Request::PathExists { path } => format!("exists? {}", path),
            Request::ScratchDir => String::from("scratch"),
            other => format!("{:?}", other),
        })
        .collect()
}

fn play<S, A>(
    start: Progress<S, A, String>,
    replies: Vec<Reply<String>>,
    step: fn(S, Reply<String>) -> Progress<S, A, String>,
) -> (Vec<Request<String>>, Option<Result<A, Failure<String>>>) {
    let mut asked = Vec::new();
    let mut at = start;
    let mut replies = replies.into_iter();
    loop {
        match at {
            Progress::Done(result) => return (asked, Some(result)),
            Progress::Ask(state, request) => {
                asked.push(request);
                match replies.next() {
                    Some(reply) => at = step(state, reply),
                    None => return (asked, None),
                }
            }
        }
    }
}

fn settled_host() -> Vec<Reply<String>> {
    vec![
        ran(true, ""),
        ran(true, "5.15.0-1031-aws\n"),
        ran(true, LISTING),
        ran(true, "5.15.0-1031-aws\n"),
        ran(true, "ii linux-headers-5.15.0-1031-aws"),
    ]
}

#[test]
fn missing_tool_means_not_installed_verbose_or_not() {
    for verbose in [false, true] {
        let (asked, end) =
            play(verify_driver(verbose), vec![ran(false, "")], PresenceState::next);
        assert_eq!(asked, vec![run("which nvidia-smi", false, true)]);
        let found = end.unwrap().unwrap();
        assert!(!found.installed);
        assert_eq!(found.report.is_some(), verbose);
    }
}

#[test]
fn missing_tool_is_reported_to_a_verbose_caller() {
    let (_, end) = play(verify_driver(true), vec![ran(false, "")], PresenceState::next);
    assert_eq!(
        end,
        Some(Ok(DriverCheck {
            installed: false,
            report: Some(String::from("Couldn't find nvidia-smi, the driver is not installed.")),
        }))
    );
}

#[test]
fn a_listed_device_means_installed() {
    let listing = Reply::Ran(CommandOutput {
        success: true,
        stdout: String::from("GPU 0: NVIDIA A100 (UUID: GPU-5e1f)\n"),
        stderr: String::from("warn"),
    });
    let (asked, end) =
        play(verify_driver(true), vec![ran(true, "/usr/bin/nvidia-smi"), listing], PresenceState::next);
    assert_eq!(
        asked,
        vec![run("which nvidia-smi", false, true), run("nvidia-smi -L", false, true)]
    );
    assert_eq!(
        end,
        Some(Ok(DriverCheck {
            installed: true,
            report: Some(String::from(
                "nvidia-smi -L output: GPU 0: NVIDIA A100 (UUID: GPU-5e1f)\n warn"
            )),
        }))
    );
}

#[test]
fn a_listing_needs_success_and_the_marker() {
    assert!(lists_device(true, "GPU 0: A100 (UUID: GPU-1)"));
    assert!(!lists_device(false, "GPU 0: A100 (UUID: GPU-1)"));
    assert!(!lists_device(true, "No devices were found"));
    assert!(!lists_device(true, "uuid"));
    let (_, end) = play(
        verify_driver(false),
        vec![ran(true, ""), ran(true, "No devices were found")],
        PresenceState::next,
    );
    assert_eq!(end, Some(Ok(DriverCheck { installed: false, report: None })));
}

#[test]
fn hold_and_release_name_the_running_kernel() {
    assert_eq!(
        marking_command(true, "5.15.0-1031-aws"),
        "apt-mark hold linux-image-5.15.0-1031-aws linux-headers-5.15.0-1031-aws \
         linux-image-cloud-amd64 linux-headers-cloud-amd64"
    );
    assert_eq!(
        marking_command(false, "5.15.0-1031-aws"),
        "apt-mark unhold linux-image-5.15.0-1031-aws linux-headers-5.15.0-1031-aws \
         linux-image-cloud-amd64 linux-headers-cloud-amd64"
    );
    let (asked, end) = play(
        lock_kernel_updates_debian(),
        vec![ran(true, " 6.1.0-9-cloud-amd64\n"), ran(true, "")],
        cuda_setup::hold::HoldState::next,
    );
    assert_eq!(
        commands(&asked),
        vec![
            "uname -r",
            "apt-mark hold linux-image-6.1.0-9-cloud-amd64 linux-headers-6.1.0-9-cloud-amd64 \
             linux-image-cloud-amd64 linux-headers-cloud-amd64",
        ]
    );
    assert_eq!(end, Some(Ok(())));
    let (asked, _) = play(
        unlock_kernel_updates_debian(),
        vec![ran(true, "6.1.0-9-cloud-amd64")],
        cuda_setup::hold::HoldState::next,
    );
    assert!(commands(&asked)[1].starts_with("apt-mark unhold "));
}

#[test]
fn reboot_is_a_checked_command() {
    assert_eq!(reboot(), run("reboot now", true, false));
}

#[test]
fn fresh_host_without_tool_ends_well_and_holds_nothing() {
    let mut replies = settled_host();
    replies.extend(vec![
        Reply::Exists(false),
        ran(true, ""),
        ran(true, &format!("{}  {}\n", SUM, INSTALLER)),
        ran(true, "installer output"),
        ran(false, ""),
    ]);
    let (asked, end) =
        play(install_driver(CloudProvider::Aws, CudaVersion::V12_8), replies, DriverState::next);
    assert_eq!(
        commands(&asked),
        vec![
            String::from("apt-get update"),
            String::from("uname -r"),
            String::from("apt-cache search linux-image"),
            String::from("uname -r"),
            String::from("dpkg -l | grep linux-headers-5.15.0-1031-aws"),
            format!("exists? {}", INSTALLER),
            String::from(
                "curl -fSsL -O https://developer.download.nvidia.com/compute/cuda/12.8.0/local_installers/cuda_12.8.0_570.86.10_linux.run"
            ),
            format!("md5sum {}", INSTALLER),
            format!("sh {} --silent --driver", INSTALLER),
            String::from("which nvidia-smi"),
        ]
    );
    assert!(!commands(&asked).iter().any(|command| command.starts_with("apt-mark")));
    assert_eq!(
        end,
        Some(Ok(DriverOutcome::NotVerified {
            report: Some(String::from("Couldn't find nvidia-smi, the driver is not installed.")),
        }))
    );
}

#[test]
fn verified_driver_holds_the_kernel() {
    let mut replies = settled_host();
    replies.extend(vec![
        Reply::Exists(true),
        ran(true, ""),
        ran(true, "/usr/bin/nvidia-smi"),
        ran(true, "GPU 0: A100 (UUID: GPU-1)"),
        ran(true, "5.15.0-1031-aws\n"),
        ran(true, ""),
    ]);
    let (asked, end) =
        play(install_driver(CloudProvider::Aws, CudaVersion::V12_8), replies, DriverState::next);
    let asked = commands(&asked);
    assert_eq!(asked.len(), 11);
    assert_eq!(asked[6], format!("sh {} --silent --driver", INSTALLER));
    assert_eq!(asked[9], "uname -r");
    assert_eq!(
        asked[10],
        "apt-mark hold linux-image-5.15.0-1031-aws linux-headers-5.15.0-1031-aws \
         linux-image-cloud-amd64 linux-headers-cloud-amd64"
    );
    assert_eq!(end, Some(Ok(DriverOutcome::Installed)));
}

#[test]
fn new_kernel_restarts_before_anything_is_fetched() {
    let replies = vec![
        ran(true, ""),
        ran(true, "5.15.0-1015-aws\n"),
        ran(true, LISTING),
        ran(true, "5.15.0-1015-aws\n"),
        ran(false, ""),
        ran(true, ""),
        ran(true, ""),
    ];
    let (asked, end) =
        play(install_driver(CloudProvider::Aws, CudaVersion::V12_5), replies, DriverState::next);
    let asked = commands(&asked);
    assert_eq!(asked.len(), 7);
    assert!(asked[5].starts_with("apt-get install -y make gcc linux-image-5.15.0-1031-aws"));
    assert_eq!(asked[6], "reboot now");
    assert_eq!(end, Some(Ok(DriverOutcome::Rebooting)));
}

#[test]
fn a_failing_installer_is_fatal() {
    let mut replies = settled_host();
    replies.extend(vec![Reply::Exists(true), ran(false, "")]);
    let (_, end) =
        play(install_driver(CloudProvider::Aws, CudaVersion::V12_8), replies, DriverState::next);
    assert_eq!(end, Some(Err(Failure::CommandFailed)));
}

#[test]
fn nothing_is_removed_where_no_driver_shows() {
    let (asked, end) =
        play(uninstall_driver(CudaVersion::V12_8), vec![ran(false, "")], RemovalState::next);
    assert_eq!(commands(&asked), vec!["which nvidia-smi"]);
    assert_eq!(end, Some(Ok(RemovalOutcome::NotInstalled)));
}

#[test]
fn removal_unpacks_uninstalls_and_then_releases() {
    let replies = vec![
        ran(true, "/usr/bin/nvidia-smi"),
        ran(true, "GPU 0: A100 (UUID: GPU-1)"),
        Reply::Dir(String::from("/tmp/.tmpAbC")),
        Reply::Exists(true),
        ran(true, ""),
        ran(true, ""),
        ran(true, "5.15.0-1031-aws\n"),
        ran(true, ""),
    ];
    let (asked, end) = play(uninstall_driver(CudaVersion::V12_6), replies, RemovalState::next);
    assert_eq!(
        commands(&asked),
        vec![
            "which nvidia-smi",
            "nvidia-smi -L",
            "scratch",
            "exists? cuda_12.6.0_560.28.03_linux.run",
            "sh cuda_12.6.0_560.28.03_linux.run --extract=/tmp/.tmpAbC",
            "sh /tmp/.tmpAbC/NVIDIA-Linux-x86_64-535.161.07.run -s --uninstall",
            "uname -r",
            "apt-mark unhold linux-image-5.15.0-1031-aws linux-headers-5.15.0-1031-aws \
             linux-image-cloud-amd64 linux-headers-cloud-amd64",
        ]
    );
    assert_eq!(end, Some(Ok(RemovalOutcome::Removed)));
}

#[test]
fn a_failed_uninstall_leaves_the_kernel_held() {
    let replies = vec![
        ran(true, ""),
        ran(true, "UUID"),
        Reply::Dir(String::from("/tmp/x")),
        Reply::Exists(true),
        ran(true, ""),
        ran(false, "uninstall failed"),
        ran(true, "never"),
    ];
    let (asked, end) = play(uninstall_driver(CudaVersion::V12_8), replies, RemovalState::next);
    assert_eq!(asked.len(), 6);
    assert!(!commands(&asked).iter().any(|command| command.starts_with("apt-mark")));
    assert_eq!(end, Some(Err(Failure::CommandFailed)));
}

#[test]
fn a_scratch_directory_that_cannot_be_made_is_fatal() {
    let failure = Failure::Host { detail: String::from("no space left on device") };
    let replies = vec![ran(true, ""), ran(true, "UUID"), Reply::Failed(failure.clone())];
    let (_, end) = play(uninstall_driver(CudaVersion::V12_8), replies, RemovalState::next);
    assert_eq!(end, Some(Err(failure)));
}
