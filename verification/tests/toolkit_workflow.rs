use cuda_setup::host::{CommandOutput, Failure, Invocation, Progress, Reply, Request};
use cuda_setup::release::{CloudProvider, CudaConfig, CudaVersion};
use cuda_setup::setup::{
    configure_persistanced_service, cuda_postinstallation_actions, profile_fragment, with_toolkit,
    SearchPaths, SetupState,
};
use cuda_setup::toolkit::{
    install_cuda, install_cuda_inner, CudaOutcome, CudaState, ToolkitOutcome, ToolkitState,
};

const LISTING: &str = "linux-image-5.15.0-1031-aws - Linux kernel image\n";
const INSTALLER: &str = "cuda_12.8.0_570.86.10_linux.run";
const ARCHIVE: &str = "/usr/share/doc/NVIDIA_GLX-1.0/samples/nvidia-persistenced-init.tar.bz2";

fn ran(success: bool, stdout: &str) -> Reply<String> {
    Reply::Ran(CommandOutput { success, stdout: String::from(stdout), stderr: String::new() })
}

fn paths(path: Option<&str>, library_path: Option<&str>) -> SearchPaths<String> {
    SearchPaths { path: path.map(String::from), library_path: library_path.map(String::from) }
}

fn describe(asked: &[Request<String>]) -> Vec<String> {
    asked
        .iter()
        .map(|request| match request {
            Request::Run(invocation) => invocation.command.clone(),
            Request::PathExists { path } => format!("exists? {}", path),
            Request::ScratchDir => String::from("scratch"),
            Request::SetEnv { name, value } => format!("{}={}", name, value),
            Request::WriteFile { path, .. } => format!("write {}", path),
            Request::CopyFile { from, to } => format!("copy {} {}", from, to),
            Request::CurrentDir => String::from("pwd"),
            Request::ChangeDir { path } => format!("cd {}", path),
        })
        .collect()
}

fn play<S, A>(
    start: Progress<S, A, String>,
    replies: Vec<Reply<String>>,
    step: fn(S, Reply<String>) -> Progress<S, A, String>,
) -> (Vec<Request<String>>, Option<Result<A, Failure<String>>>) {
    let mut asked = Vec::new();
    let mut at = start;
    let mut replies = replies.into_iter();
    loop {
        match at {
            Progress::Done(result) => return (asked, Some(result)),
            Progress::Ask(state, request) => {
                asked.push(request);
                match replies.next() {
                    Some(reply) => at = step(state, reply),
                    None => return (asked, None),
                }
            }
        }
    }
}

fn driver_shows() -> Vec<Reply<String>> {
    vec![ran(true, "/usr/bin/nvidia-smi"), ran(true, "GPU 0: A100 (UUID: GPU-1)")]
}

#[test]
fn search_paths_get_the_toolkit_in_front() {
    let config = CudaConfig::new(CudaVersion::V12_8);
    assert_eq!(
        with_toolkit(&config, &paths(Some("/usr/bin:/bin"), Some("/opt/lib"))),
        paths(Some("/usr/local/cuda-12.8/bin:/usr/bin:/bin"), Some("/usr/local/cuda-12.8/lib64:/opt/lib"))
    );
}

#[test]
fn unset_search_paths() {
    let config = CudaConfig::new(CudaVersion::V13_0_1);
    assert_eq!(
        with_toolkit(&config, &paths(None, None)),
        paths(Some("/usr/local/cuda-13.0.1/bin:"), Some("/usr/local/cuda-13.0.1/lib64"))
    );
    assert_eq!(
        with_toolkit(&config, &paths(Some(""), Some(""))),
        paths(Some("/usr/local/cuda-13.0.1/bin:"), Some("/usr/local/cuda-13.0.1/lib64:"))
    );
}

#[test]
fn profile_fragment_exports_both_paths() {
    let config = CudaConfig::new(CudaVersion::V12_5);
    assert_eq!(
        profile_fragment(&config),
        "# Configuring CUDA toolkit. File created by Spyral CUDA installation manager.\n\
         export PATH=/usr/local/cuda-12.5/bin${PATH:+:${PATH}}\n\
         export LD_LIBRARY_PATH=/usr/local/cuda-12.5/lib64${LD_LIBRARY_PATH:+:${LD_LIBRARY_PATH}}\n"
    );
}

#[test]
fn configuration_without_daemon() {
    let config = CudaConfig::new(CudaVersion::V12_8);
    let replies = vec![Reply::Done, Reply::Done, Reply::Done, Reply::Exists(false)];
    let (asked, end) = play(
        cuda_postinstallation_actions(&config, &paths(Some("/usr/bin"), None)),
        replies,
        SetupState::next,
    );
    assert_eq!(
        describe(&asked),
        vec![
            "PATH=/usr/local/cuda-12.8/bin:/usr/bin",
            "LD_LIBRARY_PATH=/usr/local/cuda-12.8/lib64",
            "write /etc/profile.d/spyral_cuda_install.sh",
            "exists? /usr/bin/nvidia-persistenced",
        ]
    );
    assert_eq!(
        asked[2],
        Request::WriteFile {
            path: String::from("/etc/profile.d/spyral_cuda_install.sh"),
            content: profile_fragment(&config),
        }
    );
    assert_eq!(end, Some(Ok(())));
}

#[test]
fn daemon_is_skipped_without_its_archive() {
    let (asked, end) = play(
        configure_persistanced_service(),
        vec![Reply::Exists(true), Reply::Exists(false)],
        SetupState::next,
    );
    assert_eq!(
        describe(&asked),
        vec![String::from("exists? /usr/bin/nvidia-persistenced"), format!("exists? {}", ARCHIVE)]
    );
    assert_eq!(end, Some(Ok(())));
}

#[test]
fn daemon_is_installed_from_a_scratch_directory() {
    let replies = vec![
        Reply::Exists(true),
        Reply::Exists(true),
        Reply::Dir(String::from("/tmp/.tmpQ")),
        Reply::Done,
        Reply::Dir(String::from("/root")),
        Reply::Done,
        ran(true, ""),
        ran(true, ""),
        Reply::Done,
    ];
    let (asked, end) = play(configure_persistanced_service(), replies, SetupState::next);
    assert_eq!(
        describe(&asked),
        vec![
            String::from("exists? /usr/bin/nvidia-persistenced"),
            format!("exists? {}", ARCHIVE),
            String::from("scratch"),
            format!("copy {} /tmp/.tmpQ/installer.tar.bz2", ARCHIVE),
            String::from("pwd"),
            String::from("cd /tmp/.tmpQ"),
            String::from("tar -xf installer.tar.bz2"),
            String::from("sh nvidia-persistenced-init/install.sh"),
            String::from("cd /root"),
        ]
    );
    assert_eq!(
        asked[6],
        Request::Run(Invocation {
            command: String::from("tar -xf installer.tar.bz2"),
            check: true,
            input: None,
            silent: true,
            retries: 0,
        })
    );
    assert_eq!(end, Some(Ok(())));
}

#[test]
fn a_profile_that_cannot_be_written_is_fatal() {
    let config = CudaConfig::new(CudaVersion::V12_8);
    let failure = Failure::Host { detail: String::from("read-only file system") };
    let replies = vec![Reply::Done, Reply::Done, Reply::Failed(failure.clone())];
    let (asked, end) =
        play(cuda_postinstallation_actions(&config, &paths(None, None)), replies, SetupState::next);
    assert_eq!(asked.len(), 3);
    assert_eq!(end, Some(Err(failure)));
}

#[test]
fn installed_compiler_short_circuits() {
    let mut replies = driver_shows();
    replies.push(Reply::Exists(true));
    replies.push(ran(true, "never"));
    let (asked, end) = play(
        install_cuda(CloudProvider::Aws, CudaVersion::V12_8, paths(Some("/bin"), None)),
        replies,
        CudaState::next,
    );
    assert_eq!(
        describe(&asked),
        vec!["which nvidia-smi", "nvidia-smi -L", "exists? /usr/local/cuda-12.8/bin/nvcc"]
    );
    assert_eq!(end, Some(Ok(CudaOutcome::AlreadyInstalled)));
}

#[test]
fn fresh_toolkit_is_installed_configured_and_followed_by_a_restart() {
    let mut replies = driver_shows();
    replies.extend(vec![
        Reply::Exists(false),
        Reply::Exists(true),
        ran(true, ""),
        Reply::Done,
        Reply::Done,
        Reply::Done,
        Reply::Exists(false),
        ran(true, ""),
    ]);
    let (asked, end) = play(
        install_cuda(CloudProvider::Gcp, CudaVersion::V12_8, paths(Some("/bin"), Some("/lib"))),
        replies,
        CudaState::next,
    );
    assert_eq!(
        describe(&asked),
        vec![
            String::from("which nvidia-smi"),
            String::from("nvidia-smi -L"),
            String::from("exists? /usr/local/cuda-12.8/bin/nvcc"),
            format!("exists? {}", INSTALLER),
            format!("sh {} --silent --toolkit", INSTALLER),
            String::from("PATH=/usr/local/cuda-12.8/bin:/bin"),
            String::from("LD_LIBRARY_PATH=/usr/local/cuda-12.8/lib64:/lib"),
            String::from("write /etc/profile.d/spyral_cuda_install.sh"),
            String::from("exists? /usr/bin/nvidia-persistenced"),
            String::from("reboot now"),
        ]
    );
    assert_eq!(end, Some(Ok(CudaOutcome::Rebooting)));
}

#[test]
fn the_inner_installation_only_signals_the_restart() {
    let mut replies = driver_shows();
    replies.extend(vec![
        Reply::Exists(false),
        Reply::Exists(true),
        ran(true, ""),
        Reply::Done,
        Reply::Done,
        Reply::Done,
        Reply::Exists(false),
    ]);
    let (asked, end) = play(
        install_cuda_inner(CloudProvider::Gcp, CudaVersion::V12_8, paths(None, None)),
        replies,
        ToolkitState::next,
    );
    assert!(!describe(&asked).iter().any(|request| request.starts_with("reboot")));
    assert_eq!(end, Some(Ok(ToolkitOutcome::RebootRequired)));
}

#[test]
fn a_missing_driver_is_installed_first() {
    let replies = vec![
        ran(false, ""),
        ran(true, ""),
        ran(true, "5.15.0-1031-aws\n"),
        ran(true, LISTING),
        ran(true, "5.15.0-1031-aws\n"),
        ran(true, "ii"),
        Reply::Exists(true),
        ran(true, ""),
        ran(false, ""),
        Reply::Exists(true),
    ];
    let (asked, end) = play(
        install_cuda(CloudProvider::Aws, CudaVersion::V12_8, paths(None, None)),
        replies,
        CudaState::next,
    );
    let asked = describe(&asked);
    assert_eq!(asked[0], "which nvidia-smi");
    assert_eq!(asked[1], "apt-get update");
    assert_eq!(asked[7], format!("sh {} --silent --driver", INSTALLER));
    assert_eq!(asked[8], "which nvidia-smi");
    assert_eq!(asked[9], "exists? /usr/local/cuda-12.8/bin/nvcc");
    assert_eq!(asked.len(), 10);
    assert_eq!(end, Some(Ok(CudaOutcome::AlreadyInstalled)));
}

#[test]
fn a_driver_that_cannot_be_looked_for_counts_as_missing() {
    let failure = Failure::Host { detail: String::from("cannot spawn") };
    let (asked, end) = play(
        install_cuda(CloudProvider::Aws, CudaVersion::V12_8, paths(None, None)),
        vec![Reply::Failed(failure)],
        CudaState::next,
    );
    assert_eq!(describe(&asked), vec!["which nvidia-smi", "apt-get update"]);
    assert_eq!(end, None);
}

#[test]
fn a_restart_for_a_new_kernel_ends_the_toolkit_installation() {
    let replies = vec![
        ran(false, ""),
        ran(true, ""),
        ran(true, "5.15.0-1015-aws\n"),
        ran(true, LISTING),
        ran(true, "5.15.0-1015-aws\n"),
        ran(false, ""),
        ran(true, ""),
        ran(true, ""),
        ran(true, "never"),
    ];
    let (asked, end) = play(
        install_cuda(CloudProvider::Aws, CudaVersion::V12_8, paths(None, None)),
        replies,
        CudaState::next,
    );
    assert_eq!(describe(&asked).last().unwrap(), "reboot now");
    assert_eq!(asked.len(), 8);
    assert_eq!(end, Some(Ok(CudaOutcome::Rebooting)));
}

#[test]
fn a_failing_toolkit_installer_is_fatal() {
    let mut replies = driver_shows();
    replies.extend(vec![Reply::Exists(false), Reply::Exists(true), ran(false, "")]);
    let (_, end) = play(
        install_cuda(CloudProvider::Aws, CudaVersion::V12_8, paths(None, None)),
        replies,
        CudaState::next,
    );
    assert_eq!(end, Some(Err(Failure::CommandFailed)));
}
