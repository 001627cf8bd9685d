//! What follows the installation of the toolkit: the search paths of the
//! running process and of later sessions, and the persistence daemon.
//!
//! The search paths are handed in and out as a value. Setting them in the
//! running process is a convenience for the rest of the run; what lasts is
//! the profile fragment, which is written anew each time.

use crate::host::{
    acknowledge, acknowledged, checked, checked_quiet, directory, find_out, found, play,
    run_checked, run_checked_quiet, settle, settled, take_directory, Failure, Progress, Reply,
    Request, Trace,
};
use crate::release::{release_of, CudaConfig, CudaVersion, Release};
use vstd::prelude::*;

verus! {

/// The search paths of a process: where programs and where libraries are
/// looked for. `None` stands for a variable that is not set.
#[derive(Debug, Clone, PartialEq, Eq)]
pub struct SearchPaths<T> {
    pub path: Option<T>,
    pub library_path: Option<T>,
}

impl View for SearchPaths<String> {
    type V = SearchPaths<Seq<char>>;

    open spec fn view(&self) -> SearchPaths<Seq<char>> {
        SearchPaths {
            path: match self.path {
                Some(text) => Some(text@),
                None => None,
            },
            library_path: match self.library_path {
                Some(text) => Some(text@),
                None => None,
            },
        }
    }
}

/// Where the configuration stands.
#[derive(Debug, Clone, PartialEq, Eq)]
pub enum SetupState<T> {
    /// Asked to set the program search path.
    SettingPath { version: CudaVersion, library_path: T },
    /// Asked to set the library search path.
    SettingLibraryPath { version: CudaVersion },
    /// Asked to write the profile fragment.
    WritingProfile,
    /// Asked whether the persistence daemon is there.
    ProbingDaemon,
    /// Asked whether the daemon's installer archive is there.
    ProbingArchive,
    /// Asked for a scratch directory.
    MakingScratch,
    /// Asked to copy the archive into the scratch directory.
    Copying { scratch: T },
    /// Asked for the working directory, to come back to it.
    ReadingDir { scratch: T },
    /// Asked to make the scratch directory the working directory.
    Entering { home: T },
    /// Asked to unpack the archive.
    Unpacking { home: T },
    /// Asked to run the daemon's installer.
    Installing { home: T },
    /// Asked to go back to the former working directory.
    Returning,
}

impl View for SetupState<String> {
    type V = SetupState<Seq<char>>;

    open spec fn view(&self) -> SetupState<Seq<char>> {
        match self {
            SetupState::SettingPath { version, library_path } => SetupState::SettingPath {
                version: *version,
                library_path: library_path@,
            },
            SetupState::SettingLibraryPath { version } => SetupState::SettingLibraryPath {
                version: *version,
            },
            SetupState::WritingProfile => SetupState::WritingProfile,
            SetupState::ProbingDaemon => SetupState::ProbingDaemon,
            SetupState::ProbingArchive => SetupState::ProbingArchive,
            SetupState::MakingScratch => SetupState::MakingScratch,
            SetupState::Copying { scratch } => SetupState::Copying { scratch: scratch@ },
            SetupState::ReadingDir { scratch } => SetupState::ReadingDir { scratch: scratch@ },
            SetupState::Entering { home } => SetupState::Entering { home: home@ },
            SetupState::Unpacking { home } => SetupState::Unpacking { home: home@ },
            SetupState::Installing { home } => SetupState::Installing { home: home@ },
            SetupState::Returning => SetupState::Returning,
        }
    }
}

/// The configuration in progress, or its end.
pub type Setup<T> = Progress<SetupState<T>, (), T>;

/// The variable that holds the program search path.
pub open spec fn path_variable() -> Seq<char> {
    "PATH"@
}

/// The variable that holds the library search path.
pub open spec fn library_path_variable() -> Seq<char> {
    "LD_LIBRARY_PATH"@
}

/// The program search path with the toolkit's programs in front. A path
/// that was not set counts as empty.
pub open spec fn path_with_toolkit(release: Release, paths: SearchPaths<Seq<char>>) -> Seq<char> {
    release.bin_folder + ":"@ + match paths.path {
        Some(old) => old,
        None => Seq::empty(),
    }
}

/// The library search path with the toolkit's libraries in front; the
/// toolkit's libraries alone where none was set.
pub open spec fn library_path_with_toolkit(release: Release, paths: SearchPaths<Seq<char>>) -> Seq<
    char,
> {
    match paths.library_path {
        Some(old) => release.lib_folder + ":"@ + old,
        None => release.lib_folder,
    }
}

/// The search paths once the toolkit is installed.
pub open spec fn paths_with_toolkit(release: Release, paths: SearchPaths<Seq<char>>)
    -> SearchPaths<Seq<char>> {
    SearchPaths {
        path: Some(path_with_toolkit(release, paths)),
        library_path: Some(library_path_with_toolkit(release, paths)),
    }
}

/// Where the profile fragment is kept.
pub open spec fn profile_path() -> Seq<char> {
    "/etc/profile.d/spyral_cuda_install.sh"@
}

/// The profile fragment: a comment and two exports that put the toolkit in
/// front of whatever the session's paths hold.
pub open spec fn profile_text(release: Release) -> Seq<char> {
    "# Configuring CUDA toolkit. File created by Spyral CUDA installation manager.\nexport PATH="@
        + release.bin_folder + "${PATH:+:${PATH}}\nexport LD_LIBRARY_PATH="@ + release.lib_folder
        + "${LD_LIBRARY_PATH:+:${LD_LIBRARY_PATH}}\n"@
}

/// Where the persistence daemon lies.
pub open spec fn daemon_path() -> Seq<char> {
    "/usr/bin/nvidia-persistenced"@
}

/// Where the archive with the daemon's installer lies.
pub open spec fn daemon_archive() -> Seq<char> {
    "/usr/share/doc/NVIDIA_GLX-1.0/samples/nvidia-persistenced-init.tar.bz2"@
}

/// Where the archive is copied to.
pub open spec fn archive_copy(scratch: Seq<char>) -> Seq<char> {
    scratch + "/installer.tar.bz2"@
}

/// The command that unpacks the copied archive in the working directory.
pub open spec fn unpack_command() -> Seq<char> {
    "tar -xf installer.tar.bz2"@
}

/// The command that runs the daemon's installer from the working directory.
pub open spec fn daemon_install_command() -> Seq<char> {
    "sh nvidia-persistenced-init/install.sh"@
}

/// The first step of the daemon's configuration: ask whether it is there.
pub open spec fn daemon_start() -> Setup<Seq<char>> {
    Progress::Ask(SetupState::ProbingDaemon, Request::PathExists { path: daemon_path() })
}

/// The first step of the configuration: set the program search path.
pub open spec fn setup_start(version: CudaVersion, paths: SearchPaths<Seq<char>>) -> Setup<
    Seq<char>,
> {
    let release = release_of(version);
    Progress::Ask(
        SetupState::SettingPath {
            version,
            library_path: library_path_with_toolkit(release, paths),
        },
        Request::SetEnv { name: path_variable(), value: path_with_toolkit(release, paths) },
    )
}

/// Goes on with `then` where the order was carried out.
pub open spec fn when_done(reply: Reply<Seq<char>>, then: Setup<Seq<char>>) -> Setup<Seq<char>> {
    match acknowledged(reply) {
        Ok(_) => then,
        Err(failure) => Progress::Done(Err(failure)),
    }
}

/// Goes on with `then` where the path exists; ends well where it does not.
pub open spec fn when_found(reply: Reply<Seq<char>>, then: Setup<Seq<char>>) -> Setup<Seq<char>> {
    match found(reply) {
        Ok(true) => then,
        Ok(false) => Progress::Done(Ok(())),
        Err(failure) => Progress::Done(Err(failure)),
    }
}

/// Goes on with `then` where the checked command succeeded.
pub open spec fn when_settled(reply: Reply<Seq<char>>, then: Setup<Seq<char>>) -> Setup<
    Seq<char>,
> {
    match settled(reply) {
        Ok(_) => then,
        Err(failure) => Progress::Done(Err(failure)),
    }
}

/// The step that follows `reply`.
pub open spec fn setup_next(state: SetupState<Seq<char>>, reply: Reply<Seq<char>>) -> Setup<
    Seq<char>,
> {
    match state {
        SetupState::SettingPath { version, library_path } => when_done(
            reply,
            Progress::Ask(
                SetupState::SettingLibraryPath { version },
                Request::SetEnv { name: library_path_variable(), value: library_path },
            ),
        ),
        SetupState::SettingLibraryPath { version } => when_done(
            reply,
            Progress::Ask(
                SetupState::WritingProfile,
                Request::WriteFile {
                    path: profile_path(),
                    content: profile_text(release_of(version)),
                },
            ),
        ),
        SetupState::WritingProfile => when_done(reply, daemon_start()),
        SetupState::ProbingDaemon => when_found(
            reply,
            Progress::Ask(
                SetupState::ProbingArchive,
                Request::PathExists { path: daemon_archive() },
            ),
        ),
        SetupState::ProbingArchive => when_found(
            reply,
            Progress::Ask(SetupState::MakingScratch, Request::ScratchDir),
        ),
        SetupState::MakingScratch => match directory(reply) {
            Ok(scratch) => Progress::Ask(
                SetupState::Copying { scratch },
                Request::CopyFile { from: daemon_archive(), to: archive_copy(scratch) },
            ),
            Err(failure) => Progress::Done(Err(failure)),
        },
        SetupState::Copying { scratch } => when_done(
            reply,
            Progress::Ask(SetupState::ReadingDir { scratch }, Request::CurrentDir),
        ),
        SetupState::ReadingDir { scratch } => match directory(reply) {
            Ok(home) => Progress::Ask(
                SetupState::Entering { home },
                Request::ChangeDir { path: scratch },
            ),
            Err(failure) => Progress::Done(Err(failure)),
        },
        SetupState::Entering { home } => when_done(
            reply,
            Progress::Ask(
                SetupState::Unpacking { home },
                Request::Run(checked_quiet(unpack_command())),
            ),
        ),
        SetupState::Unpacking { home } => when_settled(
            reply,
            Progress::Ask(
                SetupState::Installing { home },
                Request::Run(checked(daemon_install_command())),
            ),
        ),
        SetupState::Installing { home } => when_settled(
            reply,
            Progress::Ask(SetupState::Returning, Request::ChangeDir { path: home }),
        ),
        SetupState::Returning => when_done(reply, Progress::Done(Ok(()))),
    }
}

/// The run of the daemon's configuration against a host that answers with
/// `replies`.
pub open spec fn daemon_run(replies: Seq<Reply<Seq<char>>>) -> Trace<()> {
    play(
        |state: SetupState<Seq<char>>, reply: Reply<Seq<char>>| setup_next(state, reply),
        daemon_start(),
        replies,
    )
}

/// The search paths once the toolkit of `config` is installed.
pub fn with_toolkit(config: &CudaConfig, paths: &SearchPaths<String>) -> (r: SearchPaths<String>)
    ensures
        r@ == paths_with_toolkit(config@, paths@),
{
    let mut path = String::from_str(config.bin_folder());
    path.append(":");
    match &paths.path {
        Some(old) => {
            path.append(old.as_str());
        },
        None => {
            proof {
                assert(path@ + Seq::<char>::empty() == path@);
            }
        },
    }
    let library_path = match &paths.library_path {
        Some(old) => {
            let mut text = String::from_str(config.lib_folder());
            text.append(":");
            text.append(old.as_str());
            text
        },
        None => String::from_str(config.lib_folder()),
    };
    SearchPaths { path: Some(path), library_path: Some(library_path) }
}

/// The profile fragment for the toolkit of `config`.
pub fn profile_fragment(config: &CudaConfig) -> (text: String)
    ensures
        text@ == profile_text(config@),
{
    let mut text = String::from_str(
        "# Configuring CUDA toolkit. File created by Spyral CUDA installation manager.\nexport PATH=",
    );
    text.append(config.bin_folder());
    text.append("${PATH:+:${PATH}}\nexport LD_LIBRARY_PATH=");
    text.append(config.lib_folder());
    text.append("${LD_LIBRARY_PATH:+:${LD_LIBRARY_PATH}}\n");
    text
}

/// Starts the configuration of the persistence daemon.
pub fn configure_persistanced_service() -> (step: Setup<String>)
    ensures
        step@ == daemon_start(),
{
    Progress::Ask(
        SetupState::ProbingDaemon,
        Request::PathExists { path: String::from_str("/usr/bin/nvidia-persistenced") },
    )
}

/// Starts the configuration that follows the installation of the toolkit
/// of `config`, in a process whose search paths are `paths`.
pub fn cuda_postinstallation_actions(config: &CudaConfig, paths: &SearchPaths<String>) -> (step:
    Setup<String>)
    ensures
        step@ == setup_start(config@.version, paths@),
{
    let version = config.version();
    let SearchPaths { path, library_path } = with_toolkit(config, paths);
    match (path, library_path) {
        (Some(path), Some(library_path)) => Progress::Ask(
            SetupState::SettingPath { version, library_path },
            Request::SetEnv { name: String::from_str("PATH"), value: path },
        ),
        _ => Progress::Done(Err(Failure::Protocol)),
    }
}

fn on_done(reply: Reply<String>, then: Setup<String>) -> (step: Setup<String>)
    ensures
        step@ == when_done(reply@, then@),
{
    match acknowledge(reply) {
        Ok(_) => then,
        Err(failure) => Progress::Done(Err(failure)),
    }
}

fn on_found(reply: Reply<String>, then: Setup<String>) -> (step: Setup<String>)
    ensures
        step@ == when_found(reply@, then@),
{
    match find_out(reply) {
        Ok(true) => then,
        Ok(false) => Progress::Done(Ok(())),
        Err(failure) => Progress::Done(Err(failure)),
    }
}

fn on_settled(reply: Reply<String>, then: Setup<String>) -> (step: Setup<String>)
    ensures
        step@ == when_settled(reply@, then@),
{
    match settle(reply) {
        Ok(_) => then,
        Err(failure) => Progress::Done(Err(failure)),
    }
}

impl SetupState<String> {
    /// Takes the reply to the last request and says what comes next.
    pub fn next(self, reply: Reply<String>) -> (step: Setup<String>)
        ensures
            step@ == setup_next(self@, reply@),
    {
        match self {
            SetupState::SettingPath { version, library_path } => on_done(
                reply,
                Progress::Ask(
                    SetupState::SettingLibraryPath { version },
                    Request::SetEnv {
                        name: String::from_str("LD_LIBRARY_PATH"),
                        value: library_path,
                    },
                ),
            ),
            SetupState::SettingLibraryPath { version } => {
                let config = CudaConfig::new(version);
                on_done(
                    reply,
                    Progress::Ask(
                        SetupState::WritingProfile,
                        Request::WriteFile {
                            path: String::from_str("/etc/profile.d/spyral_cuda_install.sh"),
                            content: profile_fragment(&config),
                        },
                    ),
                )
            },
            SetupState::WritingProfile => on_done(reply, configure_persistanced_service()),
            SetupState::ProbingDaemon => on_found(
                reply,
                Progress::Ask(
                    SetupState::ProbingArchive,
                    Request::PathExists {
                        path: String::from_str(
                            "/usr/share/doc/NVIDIA_GLX-1.0/samples/nvidia-persistenced-init.tar.bz2",
                        ),
                    },
                ),
            ),
            SetupState::ProbingArchive => on_found(
                reply,
                Progress::Ask(SetupState::MakingScratch, Request::ScratchDir),
            ),
            SetupState::MakingScratch => match take_directory(reply) {
                Ok(scratch) => {
                    let mut to = scratch.clone();
                    to.append("/installer.tar.bz2");
                    Progress::Ask(
                        SetupState::Copying { scratch },
                        Request::CopyFile {
                            from: String::from_str(
                                "/usr/share/doc/NVIDIA_GLX-1.0/samples/nvidia-persistenced-init.tar.bz2",
                            ),
                            to,
                        },
                    )
                },
                Err(failure) => Progress::Done(Err(failure)),
            },
            SetupState::Copying { scratch } => on_done(
                reply,
                Progress::Ask(SetupState::ReadingDir { scratch }, Request::CurrentDir),
            ),
            SetupState::ReadingDir { scratch } => match take_directory(reply) {
                Ok(home) => Progress::Ask(
                    SetupState::Entering { home },
                    Request::ChangeDir { path: scratch },
                ),
                Err(failure) => Progress::Done(Err(failure)),
            },
            SetupState::Entering { home } => on_done(
                reply,
                Progress::Ask(
                    SetupState::Unpacking { home },
                    run_checked_quiet(String::from_str("tar -xf installer.tar.bz2")),
                ),
            ),
            SetupState::Unpacking { home } => on_settled(
                reply,
                Progress::Ask(
                    SetupState::Installing { home },
                    run_checked(String::from_str("sh nvidia-persistenced-init/install.sh")),
                ),
            ),
            SetupState::Installing { home } => {
                let path = home;
                on_settled(
                    reply,
                    Progress::Ask(SetupState::Returning, Request::ChangeDir { path }),
                )
            },
            SetupState::Returning => on_done(reply, Progress::Done(Ok(()))),
        }
    }
}

/// The persistence daemon is configured only where both the daemon and its
/// installer archive are on the host. Where the daemon is missing, the
/// configuration ends well after that one question.
pub proof fn law_daemon_is_skipped_without_daemon(replies: Seq<Reply<Seq<char>>>)
    requires
        replies.len() >= 1,
        replies[0] == Reply::<Seq<char>>::Exists(false),
    ensures
        daemon_run(replies) == (Trace::<()> {
            asked: seq![Request::PathExists { path: daemon_path() }],
            end: Some(Ok(())),
        }),
{
    reveal_with_fuel(play, 3);
    assert(daemon_run(replies).asked =~= seq![Request::PathExists { path: daemon_path() }]);
}

/// Where the daemon is there but its installer archive is missing, the
/// configuration ends well after the two questions.
pub proof fn law_daemon_is_skipped_without_archive(replies: Seq<Reply<Seq<char>>>)
    requires
        replies.len() >= 2,
        replies[0] == Reply::<Seq<char>>::Exists(true),
        replies[1] == Reply::<Seq<char>>::Exists(false),
    ensures
        daemon_run(replies) == (Trace::<()> {
            asked: seq![
                Request::PathExists { path: daemon_path() },
                Request::PathExists { path: daemon_archive() },
            ],
            end: Some(Ok(())),
        }),
{
    reveal_with_fuel(play, 4);
    assert(replies.skip(1)[0] == replies[1]);
    assert(daemon_run(replies).asked =~= seq![
        Request::PathExists { path: daemon_path() },
        Request::PathExists { path: daemon_archive() },
    ]);
}

/// How many requests the configuration can still make once the one that is
/// out is answered.
pub open spec fn setup_left(state: SetupState<Seq<char>>) -> nat {
    match state {
        SetupState::SettingPath { .. } => 11,
        SetupState::SettingLibraryPath { .. } => 10,
        SetupState::WritingProfile => 9,
        SetupState::ProbingDaemon => 8,
        SetupState::ProbingArchive => 7,
        SetupState::MakingScratch => 6,
        SetupState::Copying { .. } => 5,
        SetupState::ReadingDir { .. } => 4,
        SetupState::Entering { .. } => 3,
        SetupState::Unpacking { .. } => 2,
        SetupState::Installing { .. } => 1,
        SetupState::Returning => 0,
    }
}

} // verus!
