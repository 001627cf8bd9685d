//! Removing the driver.
//!
//! The uninstaller is inside the toolkit's installer: the installer is
//! fetched and unpacked into a scratch directory, the driver's own installer
//! is run from there in uninstall mode, and only when that has succeeded are
//! the kernel packages released. A removal that fails leaves them held.

use crate::driver::download_cuda_toolkit_installer;
use crate::fetch::{fetch_next, fetch_start, Fetch, FetchState};
use crate::hold::{hold_next, hold_start, unlock_kernel_updates_debian, Hold, HoldState};
use crate::host::{
    checked, play, run_checked, settle, settled, Failure, Progress, Reply, Request, Trace,
};
use crate::presence::{presence_next, presence_start, verify_driver, Presence, PresenceState};
use crate::release::{release_of, CudaConfig, CudaVersion};
use vstd::prelude::*;

verus! {

/// How the removal of the driver ended.
#[derive(Debug, Clone, Copy, PartialEq, Eq, Structural)]
pub enum RemovalOutcome {
    /// There was no driver to remove; nothing was done.
    NotInstalled,
    /// The driver is removed and the kernel packages are released.
    Removed,
}

impl View for RemovalOutcome {
    type V = RemovalOutcome;

    open spec fn view(&self) -> RemovalOutcome {
        *self
    }
}

/// Where the removal of the driver stands.
#[derive(Debug, Clone, PartialEq, Eq)]
pub enum RemovalState<T> {
    /// Looking whether the driver is there.
    Verifying { presence: PresenceState, version: CudaVersion },
    /// Asked for a scratch directory.
    MakingScratch { version: CudaVersion },
    /// Fetching the installer.
    Fetching { fetch: FetchState<T>, scratch: T, version: CudaVersion },
    /// Asked for the unpacking of the installer.
    Extracting { scratch: T, version: CudaVersion },
    /// Asked for the run of the uninstaller.
    Uninstalling,
    /// Releasing the kernel packages.
    Releasing(HoldState),
}

impl View for RemovalState<String> {
    type V = RemovalState<Seq<char>>;

    open spec fn view(&self) -> RemovalState<Seq<char>> {
        match self {
            RemovalState::Verifying { presence, version } => RemovalState::Verifying {
                presence: *presence,
                version: *version,
            },
            RemovalState::MakingScratch { version } => RemovalState::MakingScratch {
                version: *version,
            },
            RemovalState::Fetching { fetch, scratch, version } => RemovalState::Fetching {
                fetch: fetch@,
                scratch: scratch@,
                version: *version,
            },
            RemovalState::Extracting { scratch, version } => RemovalState::Extracting {
                scratch: scratch@,
                version: *version,
            },
            RemovalState::Uninstalling => RemovalState::Uninstalling,
            RemovalState::Releasing(hold) => RemovalState::Releasing(*hold),
        }
    }
}

/// The removal of the driver in progress, or how it ended.
pub type Removal<T> = Progress<RemovalState<T>, RemovalOutcome, T>;

/// The command that unpacks the installer at `installer` into `scratch`.
pub open spec fn extract_command(installer: Seq<char>, scratch: Seq<char>) -> Seq<char> {
    "sh "@ + installer + " --extract="@ + scratch
}

/// Where the driver's own installer lies once the toolkit's installer is
/// unpacked into `scratch`.
pub open spec fn driver_installer_path(scratch: Seq<char>, driver_version: Seq<char>) -> Seq<
    char,
> {
    scratch + "/NVIDIA-Linux-x86_64-"@ + driver_version + ".run"@
}

/// The command that runs the driver's installer at `installer` in uninstall
/// mode, without questions.
pub open spec fn uninstall_command(installer: Seq<char>) -> Seq<char> {
    "sh "@ + installer + " -s --uninstall"@
}

/// The removal once the release of the kernel packages has moved.
pub open spec fn removal_after_hold(step: Hold<Seq<char>>) -> Removal<Seq<char>> {
    match step {
        Progress::Ask(state, request) => Progress::Ask(RemovalState::Releasing(state), request),
        Progress::Done(Ok(_)) => Progress::Done(Ok(RemovalOutcome::Removed)),
        Progress::Done(Err(failure)) => Progress::Done(Err(failure)),
    }
}

/// The removal once the fetch has moved: the fetched installer is unpacked.
pub open spec fn removal_after_fetch(
    step: Fetch<Seq<char>>,
    scratch: Seq<char>,
    version: CudaVersion,
) -> Removal<Seq<char>> {
    match step {
        Progress::Ask(fetch, request) => Progress::Ask(
            RemovalState::Fetching { fetch, scratch, version },
            request,
        ),
        Progress::Done(Ok(installer)) => Progress::Ask(
            RemovalState::Extracting { scratch, version },
            Request::Run(checked(extract_command(installer, scratch))),
        ),
        Progress::Done(Err(failure)) => Progress::Done(Err(failure)),
    }
}

/// The removal once the look for the driver has moved: without a driver
/// there is nothing to do.
pub open spec fn removal_after_presence(step: Presence<Seq<char>>, version: CudaVersion)
    -> Removal<Seq<char>> {
    match step {
        Progress::Ask(presence, request) => Progress::Ask(
            RemovalState::Verifying { presence, version },
            request,
        ),
        Progress::Done(Ok(found)) => if found.installed {
            Progress::Ask(RemovalState::MakingScratch { version }, Request::ScratchDir)
        } else {
            Progress::Done(Ok(RemovalOutcome::NotInstalled))
        },
        Progress::Done(Err(failure)) => Progress::Done(Err(failure)),
    }
}

/// The first step: look whether the driver is there.
pub open spec fn removal_start(version: CudaVersion) -> Removal<Seq<char>> {
    removal_after_presence(presence_start(false), version)
}

/// The step that follows `reply`.
pub open spec fn removal_next(state: RemovalState<Seq<char>>, reply: Reply<Seq<char>>)
    -> Removal<Seq<char>> {
    match state {
        RemovalState::Verifying { presence, version } => removal_after_presence(
            presence_next(presence, reply),
            version,
        ),
        RemovalState::MakingScratch { version } => match reply {
            Reply::Dir(scratch) => removal_after_fetch(
                fetch_start(release_of(version).toolkit_url, release_of(version).toolkit_checksum),
                scratch,
                version,
            ),
            Reply::Failed(failure) => Progress::Done(Err(failure)),
            _ => Progress::Done(Err(Failure::Protocol)),
        },
        RemovalState::Fetching { fetch, scratch, version } => removal_after_fetch(
            fetch_next(fetch, reply),
            scratch,
            version,
        ),
        RemovalState::Extracting { scratch, version } => match settled(reply) {
            Ok(_) => Progress::Ask(
                RemovalState::Uninstalling,
                Request::Run(
                    checked(
                        uninstall_command(
                            driver_installer_path(scratch, release_of(version).driver_version),
                        ),
                    ),
                ),
            ),
            Err(failure) => Progress::Done(Err(failure)),
        },
        RemovalState::Uninstalling => match settled(reply) {
            Ok(_) => removal_after_hold(hold_start(false)),
            Err(failure) => Progress::Done(Err(failure)),
        },
        RemovalState::Releasing(hold) => removal_after_hold(hold_next(hold, reply)),
    }
}

/// The run of the removal against a host that answers with `replies`.
pub open spec fn removal_run(version: CudaVersion, replies: Seq<Reply<Seq<char>>>) -> Trace<
    RemovalOutcome,
> {
    play(
        |state: RemovalState<Seq<char>>, reply: Reply<Seq<char>>| removal_next(state, reply),
        removal_start(version),
        replies,
    )
}

fn after_hold(step: Hold<String>) -> (next: Removal<String>)
    ensures
        next@ == removal_after_hold(step@),
{
    match step {
        Progress::Ask(state, request) => Progress::Ask(RemovalState::Releasing(state), request),
        Progress::Done(Ok(_)) => Progress::Done(Ok(RemovalOutcome::Removed)),
        Progress::Done(Err(failure)) => Progress::Done(Err(failure)),
    }
}

fn after_fetch(step: Fetch<String>, scratch: String, version: CudaVersion) -> (next: Removal<
    String,
>)
    ensures
        next@ == removal_after_fetch(step@, scratch@, version),
{
    match step {
        Progress::Ask(fetch, request) => Progress::Ask(
            RemovalState::Fetching { fetch, scratch, version },
            request,
        ),
        Progress::Done(Ok(installer)) => {
            let mut command = String::from_str("sh ");
            command.append(installer.as_str());
            command.append(" --extract=");
            command.append(scratch.as_str());
            Progress::Ask(RemovalState::Extracting { scratch, version }, run_checked(command))
        },
        Progress::Done(Err(failure)) => Progress::Done(Err(failure)),
    }
}

fn after_presence(step: Presence<String>, version: CudaVersion) -> (next: Removal<String>)
    ensures
        next@ == removal_after_presence(step@, version),
{
    match step {
        Progress::Ask(presence, request) => Progress::Ask(
            RemovalState::Verifying { presence, version },
            request,
        ),
        Progress::Done(Ok(found)) => if found.installed {
            Progress::Ask(RemovalState::MakingScratch { version }, Request::ScratchDir)
        } else {
            Progress::Done(Ok(RemovalOutcome::NotInstalled))
        },
        Progress::Done(Err(failure)) => Progress::Done(Err(failure)),
    }
}

/// Starts the removal of the driver that came with `cuda_version`.
pub fn uninstall_driver(cuda_version: CudaVersion) -> (step: Removal<String>)
    ensures
        step@ == removal_start(cuda_version),
{
    after_presence(verify_driver(false), cuda_version)
}

impl RemovalState<String> {
    /// Takes the reply to the last request and says what comes next.
    pub fn next(self, reply: Reply<String>) -> (step: Removal<String>)
        ensures
            step@ == removal_next(self@, reply@),
    {
        match self {
            RemovalState::Verifying { presence, version } => after_presence(
                presence.next(reply),
                version,
            ),
            RemovalState::MakingScratch { version } => match reply {
                Reply::Dir(scratch) => {
                    let config = CudaConfig::new(version);
                    after_fetch(download_cuda_toolkit_installer(&config), scratch, version)
                },
                Reply::Failed(failure) => Progress::Done(Err(failure)),
                _ => Progress::Done(Err(Failure::Protocol)),
            },
            RemovalState::Fetching { fetch, scratch, version } => after_fetch(
                fetch.next(reply),
                scratch,
                version,
            ),
            RemovalState::Extracting { scratch, version } => match settle(reply) {
                Ok(_) => {
                    let config = CudaConfig::new(version);
                    let mut command = String::from_str("sh ");
                    let mut installer = scratch;
                    installer.append("/NVIDIA-Linux-x86_64-");
                    installer.append(config.driver_version());
                    installer.append(".run");
                    command.append(installer.as_str());
                    command.append(" -s --uninstall");
                    Progress::Ask(RemovalState::Uninstalling, run_checked(command))
                },
                Err(failure) => Progress::Done(Err(failure)),
            },
            RemovalState::Uninstalling => match settle(reply) {
                Ok(_) => after_hold(unlock_kernel_updates_debian()),
                Err(failure) => Progress::Done(Err(failure)),
            },
            RemovalState::Releasing(hold) => after_hold(hold.next(reply)),
        }
    }
}

/// Where no driver shows there is nothing to remove: the removal ends after
/// the look for the driver, and the host is left as it was.
pub proof fn law_nothing_to_remove(version: CudaVersion, replies: Seq<Reply<Seq<char>>>)
    requires
        replies.len() >= 1,
        replies[0] matches Reply::Ran(located) && !located.success,
    ensures
        removal_run(version, replies) == (Trace::<RemovalOutcome> {
            asked: seq![Request::Run(crate::host::probe(crate::presence::locate_command()))],
            end: Some(Ok(RemovalOutcome::NotInstalled)),
        }),
{
    reveal_with_fuel(play, 3);
    assert(removal_run(version, replies).asked =~= seq![
        Request::Run(crate::host::probe(crate::presence::locate_command())),
    ]);
}

/// The kernel packages are released only after the uninstaller has
/// succeeded: where it fails, the removal ends with the failure and asks
/// for nothing more.
pub proof fn law_failed_removal_keeps_the_hold(reply: Reply<Seq<char>>)
    requires
        settled(reply) is Err,
    ensures
        removal_next(RemovalState::Uninstalling, reply) == Progress::<
            RemovalState<Seq<char>>,
            RemovalOutcome,
            Seq<char>,
        >::Done(Err(settled(reply)->Err_0)),
{
}

/// How many requests the removal can still make once the one that is out
/// is answered.
pub open spec fn removal_left(state: RemovalState<Seq<char>>) -> nat {
    match state {
        RemovalState::Verifying { presence, .. } => crate::presence::presence_left(presence) + 8,
        RemovalState::MakingScratch { .. } => 7,
        RemovalState::Fetching { fetch, .. } => crate::fetch::fetch_left(fetch) + 4,
        RemovalState::Extracting { .. } => 3,
        RemovalState::Uninstalling => 2,
        RemovalState::Releasing(hold) => crate::hold::hold_left(hold),
    }
}

/// The removal asks for ten things at most, and it has ended when ten
/// requests are answered, whatever the answers.
pub proof fn law_removal_ends(version: CudaVersion, replies: Seq<Reply<Seq<char>>>)
    ensures
        removal_run(version, replies).asked.len() <= 10,
        replies.len() >= 10 ==> removal_run(version, replies).end is Some,
{
    crate::host::lemma_run_ends(
        |state: RemovalState<Seq<char>>, reply: Reply<Seq<char>>| removal_next(state, reply),
        |state: RemovalState<Seq<char>>| removal_left(state),
        removal_start(version),
        replies,
    );
}

/// The kernel packages are released in one situation only: the
/// uninstaller was run and succeeded.
pub proof fn law_release_only_after_uninstall(
    state: RemovalState<Seq<char>>,
    reply: Reply<Seq<char>>,
)
    requires
        removal_next(state, reply) matches Progress::Ask(RemovalState::Releasing(_), _),
        !(state is Releasing),
    ensures
        state is Uninstalling,
        settled(reply) is Ok,
{
}

} // verus!
