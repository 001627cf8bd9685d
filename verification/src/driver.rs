//! Installing and removing the driver.
//!
//! The driver comes with the toolkit's installer. To install it the
//! workflow first brings the kernel dependencies in place; where that
//! installs a new kernel it restarts the host and ends, and the caller
//! starts over after the restart. Else it fetches the installer, runs it for
//! the driver alone, looks whether the driver is there, and holds the kernel
//! packages if it is.

use crate::deps::{deps_next, deps_start, install_dependencies_debian, Deps, DepsState, Gate};
use crate::fetch::{download_file, fetch_next, fetch_start, Fetch, FetchState};
use crate::hold::{hold_next, hold_start, lock_kernel_updates_debian, Hold, HoldState};
use crate::host::{checked, play, run_checked, settle, settled, Progress, Reply, Request, Trace};
use crate::presence::{presence_next, presence_start, verify_driver, Presence, PresenceState};
use crate::release::{platform_suffix, release_of, CloudProvider, CudaConfig, CudaVersion};
use vstd::prelude::*;

verus! {

/// How the installation of the driver ended.
#[derive(Debug, Clone, PartialEq, Eq)]
pub enum DriverOutcome<T> {
    /// A new kernel was installed and the restart has been issued. The
    /// installation goes on when the workflow is started again.
    Rebooting,
    /// The driver is installed and the kernel packages are held.
    Installed,
    /// The installer ran, but the driver does not show. Nothing is held.
    NotVerified { report: Option<T> },
}

impl View for DriverOutcome<String> {
    type V = DriverOutcome<Seq<char>>;

    open spec fn view(&self) -> DriverOutcome<Seq<char>> {
        match self {
            DriverOutcome::Rebooting => DriverOutcome::Rebooting,
            DriverOutcome::Installed => DriverOutcome::Installed,
            DriverOutcome::NotVerified { report } => DriverOutcome::NotVerified {
                report: match report {
                    Some(text) => Some(text@),
                    None => None,
                },
            },
        }
    }
}

/// Where the installation of the driver stands.
#[derive(Debug, Clone, PartialEq, Eq)]
pub enum DriverState<T> {
    /// Bringing the kernel dependencies in place.
    Preparing { deps: DepsState<T>, version: CudaVersion },
    /// Asked for the restart.
    Rebooting,
    /// Fetching the installer.
    Fetching(FetchState<T>),
    /// Asked for the run of the installer.
    Installing,
    /// Looking whether the driver is there.
    Verifying(PresenceState),
    /// Holding the kernel packages.
    Holding(HoldState),
}

impl View for DriverState<String> {
    type V = DriverState<Seq<char>>;

    open spec fn view(&self) -> DriverState<Seq<char>> {
        match self {
            DriverState::Preparing { deps, version } => DriverState::Preparing {
                deps: deps@,
                version: *version,
            },
            DriverState::Rebooting => DriverState::Rebooting,
            DriverState::Fetching(fetch) => DriverState::Fetching(fetch@),
            DriverState::Installing => DriverState::Installing,
            DriverState::Verifying(presence) => DriverState::Verifying(*presence),
            DriverState::Holding(hold) => DriverState::Holding(*hold),
        }
    }
}

/// The installation of the driver in progress, or how it ended.
pub type Driver<T> = Progress<DriverState<T>, DriverOutcome<T>, T>;

/// The command that restarts the host.
pub open spec fn reboot_command() -> Seq<char> {
    "reboot now"@
}

/// The command that runs the installer at `installer` for the driver alone,
/// without questions.
pub open spec fn driver_install_command(installer: Seq<char>) -> Seq<char> {
    "sh "@ + installer + " --silent --driver"@
}

/// The installation of the driver once the kernel packages are dealt with.
pub open spec fn driver_after_hold(step: Hold<Seq<char>>) -> Driver<Seq<char>> {
    match step {
        Progress::Ask(state, request) => Progress::Ask(DriverState::Holding(state), request),
        Progress::Done(Ok(_)) => Progress::Done(Ok(DriverOutcome::Installed)),
        Progress::Done(Err(failure)) => Progress::Done(Err(failure)),
    }
}

/// The installation of the driver once the look for the driver has moved:
/// a driver that shows has its kernel held, one that does not is reported.
pub open spec fn driver_after_presence(step: Presence<Seq<char>>) -> Driver<Seq<char>> {
    match step {
        Progress::Ask(state, request) => Progress::Ask(DriverState::Verifying(state), request),
        Progress::Done(Ok(found)) => if found.installed {
            driver_after_hold(hold_start(true))
        } else {
            Progress::Done(Ok(DriverOutcome::NotVerified { report: found.report }))
        },
        Progress::Done(Err(failure)) => Progress::Done(Err(failure)),
    }
}

/// The installation of the driver once the fetch has moved: the fetched
/// installer is run.
pub open spec fn driver_after_fetch(step: Fetch<Seq<char>>) -> Driver<Seq<char>> {
    match step {
        Progress::Ask(state, request) => Progress::Ask(DriverState::Fetching(state), request),
        Progress::Done(Ok(installer)) => Progress::Ask(
            DriverState::Installing,
            Request::Run(checked(driver_install_command(installer))),
        ),
        Progress::Done(Err(failure)) => Progress::Done(Err(failure)),
    }
}

/// The installation of the driver once the dependency installer has moved:
/// with a new kernel the host is restarted, else the installer is fetched.
pub open spec fn driver_after_deps(step: Deps<Seq<char>>, version: CudaVersion) -> Driver<
    Seq<char>,
> {
    match step {
        Progress::Ask(deps, request) => Progress::Ask(
            DriverState::Preparing { deps, version },
            request,
        ),
        Progress::Done(Ok(Gate::Proceed)) => driver_after_fetch(
            fetch_start(release_of(version).toolkit_url, release_of(version).toolkit_checksum),
        ),
        Progress::Done(Ok(Gate::RebootRequired)) => Progress::Ask(
            DriverState::Rebooting,
            Request::Run(checked(reboot_command())),
        ),
        Progress::Done(Err(failure)) => Progress::Done(Err(failure)),
    }
}

/// The first step: start the dependency installer.
pub open spec fn driver_start(suffix: Seq<char>, version: CudaVersion) -> Driver<Seq<char>> {
    driver_after_deps(deps_start(suffix), version)
}

/// The step that follows `reply`.
pub open spec fn driver_next(state: DriverState<Seq<char>>, reply: Reply<Seq<char>>) -> Driver<
    Seq<char>,
> {
    match state {
        DriverState::Preparing { deps, version } => driver_after_deps(
            deps_next(deps, reply),
            version,
        ),
        DriverState::Rebooting => match settled(reply) {
            Ok(_) => Progress::Done(Ok(DriverOutcome::Rebooting)),
            Err(failure) => Progress::Done(Err(failure)),
        },
        DriverState::Fetching(fetch) => driver_after_fetch(fetch_next(fetch, reply)),
        DriverState::Installing => match settled(reply) {
            Ok(_) => driver_after_presence(presence_start(true)),
            Err(failure) => Progress::Done(Err(failure)),
        },
        DriverState::Verifying(presence) => driver_after_presence(presence_next(presence, reply)),
        DriverState::Holding(hold) => driver_after_hold(hold_next(hold, reply)),
    }
}

/// The run of the installation of the driver against a host that answers
/// with `replies`.
pub open spec fn driver_run(
    suffix: Seq<char>,
    version: CudaVersion,
    replies: Seq<Reply<Seq<char>>>,
) -> Trace<DriverOutcome<Seq<char>>> {
    play(
        |state: DriverState<Seq<char>>, reply: Reply<Seq<char>>| driver_next(state, reply),
        driver_start(suffix, version),
        replies,
    )
}

/// The request for the restart of the host.
pub fn reboot() -> (request: Request<String>)
    ensures
        request@ == Request::Run(checked(reboot_command())),
{
    run_checked(String::from_str("reboot now"))
}

/// Starts to fetch the installer of a release.
pub fn download_cuda_toolkit_installer(cuda_config: &CudaConfig) -> (step: Fetch<String>)
    ensures
        step@ == fetch_start(cuda_config@.toolkit_url, cuda_config@.toolkit_checksum),
{
    download_file(cuda_config.toolkit_url(), cuda_config.toolkit_checksum())
}

fn after_hold(step: Hold<String>) -> (next: Driver<String>)
    ensures
        next@ == driver_after_hold(step@),
{
    match step {
        Progress::Ask(state, request) => Progress::Ask(DriverState::Holding(state), request),
        Progress::Done(Ok(_)) => Progress::Done(Ok(DriverOutcome::Installed)),
        Progress::Done(Err(failure)) => Progress::Done(Err(failure)),
    }
}

fn after_presence(step: Presence<String>) -> (next: Driver<String>)
    ensures
        next@ == driver_after_presence(step@),
{
    match step {
        Progress::Ask(state, request) => Progress::Ask(DriverState::Verifying(state), request),
        Progress::Done(Ok(found)) => if found.installed {
            after_hold(lock_kernel_updates_debian())
        } else {
            Progress::Done(Ok(DriverOutcome::NotVerified { report: found.report }))
        },
        Progress::Done(Err(failure)) => Progress::Done(Err(failure)),
    }
}

fn after_fetch(step: Fetch<String>) -> (next: Driver<String>)
    ensures
        next@ == driver_after_fetch(step@),
{
    match step {
        Progress::Ask(state, request) => Progress::Ask(DriverState::Fetching(state), request),
        Progress::Done(Ok(installer)) => {
            let mut command = String::from_str("sh ");
            command.append(installer.as_str());
            command.append(" --silent --driver");
            Progress::Ask(DriverState::Installing, run_checked(command))
        },
        Progress::Done(Err(failure)) => Progress::Done(Err(failure)),
    }
}

fn after_deps(step: Deps<String>, version: CudaVersion) -> (next: Driver<String>)
    ensures
        next@ == driver_after_deps(step@, version),
{
    match step {
        Progress::Ask(deps, request) => Progress::Ask(
            DriverState::Preparing { deps, version },
            request,
        ),
        Progress::Done(Ok(Gate::Proceed)) => {
            let config = CudaConfig::new(version);
            after_fetch(download_cuda_toolkit_installer(&config))
        },
        Progress::Done(Ok(Gate::RebootRequired)) => Progress::Ask(DriverState::Rebooting, reboot()),
        Progress::Done(Err(failure)) => Progress::Done(Err(failure)),
    }
}

/// Starts the installation of the driver that comes with `cuda_version` on
/// a host of the given platform.
pub fn install_driver(cloud_provider: CloudProvider, cuda_version: CudaVersion) -> (step: Driver<
    String,
>)
    ensures
        step@ == driver_start(platform_suffix(cloud_provider), cuda_version),
{
    after_deps(install_dependencies_debian(cloud_provider), cuda_version)
}

/// A driver that does not show after the installer has run is reported and
/// not held. When the installer has succeeded the installation looks for the
/// diagnostic tool; where that is missing it ends well, with the report
/// that the driver is not installed, and asks for nothing more: the kernel
/// packages stay as they are.
pub proof fn law_unverified_driver_is_not_held(ran: Reply<Seq<char>>, looked: Reply<Seq<char>>)
    requires
        settled(ran) is Ok,
        looked matches Reply::Ran(located) && !located.success,
    ensures
        driver_next(DriverState::Installing, ran) == Progress::<
            DriverState<Seq<char>>,
            DriverOutcome<Seq<char>>,
            Seq<char>,
        >::Ask(
            DriverState::Verifying(PresenceState::Locating { verbose: true }),
            Request::Run(crate::host::probe(crate::presence::locate_command())),
        ),
        driver_next(
            DriverState::Verifying(PresenceState::Locating { verbose: true }),
            looked,
        ) == Progress::<DriverState<Seq<char>>, DriverOutcome<Seq<char>>, Seq<char>>::Done(
            Ok(DriverOutcome::NotVerified { report: Some(crate::presence::absent_report()) }),
        ),
{
}

/// Where the dependency installer asks for a restart, the driver's
/// installation asks for the restart and nothing else, and ends when it is
/// issued.
pub proof fn law_new_kernel_restarts_the_host(version: CudaVersion, issued: Reply<Seq<char>>)
    requires
        settled(issued) is Ok,
    ensures
        driver_after_deps(Progress::Done(Ok(Gate::RebootRequired)), version) == Progress::<
            DriverState<Seq<char>>,
            DriverOutcome<Seq<char>>,
            Seq<char>,
        >::Ask(DriverState::Rebooting, Request::Run(checked(reboot_command()))),
        driver_next(DriverState::Rebooting, issued) == Progress::<
            DriverState<Seq<char>>,
            DriverOutcome<Seq<char>>,
            Seq<char>,
        >::Done(Ok(DriverOutcome::Rebooting)),
{
}

/// The whole installation on a host that needs no new kernel, has no
/// installer yet and lacks the diagnostic tool: after the survey of the
/// dependency installer the installer is fetched, its checksum is held
/// against the release's, it is run for the driver, and the look for the
/// diagnostic tool ends the run. The end is a result, not a failure, and
/// nothing was asked of the package manager after the survey: the kernel
/// packages are not held.
#[verifier::rlimit(60)]
pub proof fn law_fresh_host_without_tool(
    provider: CloudProvider,
    version: CudaVersion,
    replies: Seq<Reply<Seq<char>>>,
    first_release: Seq<char>,
    listing: Seq<char>,
    second_release: Seq<char>,
    target: crate::target::KernelIdentity<Seq<char>>,
)
    requires
        crate::deps::surveyed(replies, first_release, listing, second_release, true),
        crate::target::resolve_target(
            crate::deps::kernel_release(first_release),
            listing,
            platform_suffix(provider),
        ) == Some(target),
        crate::target::matches_installed(
            target,
            crate::deps::kernel_release(second_release),
            true,
        ),
        replies.len() >= 10,
        replies[5] == Reply::<Seq<char>>::Exists(false),
        replies[6] matches Reply::Ran(downloaded) && downloaded.success,
        replies[7] matches Reply::Ran(summed) && summed.success
            && crate::fetch::printed_checksum(summed.stdout) == release_of(
            version,
        ).toolkit_checksum,
        replies[8] matches Reply::Ran(installed) && installed.success,
        replies[9] matches Reply::Ran(located) && !located.success,
    ensures
        driver_run(platform_suffix(provider), version, replies) == (Trace::<
            DriverOutcome<Seq<char>>,
        > {
            asked: crate::deps::survey(target) + fetch_and_install(version).push(
                Request::Run(crate::host::probe(crate::presence::locate_command())),
            ),
            end: Some(
                Ok(DriverOutcome::NotVerified { report: Some(crate::presence::absent_report()) }),
            ),
        }),
{
    reveal_with_fuel(play, 12);
    let r1 = replies.skip(1);
    let r2 = r1.skip(1);
    let r3 = r2.skip(1);
    let r4 = r3.skip(1);
    let r5 = r4.skip(1);
    let r6 = r5.skip(1);
    let r7 = r6.skip(1);
    let r8 = r7.skip(1);
    let r9 = r8.skip(1);
    assert(r1[0] == replies[1]);
    assert(r2[0] == replies[2]);
    assert(r3[0] == replies[3]);
    assert(r4[0] == replies[4]);
    assert(r5[0] == replies[5]);
    assert(r6[0] == replies[6]);
    assert(r7[0] == replies[7]);
    assert(r8[0] == replies[8]);
    assert(r9[0] == replies[9]);
    assert(driver_run(platform_suffix(provider), version, replies).asked =~= crate::deps::survey(
        target,
    ) + fetch_and_install(version).push(
        Request::Run(crate::host::probe(crate::presence::locate_command())),
    ));
}

/// The requests that fetch the installer of a release and run it for the
/// driver, where the installer is not there yet.
pub open spec fn fetch_and_install(version: CudaVersion) -> Seq<Request<Seq<char>>> {
    let url = release_of(version).toolkit_url;
    let file = crate::fetch::last_segment(url);
    seq![
        Request::PathExists { path: file },
        Request::Run(checked(crate::fetch::download_command(url))),
        Request::Run(crate::host::checked_quiet(crate::fetch::checksum_command(file))),
        Request::Run(checked(driver_install_command(file))),
    ]
}

impl DriverState<String> {
    /// Takes the reply to the last request and says what comes next.
    pub fn next(self, reply: Reply<String>) -> (step: Driver<String>)
        ensures
            step@ == driver_next(self@, reply@),
    {
        match self {
            DriverState::Preparing { deps, version } => after_deps(deps.next(reply), version),
            DriverState::Rebooting => match settle(reply) {
                Ok(_) => Progress::Done(Ok(DriverOutcome::Rebooting)),
                Err(failure) => Progress::Done(Err(failure)),
            },
            DriverState::Fetching(fetch) => after_fetch(fetch.next(reply)),
            DriverState::Installing => match settle(reply) {
                Ok(_) => after_presence(verify_driver(true)),
                Err(failure) => Progress::Done(Err(failure)),
            },
            DriverState::Verifying(presence) => after_presence(presence.next(reply)),
            DriverState::Holding(hold) => after_hold(hold.next(reply)),
        }
    }
}

/// How many requests the installation of the driver can still make once
/// the one that is out is answered.
pub open spec fn driver_left(state: DriverState<Seq<char>>) -> nat {
    match state {
        DriverState::Preparing { deps, .. } => crate::deps::deps_left(deps) + 8,
        DriverState::Rebooting => 0,
        DriverState::Fetching(fetch) => crate::fetch::fetch_left(fetch) + 5,
        DriverState::Installing => 4,
        DriverState::Verifying(presence) => crate::presence::presence_left(presence) + 2,
        DriverState::Holding(hold) => crate::hold::hold_left(hold),
    }
}

/// The installation of the driver asks for fourteen things at most, and it
/// has ended when fourteen requests are answered, whatever the answers.
pub proof fn law_driver_run_ends(
    suffix: Seq<char>,
    version: CudaVersion,
    replies: Seq<Reply<Seq<char>>>,
)
    ensures
        driver_run(suffix, version, replies).asked.len() <= 14,
        replies.len() >= 14 ==> driver_run(suffix, version, replies).end is Some,
{
    crate::host::lemma_run_ends(
        |state: DriverState<Seq<char>>, reply: Reply<Seq<char>>| driver_next(state, reply),
        |state: DriverState<Seq<char>>| driver_left(state),
        driver_start(suffix, version),
        replies,
    );
}

/// The kernel packages are held in one situation only: the diagnostic tool
/// was asked for its devices, ran with success and listed one.
pub proof fn law_hold_only_when_device_shows(
    state: DriverState<Seq<char>>,
    reply: Reply<Seq<char>>,
)
    requires
        driver_next(state, reply) matches Progress::Ask(DriverState::Holding(_), _),
        !(state is Holding),
    ensures
        state matches DriverState::Verifying(PresenceState::Listing { .. }),
        reply matches Reply::Ran(listed) && crate::presence::shows_device(
            listed.success,
            listed.stdout,
        ),
{
}

/// The installer is run for the driver in one situation only: the fetch
/// has just ended with the installer's path.
pub proof fn law_driver_installer_needs_fetch(
    state: DriverState<Seq<char>>,
    reply: Reply<Seq<char>>,
)
    requires
        driver_next(state, reply) matches Progress::Ask(DriverState::Installing, _),
    ensures
        state matches DriverState::Fetching(fetch) && fetch_next(fetch, reply) matches Progress::Done(
            Ok(_),
        ),
{
}

} // verus!
