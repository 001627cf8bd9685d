//! Installing the toolkit.
//!
//! The toolkit needs the driver: where no driver shows, the driver is
//! installed first. A toolkit whose compiler is already in place is left
//! alone. After a fresh installation the host is always restarted, so that
//! every session starts with the new search paths.

use crate::driver::{
    driver_next, driver_start, download_cuda_toolkit_installer, install_driver, reboot,
    reboot_command, Driver, DriverOutcome, DriverState,
};
use crate::fetch::{fetch_next, fetch_start, Fetch, FetchState};
use crate::host::{
    checked, find_out, found, play, probe, run_checked, settle, settled, Progress, Reply, Request,
    Trace,
};
use crate::presence::{
    list_command, locate_command, presence_next, presence_start, shows_device, verify_driver,
    Presence, PresenceState,
};
use crate::release::{platform_suffix, release_of, CloudProvider, CudaConfig, CudaVersion, Release};
use crate::setup::{
    cuda_postinstallation_actions, setup_next, setup_start, SearchPaths, Setup, SetupState,
};
use vstd::prelude::*;

verus! {

/// How the installation of the toolkit ended.
#[derive(Debug, Clone, Copy, PartialEq, Eq, Structural)]
pub enum ToolkitOutcome {
    /// The toolkit's compiler was already in place; nothing was installed.
    AlreadyInstalled,
    /// The toolkit is installed and configured; the host has to restart.
    RebootRequired,
    /// The driver's installation installed a new kernel and has issued the
    /// restart. The installation goes on when the workflow is started again.
    Rebooting,
}

impl View for ToolkitOutcome {
    type V = ToolkitOutcome;

    open spec fn view(&self) -> ToolkitOutcome {
        *self
    }
}

/// Where the installation of the toolkit stands.
#[derive(Debug, Clone, PartialEq, Eq)]
pub enum ToolkitState<T> {
    /// Looking whether the driver is there.
    Verifying {
        presence: PresenceState,
        provider: CloudProvider,
        version: CudaVersion,
        paths: SearchPaths<T>,
    },
    /// Installing the driver.
    InstallingDriver { driver: DriverState<T>, version: CudaVersion, paths: SearchPaths<T> },
    /// Asked whether the toolkit's compiler is in place.
    ProbingCompiler { version: CudaVersion, paths: SearchPaths<T> },
    /// Fetching the installer.
    Fetching { fetch: FetchState<T>, version: CudaVersion, paths: SearchPaths<T> },
    /// Asked for the run of the installer.
    InstallingToolkit { version: CudaVersion, paths: SearchPaths<T> },
    /// Configuring what was installed.
    Configuring(SetupState<T>),
}

impl View for ToolkitState<String> {
    type V = ToolkitState<Seq<char>>;

    open spec fn view(&self) -> ToolkitState<Seq<char>> {
        match self {
            ToolkitState::Verifying { presence, provider, version, paths } => {
                ToolkitState::Verifying {
                    presence: *presence,
                    provider: *provider,
                    version: *version,
                    paths: paths@,
                }
            },
            ToolkitState::InstallingDriver { driver, version, paths } => {
                ToolkitState::InstallingDriver { driver: driver@, version: *version, paths: paths@ }
            },
            ToolkitState::ProbingCompiler { version, paths } => ToolkitState::ProbingCompiler {
                version: *version,
                paths: paths@,
            },
            ToolkitState::Fetching { fetch, version, paths } => ToolkitState::Fetching {
                fetch: fetch@,
                version: *version,
                paths: paths@,
            },
            ToolkitState::InstallingToolkit { version, paths } => ToolkitState::InstallingToolkit {
                version: *version,
                paths: paths@,
            },
            ToolkitState::Configuring(setup) => ToolkitState::Configuring(setup@),
        }
    }
}

/// The installation of the toolkit in progress, or how it ended.
pub type Toolkit<T> = Progress<ToolkitState<T>, ToolkitOutcome, T>;

/// Where the toolkit's compiler lies once the toolkit is installed.
pub open spec fn compiler_path(release: Release) -> Seq<char> {
    release.bin_folder + "/nvcc"@
}

/// The command that runs the installer at `installer` for the toolkit
/// alone, without questions.
pub open spec fn toolkit_install_command(installer: Seq<char>) -> Seq<char> {
    "sh "@ + installer + " --silent --toolkit"@
}

/// The question whether the toolkit's compiler is in place.
pub open spec fn compiler_probe(version: CudaVersion, paths: SearchPaths<Seq<char>>) -> Toolkit<
    Seq<char>,
> {
    Progress::Ask(
        ToolkitState::ProbingCompiler { version, paths },
        Request::PathExists { path: compiler_path(release_of(version)) },
    )
}

/// The installation once the configuration has moved: when it is done, a
/// restart is due.
pub open spec fn toolkit_after_setup(step: Setup<Seq<char>>) -> Toolkit<Seq<char>> {
    match step {
        Progress::Ask(setup, request) => Progress::Ask(ToolkitState::Configuring(setup), request),
        Progress::Done(Ok(_)) => Progress::Done(Ok(ToolkitOutcome::RebootRequired)),
        Progress::Done(Err(failure)) => Progress::Done(Err(failure)),
    }
}

/// The installation once the fetch has moved: the fetched installer is
/// run.
pub open spec fn toolkit_after_fetch(
    step: Fetch<Seq<char>>,
    version: CudaVersion,
    paths: SearchPaths<Seq<char>>,
) -> Toolkit<Seq<char>> {
    match step {
        Progress::Ask(fetch, request) => Progress::Ask(
            ToolkitState::Fetching { fetch, version, paths },
            request,
        ),
        Progress::Done(Ok(installer)) => Progress::Ask(
            ToolkitState::InstallingToolkit { version, paths },
            Request::Run(checked(toolkit_install_command(installer))),
        ),
        Progress::Done(Err(failure)) => Progress::Done(Err(failure)),
    }
}

/// The installation once the driver's installation has moved: when that has
/// ended without a restart, with the driver showing or not, the toolkit is
/// looked for.
pub open spec fn toolkit_after_driver(
    step: Driver<Seq<char>>,
    version: CudaVersion,
    paths: SearchPaths<Seq<char>>,
) -> Toolkit<Seq<char>> {
    match step {
        Progress::Ask(driver, request) => Progress::Ask(
            ToolkitState::InstallingDriver { driver, version, paths },
            request,
        ),
        Progress::Done(Ok(DriverOutcome::Rebooting)) => Progress::Done(
            Ok(ToolkitOutcome::Rebooting),
        ),
        Progress::Done(Ok(_)) => compiler_probe(version, paths),
        Progress::Done(Err(failure)) => Progress::Done(Err(failure)),
    }
}

/// The installation once the look for the driver has moved: a driver that
/// does not show, or cannot be looked for, is installed.
pub open spec fn toolkit_after_presence(
    step: Presence<Seq<char>>,
    provider: CloudProvider,
    version: CudaVersion,
    paths: SearchPaths<Seq<char>>,
) -> Toolkit<Seq<char>> {
    match step {
        Progress::Ask(presence, request) => Progress::Ask(
            ToolkitState::Verifying { presence, provider, version, paths },
            request,
        ),
        Progress::Done(Ok(found)) => if found.installed {
            compiler_probe(version, paths)
        } else {
            toolkit_after_driver(driver_start(platform_suffix(provider), version), version, paths)
        },
        Progress::Done(Err(_)) => toolkit_after_driver(
            driver_start(platform_suffix(provider), version),
            version,
            paths,
        ),
    }
}

/// The first step: look whether the driver is there.
pub open spec fn toolkit_start(
    provider: CloudProvider,
    version: CudaVersion,
    paths: SearchPaths<Seq<char>>,
) -> Toolkit<Seq<char>> {
    toolkit_after_presence(presence_start(false), provider, version, paths)
}

/// The step that follows `reply`.
pub open spec fn toolkit_next(state: ToolkitState<Seq<char>>, reply: Reply<Seq<char>>)
    -> Toolkit<Seq<char>> {
    match state {
        ToolkitState::Verifying { presence, provider, version, paths } => toolkit_after_presence(
            presence_next(presence, reply),
            provider,
            version,
            paths,
        ),
        ToolkitState::InstallingDriver { driver, version, paths } => toolkit_after_driver(
            driver_next(driver, reply),
            version,
            paths,
        ),
        ToolkitState::ProbingCompiler { version, paths } => match found(reply) {
            Ok(true) => Progress::Done(Ok(ToolkitOutcome::AlreadyInstalled)),
            Ok(false) => toolkit_after_fetch(
                fetch_start(release_of(version).toolkit_url, release_of(version).toolkit_checksum),
                version,
                paths,
            ),
            Err(failure) => Progress::Done(Err(failure)),
        },
        ToolkitState::Fetching { fetch, version, paths } => toolkit_after_fetch(
            fetch_next(fetch, reply),
            version,
            paths,
        ),
        ToolkitState::InstallingToolkit { version, paths } => match settled(reply) {
            Ok(_) => toolkit_after_setup(setup_start(version, paths)),
            Err(failure) => Progress::Done(Err(failure)),
        },
        ToolkitState::Configuring(setup) => toolkit_after_setup(setup_next(setup, reply)),
    }
}

/// How the installation of the toolkit ended for the caller.
#[derive(Debug, Clone, Copy, PartialEq, Eq, Structural)]
pub enum CudaOutcome {
    /// The toolkit's compiler was already in place; nothing was installed.
    AlreadyInstalled,
    /// The restart has been issued.
    Rebooting,
}

impl View for CudaOutcome {
    type V = CudaOutcome;

    open spec fn view(&self) -> CudaOutcome {
        *self
    }
}

/// Where the installation of the toolkit stands for the caller.
#[derive(Debug, Clone, PartialEq, Eq)]
pub enum CudaState<T> {
    /// Installing.
    Installing(ToolkitState<T>),
    /// Asked for the restart.
    Rebooting,
}

impl View for CudaState<String> {
    type V = CudaState<Seq<char>>;

    open spec fn view(&self) -> CudaState<Seq<char>> {
        match self {
            CudaState::Installing(toolkit) => CudaState::Installing(toolkit@),
            CudaState::Rebooting => CudaState::Rebooting,
        }
    }
}

/// The installation of the toolkit with its restart, in progress or ended.
pub type Cuda<T> = Progress<CudaState<T>, CudaOutcome, T>;

/// The whole once the installation has moved: a restart that is due is
/// asked for.
pub open spec fn cuda_after_toolkit(step: Toolkit<Seq<char>>) -> Cuda<Seq<char>> {
    match step {
        Progress::Ask(toolkit, request) => Progress::Ask(CudaState::Installing(toolkit), request),
        Progress::Done(Ok(ToolkitOutcome::AlreadyInstalled)) => Progress::Done(
            Ok(CudaOutcome::AlreadyInstalled),
        ),
        Progress::Done(Ok(ToolkitOutcome::RebootRequired)) => Progress::Ask(
            CudaState::Rebooting,
            Request::Run(checked(reboot_command())),
        ),
        Progress::Done(Ok(ToolkitOutcome::Rebooting)) => Progress::Done(
            Ok(CudaOutcome::Rebooting),
        ),
        Progress::Done(Err(failure)) => Progress::Done(Err(failure)),
    }
}

/// The first step of the whole.
pub open spec fn cuda_start(
    provider: CloudProvider,
    version: CudaVersion,
    paths: SearchPaths<Seq<char>>,
) -> Cuda<Seq<char>> {
    cuda_after_toolkit(toolkit_start(provider, version, paths))
}

/// The step of the whole that follows `reply`.
pub open spec fn cuda_next(state: CudaState<Seq<char>>, reply: Reply<Seq<char>>) -> Cuda<
    Seq<char>,
> {
    match state {
        CudaState::Installing(toolkit) => cuda_after_toolkit(toolkit_next(toolkit, reply)),
        CudaState::Rebooting => match settled(reply) {
            Ok(_) => Progress::Done(Ok(CudaOutcome::Rebooting)),
            Err(failure) => Progress::Done(Err(failure)),
        },
    }
}

/// The run of the installation of the toolkit, with its restart, against a
/// host that answers with `replies`.
pub open spec fn cuda_run(
    provider: CloudProvider,
    version: CudaVersion,
    paths: SearchPaths<Seq<char>>,
    replies: Seq<Reply<Seq<char>>>,
) -> Trace<CudaOutcome> {
    play(
        |state: CudaState<Seq<char>>, reply: Reply<Seq<char>>| cuda_next(state, reply),
        cuda_start(provider, version, paths),
        replies,
    )
}

fn probe_compiler(version: CudaVersion, paths: SearchPaths<String>) -> (step: Toolkit<String>)
    ensures
        step@ == compiler_probe(version, paths@),
{
    let config = CudaConfig::new(version);
    let mut path = String::from_str(config.bin_folder());
    path.append("/nvcc");
    Progress::Ask(ToolkitState::ProbingCompiler { version, paths }, Request::PathExists { path })
}

fn after_setup(step: Setup<String>) -> (next: Toolkit<String>)
    ensures
        next@ == toolkit_after_setup(step@),
{
    match step {
        Progress::Ask(setup, request) => Progress::Ask(ToolkitState::Configuring(setup), request),
        Progress::Done(Ok(_)) => Progress::Done(Ok(ToolkitOutcome::RebootRequired)),
        Progress::Done(Err(failure)) => Progress::Done(Err(failure)),
    }
}

fn after_fetch(step: Fetch<String>, version: CudaVersion, paths: SearchPaths<String>) -> (next:
    Toolkit<String>)
    ensures
        next@ == toolkit_after_fetch(step@, version, paths@),
{
    match step {
        Progress::Ask(fetch, request) => Progress::Ask(
            ToolkitState::Fetching { fetch, version, paths },
            request,
        ),
        Progress::Done(Ok(installer)) => {
            let mut command = String::from_str("sh ");
            command.append(installer.as_str());
            command.append(" --silent --toolkit");
            Progress::Ask(ToolkitState::InstallingToolkit { version, paths }, run_checked(command))
        },
        Progress::Done(Err(failure)) => Progress::Done(Err(failure)),
    }
}

fn after_driver(step: Driver<String>, version: CudaVersion, paths: SearchPaths<String>) -> (next:
    Toolkit<String>)
    ensures
        next@ == toolkit_after_driver(step@, version, paths@),
{
    match step {
        Progress::Ask(driver, request) => Progress::Ask(
            ToolkitState::InstallingDriver { driver, version, paths },
            request,
        ),
        Progress::Done(Ok(DriverOutcome::Rebooting)) => Progress::Done(
            Ok(ToolkitOutcome::Rebooting),
        ),
        Progress::Done(Ok(_)) => probe_compiler(version, paths),
        Progress::Done(Err(failure)) => Progress::Done(Err(failure)),
    }
}

fn after_presence(
    step: Presence<String>,
    provider: CloudProvider,
    version: CudaVersion,
    paths: SearchPaths<String>,
) -> (next: Toolkit<String>)
    ensures
        next@ == toolkit_after_presence(step@, provider, version, paths@),
{
    match step {
        Progress::Ask(presence, request) => Progress::Ask(
            ToolkitState::Verifying { presence, provider, version, paths },
            request,
        ),
        Progress::Done(Ok(found)) => if found.installed {
            probe_compiler(version, paths)
        } else {
            after_driver(install_driver(provider, version), version, paths)
        },
        Progress::Done(Err(_)) => after_driver(install_driver(provider, version), version, paths),
    }
}

/// Starts the installation of the toolkit on a host of the given platform,
/// in a process whose search paths are `paths`. The result says whether a
/// restart is due; it is the caller who asks for it.
pub fn install_cuda_inner(
    cloud_provider: CloudProvider,
    cuda_version: CudaVersion,
    paths: SearchPaths<String>,
) -> (step: Toolkit<String>)
    ensures
        step@ == toolkit_start(cloud_provider, cuda_version, paths@),
{
    after_presence(verify_driver(false), cloud_provider, cuda_version, paths)
}

impl ToolkitState<String> {
    /// Takes the reply to the last request and says what comes next.
    pub fn next(self, reply: Reply<String>) -> (step: Toolkit<String>)
        ensures
            step@ == toolkit_next(self@, reply@),
    {
        match self {
            ToolkitState::Verifying { presence, provider, version, paths } => after_presence(
                presence.next(reply),
                provider,
                version,
                paths,
            ),
            ToolkitState::InstallingDriver { driver, version, paths } => after_driver(
                driver.next(reply),
                version,
                paths,
            ),
            ToolkitState::ProbingCompiler { version, paths } => match find_out(reply) {
                Ok(true) => Progress::Done(Ok(ToolkitOutcome::AlreadyInstalled)),
                Ok(false) => {
                    let config = CudaConfig::new(version);
                    after_fetch(download_cuda_toolkit_installer(&config), version, paths)
                },
                Err(failure) => Progress::Done(Err(failure)),
            },
            ToolkitState::Fetching { fetch, version, paths } => after_fetch(
                fetch.next(reply),
                version,
                paths,
            ),
            ToolkitState::InstallingToolkit { version, paths } => match settle(reply) {
                Ok(_) => {
                    let config = CudaConfig::new(version);
                    after_setup(cuda_postinstallation_actions(&config, &paths))
                },
                Err(failure) => Progress::Done(Err(failure)),
            },
            ToolkitState::Configuring(setup) => after_setup(setup.next(reply)),
        }
    }
}

fn after_toolkit(step: Toolkit<String>) -> (next: Cuda<String>)
    ensures
        next@ == cuda_after_toolkit(step@),
{
    match step {
        Progress::Ask(toolkit, request) => Progress::Ask(CudaState::Installing(toolkit), request),
        Progress::Done(Ok(ToolkitOutcome::AlreadyInstalled)) => Progress::Done(
            Ok(CudaOutcome::AlreadyInstalled),
        ),
        Progress::Done(Ok(ToolkitOutcome::RebootRequired)) => Progress::Ask(
            CudaState::Rebooting,
            reboot(),
        ),
        Progress::Done(Ok(ToolkitOutcome::Rebooting)) => Progress::Done(
            Ok(CudaOutcome::Rebooting),
        ),
        Progress::Done(Err(failure)) => Progress::Done(Err(failure)),
    }
}

/// Starts the installation of the toolkit on a host of the given platform,
/// in a process whose search paths are `paths`, and restarts the host when
/// the installation asks for it.
pub fn install_cuda(
    cloud_provider: CloudProvider,
    cuda_version: CudaVersion,
    paths: SearchPaths<String>,
) -> (step: Cuda<String>)
    ensures
        step@ == cuda_start(cloud_provider, cuda_version, paths@),
{
    after_toolkit(install_cuda_inner(cloud_provider, cuda_version, paths))
}

impl CudaState<String> {
    /// Takes the reply to the last request and says what comes next.
    pub fn next(self, reply: Reply<String>) -> (step: Cuda<String>)
        ensures
            step@ == cuda_next(self@, reply@),
    {
        match self {
            CudaState::Installing(toolkit) => after_toolkit(toolkit.next(reply)),
            CudaState::Rebooting => match settle(reply) {
                Ok(_) => Progress::Done(Ok(CudaOutcome::Rebooting)),
                Err(failure) => Progress::Done(Err(failure)),
            },
        }
    }
}

/// A toolkit whose compiler is in place is not installed again. On a host
/// where the driver shows, the installation looks for the driver, asks
/// whether the compiler exists, and with the answer that it does it ends:
/// it downloads nothing and runs no installer.
pub proof fn law_installed_toolkit_is_left_alone(
    provider: CloudProvider,
    version: CudaVersion,
    paths: SearchPaths<Seq<char>>,
    replies: Seq<Reply<Seq<char>>>,
)
    requires
        replies.len() >= 3,
        replies[0] matches Reply::Ran(located) && located.success,
        replies[1] matches Reply::Ran(listed) && shows_device(listed.success, listed.stdout),
        replies[2] == Reply::<Seq<char>>::Exists(true),
    ensures
        cuda_run(provider, version, paths, replies) == (Trace::<CudaOutcome> {
            asked: seq![
                Request::Run(probe(locate_command())),
                Request::Run(probe(list_command())),
                Request::PathExists { path: compiler_path(release_of(version)) },
            ],
            end: Some(Ok(CudaOutcome::AlreadyInstalled)),
        }),
{
    reveal_with_fuel(play, 5);
    assert(replies.skip(1)[0] == replies[1]);
    assert(replies.skip(1).skip(1)[0] == replies[2]);
    assert(cuda_run(provider, version, paths, replies).asked =~= seq![
        Request::Run(probe(locate_command())),
        Request::Run(probe(list_command())),
        Request::PathExists { path: compiler_path(release_of(version)) },
    ]);
}

/// Whenever the compiler is found in place, the installation ends there,
/// whatever came before.
pub proof fn law_found_compiler_ends_the_installation(
    version: CudaVersion,
    paths: SearchPaths<Seq<char>>,
)
    ensures
        toolkit_next(
            ToolkitState::ProbingCompiler { version, paths },
            Reply::Exists(true),
        ) == Progress::<ToolkitState<Seq<char>>, ToolkitOutcome, Seq<char>>::Done(
            Ok(ToolkitOutcome::AlreadyInstalled),
        ),
{
}

/// How many requests the installation of the toolkit can still make once
/// the one that is out is answered.
pub open spec fn toolkit_left(state: ToolkitState<Seq<char>>) -> nat {
    match state {
        ToolkitState::Verifying { presence, .. } => crate::presence::presence_left(presence) + 31,
        ToolkitState::InstallingDriver { driver, .. } => crate::driver::driver_left(driver) + 17,
        ToolkitState::ProbingCompiler { .. } => 16,
        ToolkitState::Fetching { fetch, .. } => crate::fetch::fetch_left(fetch) + 13,
        ToolkitState::InstallingToolkit { .. } => 12,
        ToolkitState::Configuring(setup) => crate::setup::setup_left(setup),
    }
}

/// How many requests the installation with its restart can still make once
/// the one that is out is answered.
pub open spec fn cuda_left(state: CudaState<Seq<char>>) -> nat {
    match state {
        CudaState::Installing(toolkit) => toolkit_left(toolkit) + 1,
        CudaState::Rebooting => 0,
    }
}

/// The installation of the toolkit, the driver's installation and the
/// restart included, asks for thirty-four things at most, and it has ended
/// when that many requests are answered, whatever the answers.
pub proof fn law_cuda_run_ends(
    provider: CloudProvider,
    version: CudaVersion,
    paths: SearchPaths<Seq<char>>,
    replies: Seq<Reply<Seq<char>>>,
)
    ensures
        cuda_run(provider, version, paths, replies).asked.len() <= 34,
        replies.len() >= 34 ==> cuda_run(provider, version, paths, replies).end is Some,
{
    crate::host::lemma_run_ends(
        |state: CudaState<Seq<char>>, reply: Reply<Seq<char>>| cuda_next(state, reply),
        |state: CudaState<Seq<char>>| cuda_left(state),
        cuda_start(provider, version, paths),
        replies,
    );
}

/// The toolkit's installer is fetched in one situation only: the
/// installation had asked whether the compiler exists and was told that it
/// does not.
pub proof fn law_toolkit_fetch_only_without_compiler(
    state: ToolkitState<Seq<char>>,
    reply: Reply<Seq<char>>,
)
    requires
        toolkit_next(state, reply) matches Progress::Ask(ToolkitState::Fetching { .. }, _)
            || toolkit_next(state, reply) matches Progress::Ask(
            ToolkitState::InstallingToolkit { .. },
            _,
        ),
        !(state is Fetching),
    ensures
        state is ProbingCompiler,
        reply == Reply::<Seq<char>>::Exists(false),
{
}

/// After a fresh installation a restart is always due: once the
/// configuration has ended well, the installation ends with
/// `RebootRequired`, and the caller's workflow asks for the restart.
pub proof fn law_fresh_toolkit_requires_reboot()
    ensures
        toolkit_after_setup(Progress::Done(Ok(()))) == Progress::<
            ToolkitState<Seq<char>>,
            ToolkitOutcome,
            Seq<char>,
        >::Done(Ok(ToolkitOutcome::RebootRequired)),
        cuda_after_toolkit(Progress::Done(Ok(ToolkitOutcome::RebootRequired))) == Progress::<
            CudaState<Seq<char>>,
            CudaOutcome,
            Seq<char>,
        >::Ask(CudaState::Rebooting, Request::Run(checked(reboot_command()))),
{
}

} // verus!
