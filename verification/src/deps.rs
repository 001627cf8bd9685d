//! The dependency installer and its reboot gate.
//!
//! Before a driver can be built the host needs the newest kernel of its
//! series, that kernel's headers, and the build tools. The workflow finds the
//! target kernel, installs what is missing, and says whether the host has to
//! restart into a new kernel before anything else is done.

use crate::host::{
    checked, lemma_run_ends, observe, observed, play, probe, run_checked, run_probe, settle,
    settled, Failure, Progress, Reply, Request, Trace,
};
use crate::release::{platform_suffix, CloudProvider};
use crate::space::{trim, trimmed};
use crate::target::{
    headers_package, image_package, image_prefix, kernel_series, matches_installed, newest_build,
    newest_kernel_build, resolve_target, runs, series, KernelIdentity,
};
use vstd::prelude::*;

verus! {

/// What the reboot gate decides.
#[derive(Debug, Clone, Copy, PartialEq, Eq, Structural)]
pub enum Gate {
    /// The dependencies are in place and the host runs the target kernel.
    Proceed,
    /// A new kernel image was installed: the host has to restart first.
    RebootRequired,
}

impl View for Gate {
    type V = Gate;

    open spec fn view(&self) -> Gate {
        *self
    }
}

/// Where the dependency installer stands.
#[derive(Debug, Clone, PartialEq, Eq)]
pub enum DepsState<T> {
    /// Asked for a refresh of the package index.
    Updating { suffix: T },
    /// Asked for the running kernel's release, to learn its series.
    ReadingRelease { suffix: T },
    /// Asked for the image packages that the index lists.
    Searching { major: T, minor: T, suffix: T },
    /// Asked for the running kernel's release, to hold it against the target.
    Comparing { target: KernelIdentity<T> },
    /// Asked the package database for the target's headers.
    QueryingHeaders { target: KernelIdentity<T>, running: bool },
    /// Asked for the installation of kernel, headers and build tools.
    Installing { running: bool },
}

impl View for DepsState<String> {
    type V = DepsState<Seq<char>>;

    open spec fn view(&self) -> DepsState<Seq<char>> {
        match self {
            DepsState::Updating { suffix } => DepsState::Updating { suffix: suffix@ },
            DepsState::ReadingRelease { suffix } => DepsState::ReadingRelease { suffix: suffix@ },
            DepsState::Searching { major, minor, suffix } => DepsState::Searching {
                major: major@,
                minor: minor@,
                suffix: suffix@,
            },
            DepsState::Comparing { target } => DepsState::Comparing { target: target@ },
            DepsState::QueryingHeaders { target, running } => DepsState::QueryingHeaders {
                target: target@,
                running: *running,
            },
            DepsState::Installing { running } => DepsState::Installing { running: *running },
        }
    }
}

/// The dependency installer in progress, or the reboot gate's decision.
pub type Deps<T> = Progress<DepsState<T>, Gate, T>;

/// The command that refreshes the package index.
pub open spec fn update_command() -> Seq<char> {
    "apt-get update"@
}

/// The command that prints the running kernel's release.
pub open spec fn release_command() -> Seq<char> {
    "uname -r"@
}

/// The command that lists the image packages of the index, one a line,
/// each line beginning with the package's name.
pub open spec fn search_command() -> Seq<char> {
    "apt-cache search linux-image"@
}

/// The command that succeeds where the package database holds the headers
/// of `kernel`.
pub open spec fn headers_query(kernel: KernelIdentity<Seq<char>>) -> Seq<char> {
    "dpkg -l | grep "@ + headers_package(kernel)
}

/// The command that installs `kernel`, its headers, the build tools and
/// what else a driver build needs, in one go.
pub open spec fn install_command(kernel: KernelIdentity<Seq<char>>) -> Seq<char> {
    "apt-get install -y make gcc "@ + image_package(kernel) + " "@ + headers_package(kernel)
        + " software-properties-common pciutils gcc make dkms"@
}

/// The running kernel's release as the release command printed it.
pub open spec fn kernel_release(stdout: Seq<char>) -> Seq<char> {
    trim(stdout)
}

/// The first step: refresh the package index.
pub open spec fn deps_start(suffix: Seq<char>) -> Deps<Seq<char>> {
    Progress::Ask(DepsState::Updating { suffix }, Request::Run(checked(update_command())))
}

/// The step that follows `reply`.
pub open spec fn deps_next(state: DepsState<Seq<char>>, reply: Reply<Seq<char>>) -> Deps<
    Seq<char>,
> {
    match state {
        DepsState::Updating { suffix } => match settled(reply) {
            Ok(_) => Progress::Ask(
                DepsState::ReadingRelease { suffix },
                Request::Run(checked(release_command())),
            ),
            Err(failure) => Progress::Done(Err(failure)),
        },
        DepsState::ReadingRelease { suffix } => match settled(reply) {
            Ok(output) => match series(kernel_release(output.stdout)) {
                Some((major, minor)) => Progress::Ask(
                    DepsState::Searching { major, minor, suffix },
                    Request::Run(checked(search_command())),
                ),
                None => Progress::Done(
                    Err(Failure::KernelRelease { release: kernel_release(output.stdout) }),
                ),
            },
            Err(failure) => Progress::Done(Err(failure)),
        },
        DepsState::Searching { major, minor, suffix } => match settled(reply) {
            Ok(output) => {
                let build = newest_build(output.stdout, image_prefix(major, minor), suffix);
                let target = KernelIdentity {
                    major,
                    minor,
                    patch: build.0,
                    micro: build.1,
                    suffix,
                };
                Progress::Ask(
                    DepsState::Comparing { target },
                    Request::Run(checked(release_command())),
                )
            },
            Err(failure) => Progress::Done(Err(failure)),
        },
        DepsState::Comparing { target } => match settled(reply) {
            Ok(output) => Progress::Ask(
                DepsState::QueryingHeaders {
                    target,
                    running: runs(kernel_release(output.stdout), target),
                },
                Request::Run(probe(headers_query(target))),
            ),
            Err(failure) => Progress::Done(Err(failure)),
        },
        DepsState::QueryingHeaders { target, running } => match observed(reply) {
            Ok(output) => if running && output.success {
                Progress::Done(Ok(Gate::Proceed))
            } else {
                Progress::Ask(
                    DepsState::Installing { running },
                    Request::Run(checked(install_command(target))),
                )
            },
            Err(failure) => Progress::Done(Err(failure)),
        },
        DepsState::Installing { running } => match settled(reply) {
            Ok(_) => Progress::Done(
                Ok(
                    if running {
                        Gate::Proceed
                    } else {
                        Gate::RebootRequired
                    },
                ),
            ),
            Err(failure) => Progress::Done(Err(failure)),
        },
    }
}

/// The run of the dependency installer against a host that answers with
/// `replies`.
pub open spec fn deps_run(suffix: Seq<char>, replies: Seq<Reply<Seq<char>>>) -> Trace<Gate> {
    play(
        |state: DepsState<Seq<char>>, reply: Reply<Seq<char>>| deps_next(state, reply),
        deps_start(suffix),
        replies,
    )
}

/// The running kernel's release, read from what the release command
/// printed.
pub fn get_kernel_version(stdout: &str) -> (release: String)
    ensures
        release@ == kernel_release(stdout@),
{
    trimmed(stdout)
}

/// The request for the running kernel's release.
pub fn ask_kernel_release() -> (request: Request<String>)
    ensures
        request@ == Request::Run(checked(release_command())),
{
    run_checked(String::from_str("uname -r"))
}

/// Starts the dependency installer for a host of the given platform.
pub fn install_dependencies_debian(cloud_provider: CloudProvider) -> (step: Deps<String>)
    ensures
        step@ == deps_start(platform_suffix(cloud_provider)),
{
    let suffix = String::from_str(cloud_provider.kernel_suffix());
    Progress::Ask(DepsState::Updating { suffix }, run_checked(String::from_str("apt-get update")))
}

impl DepsState<String> {
    /// Takes the reply to the last request and says what comes next.
    pub fn next(self, reply: Reply<String>) -> (step: Deps<String>)
        ensures
            step@ == deps_next(self@, reply@),
    {
        match self {
            DepsState::Updating { suffix } => match settle(reply) {
                Ok(_) => Progress::Ask(DepsState::ReadingRelease { suffix }, ask_kernel_release()),
                Err(failure) => Progress::Done(Err(failure)),
            },
            DepsState::ReadingRelease { suffix } => match settle(reply) {
                Ok(output) => {
                    let release = get_kernel_version(output.stdout.as_str());
                    match kernel_series(release.as_str()) {
                        Some((major, minor)) => Progress::Ask(
                            DepsState::Searching { major, minor, suffix },
                            run_checked(String::from_str("apt-cache search linux-image")),
                        ),
                        None => Progress::Done(Err(Failure::KernelRelease { release })),
                    }
                },
                Err(failure) => Progress::Done(Err(failure)),
            },
            DepsState::Searching { major, minor, suffix } => match settle(reply) {
                Ok(output) => {
                    let mut prefix = String::from_str("linux-image-");
                    prefix.append(major.as_str());
                    prefix.append(".");
                    prefix.append(minor.as_str());
                    let build = newest_kernel_build(
                        output.stdout.as_str(),
                        prefix.as_str(),
                        suffix.as_str(),
                    );
                    let target = KernelIdentity {
                        major,
                        minor,
                        patch: build.0,
                        micro: build.1,
                        suffix,
                    };
                    Progress::Ask(DepsState::Comparing { target }, ask_kernel_release())
                },
                Err(failure) => Progress::Done(Err(failure)),
            },
            DepsState::Comparing { target } => match settle(reply) {
                Ok(output) => {
                    let release = get_kernel_version(output.stdout.as_str());
                    let running = target.is_running(release.as_str());
                    let mut command = String::from_str("dpkg -l | grep ");
                    command.append(target.headers_package().as_str());
                    Progress::Ask(
                        DepsState::QueryingHeaders { target, running },
                        run_probe(command),
                    )
                },
                Err(failure) => Progress::Done(Err(failure)),
            },
            DepsState::QueryingHeaders { target, running } => match observe(reply) {
                Ok(output) => if running && output.success {
                    Progress::Done(Ok(Gate::Proceed))
                } else {
                    let mut command = String::from_str("apt-get install -y make gcc ");
                    command.append(target.image_package().as_str());
                    command.append(" ");
                    command.append(target.headers_package().as_str());
                    command.append(" software-properties-common pciutils gcc make dkms");
                    Progress::Ask(DepsState::Installing { running }, run_checked(command))
                },
                Err(failure) => Progress::Done(Err(failure)),
            },
            DepsState::Installing { running } => match settle(reply) {
                Ok(_) => Progress::Done(
                    Ok(
                        if running {
                            Gate::Proceed
                        } else {
                            Gate::RebootRequired
                        },
                    ),
                ),
                Err(failure) => Progress::Done(Err(failure)),
            },
        }
    }
}

/// The five requests that every run makes before the reboot gate decides: refresh
/// the index, read the release, list the images, read the release again,
/// and ask for the target's headers.
pub open spec fn survey(target: KernelIdentity<Seq<char>>) -> Seq<Request<Seq<char>>> {
    seq![
        Request::Run(checked(update_command())),
        Request::Run(checked(release_command())),
        Request::Run(checked(search_command())),
        Request::Run(checked(release_command())),
        Request::Run(probe(headers_query(target))),
    ]
}

/// The host answered the five requests of the survey: the four checked
/// commands succeeded and printed `first_release`, `listing` and
/// `second_release`, and the query for the headers ended with
/// `headers_installed`.
pub open spec fn surveyed(
    replies: Seq<Reply<Seq<char>>>,
    first_release: Seq<char>,
    listing: Seq<char>,
    second_release: Seq<char>,
    headers_installed: bool,
) -> bool {
    &&& replies.len() >= 5
    &&& replies[0] matches Reply::Ran(updated) && updated.success
    &&& replies[1] matches Reply::Ran(told) && told.success && told.stdout == first_release
    &&& replies[2] matches Reply::Ran(listed) && listed.success && listed.stdout == listing
    &&& replies[3] matches Reply::Ran(told) && told.success && told.stdout == second_release
    &&& replies[4] matches Reply::Ran(queried) && queried.success == headers_installed
}

/// Where the host already runs the target kernel and has its headers, the
/// gate lets the workflow proceed, and no installation is asked for: the run
/// makes the five requests of the survey and ends.
pub proof fn law_gate_passes_without_install(
    suffix: Seq<char>,
    replies: Seq<Reply<Seq<char>>>,
    first_release: Seq<char>,
    listing: Seq<char>,
    second_release: Seq<char>,
    target: KernelIdentity<Seq<char>>,
)
    requires
        surveyed(replies, first_release, listing, second_release, true),
        resolve_target(kernel_release(first_release), listing, suffix) == Some(target),
        matches_installed(target, kernel_release(second_release), true),
    ensures
        deps_run(suffix, replies) == (Trace::<Gate> {
            asked: survey(target),
            end: Some(Ok(Gate::Proceed)),
        }),
{
    reveal_with_fuel(play, 7);
    lemma_skips(replies);
    assert(deps_run(suffix, replies).asked =~= survey(target));
}

/// Where the host does not run the target kernel, the reboot gate installs the
/// packages and asks for a restart, whether or not the headers were already
/// there: after the survey the run asks for the installation, and when that
/// succeeds it ends with `RebootRequired`.
pub proof fn law_new_kernel_requires_reboot(
    suffix: Seq<char>,
    replies: Seq<Reply<Seq<char>>>,
    first_release: Seq<char>,
    listing: Seq<char>,
    second_release: Seq<char>,
    headers_installed: bool,
    target: KernelIdentity<Seq<char>>,
)
    requires
        surveyed(replies, first_release, listing, second_release, headers_installed),
        resolve_target(kernel_release(first_release), listing, suffix) == Some(target),
        !runs(kernel_release(second_release), target),
        replies.len() >= 6,
        replies[5] matches Reply::Ran(installed) && installed.success,
    ensures
        deps_run(suffix, replies) == (Trace::<Gate> {
            asked: survey(target).push(Request::Run(checked(install_command(target)))),
            end: Some(Ok(Gate::RebootRequired)),
        }),
{
    reveal_with_fuel(play, 8);
    lemma_skips(replies);
    assert(deps_run(suffix, replies).asked =~= survey(target).push(
        Request::Run(checked(install_command(target))),
    ));
}

/// Where the host runs the target kernel but lacks its headers, the reboot gate
/// installs the packages and lets the workflow proceed without a restart.
pub proof fn law_missing_headers_need_no_reboot(
    suffix: Seq<char>,
    replies: Seq<Reply<Seq<char>>>,
    first_release: Seq<char>,
    listing: Seq<char>,
    second_release: Seq<char>,
    target: KernelIdentity<Seq<char>>,
)
    requires
        surveyed(replies, first_release, listing, second_release, false),
        resolve_target(kernel_release(first_release), listing, suffix) == Some(target),
        runs(kernel_release(second_release), target),
        replies.len() >= 6,
        replies[5] matches Reply::Ran(installed) && installed.success,
    ensures
        deps_run(suffix, replies) == (Trace::<Gate> {
            asked: survey(target).push(Request::Run(checked(install_command(target)))),
            end: Some(Ok(Gate::Proceed)),
        }),
{
    reveal_with_fuel(play, 8);
    lemma_skips(replies);
    assert(deps_run(suffix, replies).asked =~= survey(target).push(
        Request::Run(checked(install_command(target))),
    ));
}

/// The replies that are left after the first few are the later replies.
proof fn lemma_skips(replies: Seq<Reply<Seq<char>>>)
    requires
        replies.len() >= 5,
    ensures
        replies.skip(1)[0] == replies[1],
        replies.skip(1).skip(1)[0] == replies[2],
        replies.skip(1).skip(1).skip(1)[0] == replies[3],
        replies.skip(1).skip(1).skip(1).skip(1)[0] == replies[4],
        replies.len() >= 6 ==> replies.skip(1).skip(1).skip(1).skip(1).skip(1)[0] == replies[5],
{
}

/// How many requests the dependency installer can still make once the one
/// that is out is answered.
pub open spec fn deps_left(state: DepsState<Seq<char>>) -> nat {
    match state {
        DepsState::Updating { .. } => 5,
        DepsState::ReadingRelease { .. } => 4,
        DepsState::Searching { .. } => 3,
        DepsState::Comparing { .. } => 2,
        DepsState::QueryingHeaders { .. } => 1,
        DepsState::Installing { .. } => 0,
    }
}

/// The dependency installer asks for six things at most, and it has ended
/// when six requests are answered, whatever the answers.
pub proof fn law_deps_end(suffix: Seq<char>, replies: Seq<Reply<Seq<char>>>)
    ensures
        deps_run(suffix, replies).asked.len() <= 6,
        replies.len() >= 6 ==> deps_run(suffix, replies).end is Some,
{
    lemma_run_ends(
        |state: DepsState<Seq<char>>, reply: Reply<Seq<char>>| deps_next(state, reply),
        |state: DepsState<Seq<char>>| deps_left(state),
        deps_start(suffix),
        replies,
    );
}

/// Packages are installed in one situation only: the package database was
/// asked for the target's headers, and the host does not run the target
/// kernel or lacks the headers.
pub proof fn law_install_only_when_needed(state: DepsState<Seq<char>>, reply: Reply<Seq<char>>)
    requires
        deps_next(state, reply) matches Progress::Ask(DepsState::Installing { .. }, _),
    ensures
        state matches DepsState::QueryingHeaders { running, .. } && observed(reply) matches Ok(
            queried,
        ) && !(running && queried.success),
{
}

} // verus!
