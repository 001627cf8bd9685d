//! Holding the kernel packages in place.
//!
//! A driver is built for one kernel. Once it is installed the packages of
//! the running kernel are held, so that no upgrade replaces the kernel
//! under the driver; when the driver is removed they are released again.

use crate::deps::{ask_kernel_release, get_kernel_version, kernel_release, release_command};
use crate::host::{checked, run_checked, settle, settled, Progress, Reply, Request};
use vstd::prelude::*;

verus! {

/// Where the holding or releasing of the kernel packages stands.
#[derive(Debug, Clone, Copy, PartialEq, Eq, Structural)]
pub enum HoldState {
    /// Asked for the running kernel's release.
    ReadingRelease { hold: bool },
    /// Asked the package manager to mark the packages.
    Marking,
}

impl View for HoldState {
    type V = HoldState;

    open spec fn view(&self) -> HoldState {
        *self
    }
}

/// The marking of the kernel packages in progress, or its end.
pub type Hold<T> = Progress<HoldState, (), T>;

/// The packages of the kernel with the given release, and the platform's
/// meta packages.
pub open spec fn kernel_packages(release: Seq<char>) -> Seq<char> {
    "linux-image-"@ + release + " linux-headers-"@ + release
        + " linux-image-cloud-amd64 linux-headers-cloud-amd64"@
}

/// The command that holds the kernel packages.
pub open spec fn hold_command(release: Seq<char>) -> Seq<char> {
    "apt-mark hold "@ + kernel_packages(release)
}

/// The command that releases the kernel packages.
pub open spec fn unhold_command(release: Seq<char>) -> Seq<char> {
    "apt-mark unhold "@ + kernel_packages(release)
}

/// The command that holds or releases the kernel packages.
pub open spec fn mark_command(hold: bool, release: Seq<char>) -> Seq<char> {
    if hold {
        hold_command(release)
    } else {
        unhold_command(release)
    }
}

/// The first step: ask for the running kernel's release.
pub open spec fn hold_start(hold: bool) -> Hold<Seq<char>> {
    Progress::Ask(HoldState::ReadingRelease { hold }, Request::Run(checked(release_command())))
}

/// The step that follows `reply`.
pub open spec fn hold_next(state: HoldState, reply: Reply<Seq<char>>) -> Hold<Seq<char>> {
    match state {
        HoldState::ReadingRelease { hold } => match settled(reply) {
            Ok(output) => Progress::Ask(
                HoldState::Marking,
                Request::Run(checked(mark_command(hold, kernel_release(output.stdout)))),
            ),
            Err(failure) => Progress::Done(Err(failure)),
        },
        HoldState::Marking => match settled(reply) {
            Ok(_) => Progress::Done(Ok(())),
            Err(failure) => Progress::Done(Err(failure)),
        },
    }
}

/// The command that holds or releases the packages of the kernel with the
/// given release.
pub fn marking_command(hold: bool, release: &str) -> (command: String)
    ensures
        command@ == mark_command(hold, release@),
{
    let mut packages = String::from_str("linux-image-");
    packages.append(release);
    packages.append(" linux-headers-");
    packages.append(release);
    packages.append(" linux-image-cloud-amd64 linux-headers-cloud-amd64");
    let mut command = if hold {
        String::from_str("apt-mark hold ")
    } else {
        String::from_str("apt-mark unhold ")
    };
    command.append(packages.as_str());
    command
}

/// Starts to hold the packages of the running kernel.
pub fn lock_kernel_updates_debian() -> (step: Hold<String>)
    ensures
        step@ == hold_start(true),
{
    Progress::Ask(HoldState::ReadingRelease { hold: true }, ask_kernel_release())
}

/// Starts to release the packages of the running kernel.
pub fn unlock_kernel_updates_debian() -> (step: Hold<String>)
    ensures
        step@ == hold_start(false),
{
    Progress::Ask(HoldState::ReadingRelease { hold: false }, ask_kernel_release())
}

impl HoldState {
    /// Takes the reply to the last request and says what comes next.
    pub fn next(self, reply: Reply<String>) -> (step: Hold<String>)
        ensures
            step@ == hold_next(self, reply@),
    {
        match self {
            HoldState::ReadingRelease { hold } => match settle(reply) {
                Ok(output) => {
                    let release = get_kernel_version(output.stdout.as_str());
                    Progress::Ask(
                        HoldState::Marking,
                        run_checked(marking_command(hold, release.as_str())),
                    )
                },
                Err(failure) => Progress::Done(Err(failure)),
            },
            HoldState::Marking => match settle(reply) {
                Ok(_) => Progress::Done(Ok(())),
                Err(failure) => Progress::Done(Err(failure)),
            },
        }
    }
}

/// How many requests the marking can still make once the one that is out
/// is answered.
pub open spec fn hold_left(state: HoldState) -> nat {
    match state {
        HoldState::ReadingRelease { .. } => 1,
        HoldState::Marking => 0,
    }
}

} // verus!
