//! Whether the driver is installed, as far as the host shows it.
//!
//! The driver counts as installed where its diagnostic tool is found, runs
//! with success, and lists a device: its output holds the marker `UUID`.
//! This is a sign of presence, not a reading of the tool's output.

use crate::host::{
    lemma_run_ends, observe, observed, play, probe, run_probe, Progress, Reply, Request, Trace,
};
use crate::text::{chars_of, contains, includes};
use vstd::prelude::*;

verus! {

/// What the look for the driver found.
#[derive(Debug, Clone, PartialEq, Eq)]
pub struct DriverCheck<T> {
    /// Whether the driver is installed.
    pub installed: bool,
    /// What to tell the user, where the caller asked for it.
    pub report: Option<T>,
}

impl View for DriverCheck<String> {
    type V = DriverCheck<Seq<char>>;

    open spec fn view(&self) -> DriverCheck<Seq<char>> {
        DriverCheck {
            installed: self.installed,
            report: match self.report {
                Some(text) => Some(text@),
                None => None,
            },
        }
    }
}

/// Where the look for the driver stands.
#[derive(Debug, Clone, Copy, PartialEq, Eq, Structural)]
pub enum PresenceState {
    /// Asked where the diagnostic tool is.
    Locating { verbose: bool },
    /// Asked the diagnostic tool for its devices.
    Listing { verbose: bool },
}

impl View for PresenceState {
    type V = PresenceState;

    open spec fn view(&self) -> PresenceState {
        *self
    }
}

/// The look for the driver in progress, or what it found.
pub type Presence<T> = Progress<PresenceState, DriverCheck<T>, T>;

/// The command that succeeds where the diagnostic tool is found.
pub open spec fn locate_command() -> Seq<char> {
    "which nvidia-smi"@
}

/// The command that lists the devices that the driver manages.
pub open spec fn list_command() -> Seq<char> {
    "nvidia-smi -L"@
}

/// What the listing of a device holds.
pub open spec fn device_marker() -> Seq<char> {
    "UUID"@
}

/// What is reported where the diagnostic tool is not found.
pub open spec fn absent_report() -> Seq<char> {
    "Couldn't find nvidia-smi, the driver is not installed."@
}

/// What is reported of the listing.
pub open spec fn listing_report(stdout: Seq<char>, stderr: Seq<char>) -> Seq<char> {
    "nvidia-smi -L output: "@ + stdout + " "@ + stderr
}

/// Whether a listing that ended with `success` and printed `stdout` shows a
/// device.
pub open spec fn shows_device(success: bool, stdout: Seq<char>) -> bool {
    success && contains(stdout, device_marker())
}

/// What is found where the diagnostic tool is missing.
pub open spec fn found_absent(verbose: bool) -> DriverCheck<Seq<char>> {
    DriverCheck {
        installed: false,
        report: if verbose {
            Some(absent_report())
        } else {
            None
        },
    }
}

/// The first step: ask where the diagnostic tool is.
pub open spec fn presence_start(verbose: bool) -> Presence<Seq<char>> {
    Progress::Ask(PresenceState::Locating { verbose }, Request::Run(probe(locate_command())))
}

/// The step that follows `reply`.
pub open spec fn presence_next(state: PresenceState, reply: Reply<Seq<char>>) -> Presence<
    Seq<char>,
> {
    match state {
        PresenceState::Locating { verbose } => match observed(reply) {
            Ok(output) => if output.success {
                Progress::Ask(
                    PresenceState::Listing { verbose },
                    Request::Run(probe(list_command())),
                )
            } else {
                Progress::Done(Ok(found_absent(verbose)))
            },
            Err(failure) => Progress::Done(Err(failure)),
        },
        PresenceState::Listing { verbose } => match observed(reply) {
            Ok(output) => Progress::Done(
                Ok(
                    DriverCheck {
                        installed: shows_device(output.success, output.stdout),
                        report: if verbose {
                            Some(listing_report(output.stdout, output.stderr))
                        } else {
                            None
                        },
                    },
                ),
            ),
            Err(failure) => Progress::Done(Err(failure)),
        },
    }
}

/// The run of the look for the driver against a host that answers with
/// `replies`.
pub open spec fn presence_run(verbose: bool, replies: Seq<Reply<Seq<char>>>) -> Trace<
    DriverCheck<Seq<char>>,
> {
    play(
        |state: PresenceState, reply: Reply<Seq<char>>| presence_next(state, reply),
        presence_start(verbose),
        replies,
    )
}

/// Whether a listing that ended with `success` and printed `stdout` shows a
/// device.
pub fn lists_device(success: bool, stdout: &str) -> (r: bool)
    ensures
        r == shows_device(success, stdout@),
{
    if !success {
        return false;
    }
    let text = chars_of(stdout);
    let marker = chars_of("UUID");
    includes(text.as_slice(), marker.as_slice())
}

/// Starts the look for the driver. With `verbose` the result carries a
/// report for the user.
pub fn verify_driver(verbose: bool) -> (step: Presence<String>)
    ensures
        step@ == presence_start(verbose),
{
    Progress::Ask(
        PresenceState::Locating { verbose },
        run_probe(String::from_str("which nvidia-smi")),
    )
}

impl PresenceState {
    /// Takes the reply to the last request and says what comes next.
    pub fn next(self, reply: Reply<String>) -> (step: Presence<String>)
        ensures
            step@ == presence_next(self, reply@),
    {
        match self {
            PresenceState::Locating { verbose } => match observe(reply) {
                Ok(output) => if output.success {
                    Progress::Ask(
                        PresenceState::Listing { verbose },
                        run_probe(String::from_str("nvidia-smi -L")),
                    )
                } else {
                    let report = if verbose {
                        Some(
                            String::from_str(
                                "Couldn't find nvidia-smi, the driver is not installed.",
                            ),
                        )
                    } else {
                        None
                    };
                    Progress::Done(Ok(DriverCheck { installed: false, report }))
                },
                Err(failure) => Progress::Done(Err(failure)),
            },
            PresenceState::Listing { verbose } => match observe(reply) {
                Ok(output) => {
                    let installed = lists_device(output.success, output.stdout.as_str());
                    let report = if verbose {
                        let mut text = String::from_str("nvidia-smi -L output: ");
                        text.append(output.stdout.as_str());
                        text.append(" ");
                        text.append(output.stderr.as_str());
                        Some(text)
                    } else {
                        None
                    };
                    Progress::Done(Ok(DriverCheck { installed, report }))
                },
                Err(failure) => Progress::Done(Err(failure)),
            },
        }
    }
}

/// On a host without the diagnostic tool the driver is found not to be
/// installed, and that is a result, not a failure, with `verbose` and
/// without. The tool itself is never run.
pub proof fn law_missing_tool_means_not_installed(
    verbose: bool,
    replies: Seq<Reply<Seq<char>>>,
)
    requires
        replies.len() >= 1,
        replies[0] matches Reply::Ran(located) && !located.success,
    ensures
        presence_run(verbose, replies) == (Trace::<DriverCheck<Seq<char>>> {
            asked: seq![Request::Run(probe(locate_command()))],
            end: Some(Ok(found_absent(verbose))),
        }),
        !found_absent(verbose).installed,
{
    reveal_with_fuel(play, 3);
    assert(presence_run(verbose, replies).asked =~= seq![Request::Run(probe(locate_command()))]);
}

/// How many requests the look for the driver can still make once the one
/// that is out is answered.
pub open spec fn presence_left(state: PresenceState) -> nat {
    match state {
        PresenceState::Locating { .. } => 1,
        PresenceState::Listing { .. } => 0,
    }
}

/// The look for the driver asks for two things at most, and it has ended
/// when two requests are answered, whatever the answers.
pub proof fn law_presence_ends(verbose: bool, replies: Seq<Reply<Seq<char>>>)
    ensures
        presence_run(verbose, replies).asked.len() <= 2,
        replies.len() >= 2 ==> presence_run(verbose, replies).end is Some,
{
    lemma_run_ends(
        |state: PresenceState, reply: Reply<Seq<char>>| presence_next(state, reply),
        |state: PresenceState| presence_left(state),
        presence_start(verbose),
        replies,
    );
}

} // verus!
