//! The process runner's decisions: how a command is split into program and
//! arguments, and what follows each attempt to run it.
//!
//! A command is tried until it succeeds or the retries are used up. The
//! result is that of the last attempt; with `check` a failing exit status
//! of the last attempt is an error.

use crate::host::{CommandOutput, Failure};
use crate::space::{word_spans, words};
use crate::text::{chars_of, spans_fit, spans_text};
use vstd::prelude::*;

verus! {

/// A command split at whitespace. There is no quoting: an argument cannot
/// hold whitespace.
#[derive(Debug, Clone, PartialEq, Eq)]
pub struct CommandLine {
    pub program: String,
    pub args: Vec<String>,
}

impl CommandLine {
    /// Program and arguments, in order.
    pub open spec fn parts(self) -> Seq<Seq<char>> {
        seq![self.program@] + Seq::new(self.args@.len(), |i: int| self.args@[i]@)
    }
}

/// How one attempt to run a command ended.
#[derive(Debug, Clone, PartialEq, Eq)]
pub enum Attempt<T> {
    /// The child ran to its end.
    Exited(CommandOutput<T>),
    /// The child could not be started, fed or waited for.
    NotRun { detail: T },
}

impl View for Attempt<String> {
    type V = Attempt<Seq<char>>;

    open spec fn view(&self) -> Attempt<Seq<char>> {
        match self {
            Attempt::Exited(output) => Attempt::Exited(output@),
            Attempt::NotRun { detail } => Attempt::NotRun { detail: detail@ },
        }
    }
}

/// The runner between two attempts: its policy and the number of attempts
/// that have failed so far.
#[derive(Debug, Clone, Copy, PartialEq, Eq, Structural)]
pub struct RunState {
    pub check: bool,
    pub retries: usize,
    pub failed: usize,
}

/// What follows an attempt.
#[derive(Debug, Clone, PartialEq, Eq)]
pub enum Verdict<T> {
    /// Run the command again.
    Again(RunState),
    /// Hand this output to the caller.
    Return(CommandOutput<T>),
    /// Hand this failure to the caller.
    Fail(Failure<T>),
}

impl View for Verdict<String> {
    type V = Verdict<Seq<char>>;

    open spec fn view(&self) -> Verdict<Seq<char>> {
        match self {
            Verdict::Again(state) => Verdict::Again(*state),
            Verdict::Return(output) => Verdict::Return(output@),
            Verdict::Fail(failure) => Verdict::Fail(failure@),
        }
    }
}

/// The runner before the first attempt.
pub open spec fn fresh(check: bool, retries: usize) -> RunState {
    RunState { check, retries, failed: 0 }
}

/// What follows `attempt`. An attempt that could not be run ends the run at
/// once. A success ends it with the output. A failing exit status is tried
/// again while retries are left; after the last one it is an error with
/// `check` and the output without.
pub open spec fn after_attempt(state: RunState, attempt: Attempt<Seq<char>>) -> Verdict<
    Seq<char>,
> {
    match attempt {
        Attempt::NotRun { detail } => Verdict::Fail(Failure::Host { detail }),
        Attempt::Exited(output) => if output.success {
            Verdict::Return(output)
        } else if state.failed < state.retries {
            Verdict::Again(RunState { failed: (state.failed + 1) as usize, ..state })
        } else if state.check {
            Verdict::Fail(Failure::CommandFailed)
        } else {
            Verdict::Return(output)
        },
    }
}

/// A run of the runner: how many attempts it made, and its result once it
/// has ended.
pub struct Attempts {
    pub made: nat,
    pub end: Option<Result<CommandOutput<Seq<char>>, Failure<Seq<char>>>>,
}

/// The run of the runner from `state` on, where its attempts end as
/// `attempts` says, one after the other. A runner that has ended makes no
/// further attempt.
pub open spec fn attempts_of(state: RunState, attempts: Seq<Attempt<Seq<char>>>) -> Attempts
    decreases attempts.len(),
{
    if attempts.len() == 0 {
        Attempts { made: 0, end: None }
    } else {
        match after_attempt(state, attempts[0]) {
            Verdict::Again(next) => {
                let rest = attempts_of(next, attempts.skip(1));
                Attempts { made: 1 + rest.made, end: rest.end }
            },
            Verdict::Return(output) => Attempts { made: 1, end: Some(Ok(output)) },
            Verdict::Fail(failure) => Attempts { made: 1, end: Some(Err(failure)) },
        }
    }
}

/// The attempt failed: the child ran and its exit status was a failure.
pub open spec fn failed_exit(attempt: Attempt<Seq<char>>) -> bool {
    attempt matches Attempt::Exited(output) && !output.success
}

/// Splits a command into program and arguments; `None` where the command
/// holds no word.
pub fn split_command(command: &str) -> (r: Option<CommandLine>)
    ensures
        match r {
            Some(line) => line.parts() == words(command@),
            None => words(command@).len() == 0,
        },
{
    let chars = chars_of(command);
    let spans = word_spans(chars.as_slice());
    if spans.len() == 0 {
        return None;
    }
    let ghost texts = spans_text(command@, spans@);
    let first = spans[0];
    let program = String::from_str(command.substring_char(first.start, first.end));
    let mut args: Vec<String> = Vec::new();
    let mut k: usize = 1;
    while k < spans.len()
        invariant
            1 <= k <= spans@.len(),
            spans_fit(spans@, command@.len()),
            texts == spans_text(command@, spans@),
            args@.len() == k - 1,
            forall|i: int| 0 <= i < k - 1 ==> (#[trigger] args@[i])@ == texts[i + 1],
        decreases spans@.len() - k,
    {
        let span = spans[k];
        args.push(String::from_str(command.substring_char(span.start, span.end)));
        k += 1;
    }
    let line = CommandLine { program, args };
    proof {
        assert(line.parts() =~= texts);
    }
    Some(line)
}

impl RunState {
    /// The runner before the first attempt.
    pub fn new(check: bool, retries: usize) -> (state: Self)
        ensures
            state == fresh(check, retries),
    {
        RunState { check, retries, failed: 0 }
    }

    /// Takes the end of an attempt and says what follows.
    pub fn after(self, attempt: Attempt<String>) -> (verdict: Verdict<String>)
        ensures
            verdict@ == after_attempt(self, attempt@),
    {
        match attempt {
            Attempt::NotRun { detail } => Verdict::Fail(Failure::Host { detail }),
            Attempt::Exited(output) => if output.success {
                Verdict::Return(output)
            } else if self.failed < self.retries {
                Verdict::Again(
                    RunState { check: self.check, retries: self.retries, failed: self.failed + 1 },
                )
            } else if self.check {
                Verdict::Fail(Failure::CommandFailed)
            } else {
                Verdict::Return(output)
            },
        }
    }
}

/// With `retries = r` the runner makes at most `r + 1` attempts, and it
/// stops at the first success: every attempt before the last one that it
/// made has failed. Once `r + 1` attempts are answered the run has ended.
/// What it returns is what its last attempt left.
pub proof fn law_attempts_are_bounded(
    check: bool,
    retries: usize,
    attempts: Seq<Attempt<Seq<char>>>,
)
    ensures
        attempts_of(fresh(check, retries), attempts).made <= retries + 1,
        attempts_of(fresh(check, retries), attempts).made <= attempts.len(),
        forall|i: int|
            0 <= i < attempts_of(fresh(check, retries), attempts).made - 1 ==> failed_exit(
                #[trigger] attempts[i],
            ),
        attempts.len() >= retries + 1 ==> attempts_of(fresh(check, retries), attempts).end is Some,
        attempts_of(fresh(check, retries), attempts).end matches Some(Ok(output))
            ==> attempts[attempts_of(fresh(check, retries), attempts).made - 1] == Attempt::Exited(
            output,
        ),
{
    lemma_attempts_from(fresh(check, retries), attempts);
}

/// The same, from any state of the runner on.
proof fn lemma_attempts_from(state: RunState, attempts: Seq<Attempt<Seq<char>>>)
    requires
        state.failed <= state.retries,
    ensures
        attempts_of(state, attempts).made <= state.retries - state.failed + 1,
        attempts_of(state, attempts).made <= attempts.len(),
        forall|i: int|
            0 <= i < attempts_of(state, attempts).made - 1 ==> failed_exit(#[trigger] attempts[i]),
        attempts.len() >= state.retries - state.failed + 1 ==> attempts_of(
            state,
            attempts,
        ).end is Some,
        attempts_of(state, attempts).end matches Some(Ok(output)) ==> attempts[attempts_of(
            state,
            attempts,
        ).made - 1] == Attempt::Exited(output),
    decreases attempts.len(),
{
    if attempts.len() > 0 {
        match after_attempt(state, attempts[0]) {
            Verdict::Again(next) => {
                let rest = attempts.skip(1);
                lemma_attempts_from(next, rest);
                let made = attempts_of(state, attempts).made;
                assert forall|i: int| 0 <= i < made - 1 implies failed_exit(
                    #[trigger] attempts[i],
                ) by {
                    if i > 0 {
                        assert(attempts[i] == rest[i - 1]);
                    }
                }
                if attempts_of(state, attempts).end matches Some(Ok(output)) {
                    assert(attempts[made - 1] == rest[made - 2]);
                }
            },
            _ => {},
        }
    }
}

} // verus!
