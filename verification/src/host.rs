//! What the library asks of the host, and what the host answers.
//!
//! The library never touches the machine. A workflow is a state machine: it
//! hands out one [`Request`], the caller carries it out and hands back the
//! [`Reply`], and the workflow answers with the next request or with its
//! result. The types here are generic in the text they hold: `String` where
//! the program runs, `Seq<char>` in specifications, and the view of the one
//! is the other.

use vstd::prelude::*;

verus! {

/// One call of the process runner.
#[derive(Debug, Clone, PartialEq, Eq)]
pub struct Invocation<T> {
    /// Program and arguments, separated by whitespace.
    pub command: T,
    /// Whether a failing exit status is an error.
    pub check: bool,
    /// Text for the child's standard input, if any.
    pub input: Option<T>,
    /// Whether the command and its output are kept off the terminal.
    pub silent: bool,
    /// How many times a failed attempt is repeated.
    pub retries: usize,
}

/// What a finished command left behind.
#[derive(Debug, Clone, PartialEq, Eq)]
pub struct CommandOutput<T> {
    /// Whether the exit status was a success.
    pub success: bool,
    pub stdout: T,
    pub stderr: T,
}

/// Why a workflow stopped without its result.
#[derive(Debug, Clone, PartialEq, Eq)]
pub enum Failure<T> {
    /// A checked command ended with a failing exit status.
    CommandFailed,
    /// The file at `path` does not have the expected checksum. It is left in
    /// place and has to be removed before the next attempt.
    Integrity { path: T },
    /// The host could not carry out a request.
    Host { detail: T },
    /// The running kernel's release does not begin with `major.minor`.
    KernelRelease { release: T },
    /// The reply does not answer the request that was made.
    Protocol,
}

/// What a workflow asks the host to do. No request removes a file.
#[derive(Debug, Clone, PartialEq, Eq)]
pub enum Request<T> {
    /// Run a command through the process runner.
    Run(Invocation<T>),
    /// Say whether anything exists at `path`.
    PathExists { path: T },
    /// Make a fresh scratch directory and keep it until the workflow ends.
    ScratchDir,
    /// Set a variable of the process environment.
    SetEnv { name: T, value: T },
    /// Write `content` to the file at `path`, replacing what was there.
    WriteFile { path: T, content: T },
    /// Copy the file at `from` to `to`.
    CopyFile { from: T, to: T },
    /// Say what the working directory is.
    CurrentDir,
    /// Make `path` the working directory.
    ChangeDir { path: T },
}

/// What the host answers.
#[derive(Debug, Clone, PartialEq, Eq)]
pub enum Reply<T> {
    /// The command ran; this is what its last attempt left.
    Ran(CommandOutput<T>),
    /// Whether the path exists.
    Exists(bool),
    /// The directory that was asked for.
    Dir(T),
    /// The request was carried out and has nothing to report.
    Done,
    /// The request could not be carried out.
    Failed(Failure<T>),
}

/// One step of a workflow: the next request together with the state that
/// waits for its reply, or the end.
#[derive(Debug, PartialEq, Eq)]
pub enum Progress<S, A, T> {
    Ask(S, Request<T>),
    Done(Result<A, Failure<T>>),
}

impl View for Invocation<String> {
    type V = Invocation<Seq<char>>;

    open spec fn view(&self) -> Invocation<Seq<char>> {
        Invocation {
            command: self.command@,
            check: self.check,
            input: match self.input {
                Some(text) => Some(text@),
                None => None,
            },
            silent: self.silent,
            retries: self.retries,
        }
    }
}

impl View for CommandOutput<String> {
    type V = CommandOutput<Seq<char>>;

    open spec fn view(&self) -> CommandOutput<Seq<char>> {
        CommandOutput { success: self.success, stdout: self.stdout@, stderr: self.stderr@ }
    }
}

impl View for Failure<String> {
    type V = Failure<Seq<char>>;

    open spec fn view(&self) -> Failure<Seq<char>> {
        match self {
            Failure::CommandFailed => Failure::CommandFailed,
            Failure::Integrity { path } => Failure::Integrity { path: path@ },
            Failure::Host { detail } => Failure::Host { detail: detail@ },
            Failure::KernelRelease { release } => Failure::KernelRelease { release: release@ },
            Failure::Protocol => Failure::Protocol,
        }
    }
}

impl View for Request<String> {
    type V = Request<Seq<char>>;

    open spec fn view(&self) -> Request<Seq<char>> {
        match self {
            Request::Run(invocation) => Request::Run(invocation@),
            Request::PathExists { path } => Request::PathExists { path: path@ },
            Request::ScratchDir => Request::ScratchDir,
            Request::SetEnv { name, value } => Request::SetEnv { name: name@, value: value@ },
            Request::WriteFile { path, content } => Request::WriteFile {
                path: path@,
                content: content@,
            },
            Request::CopyFile { from, to } => Request::CopyFile { from: from@, to: to@ },
            Request::CurrentDir => Request::CurrentDir,
            Request::ChangeDir { path } => Request::ChangeDir { path: path@ },
        }
    }
}

impl View for Reply<String> {
    type V = Reply<Seq<char>>;

    open spec fn view(&self) -> Reply<Seq<char>> {
        match self {
            Reply::Ran(output) => Reply::Ran(output@),
            Reply::Exists(found) => Reply::Exists(*found),
            Reply::Dir(path) => Reply::Dir(path@),
            Reply::Done => Reply::Done,
            Reply::Failed(failure) => Reply::Failed(failure@),
        }
    }
}

impl<S: View, A: View> View for Progress<S, A, String> {
    type V = Progress<S::V, A::V, Seq<char>>;

    open spec fn view(&self) -> Progress<S::V, A::V, Seq<char>> {
        match self {
            Progress::Ask(state, request) => Progress::Ask(state@, request@),
            Progress::Done(Ok(value)) => Progress::Done(Ok(value@)),
            Progress::Done(Err(failure)) => Progress::Done(Err(failure@)),
        }
    }
}

/// What a run of a workflow shows from outside: the requests it made, in
/// order, and its result once it has ended.
pub struct Trace<A> {
    pub asked: Seq<Request<Seq<char>>>,
    pub end: Option<Result<A, Failure<Seq<char>>>>,
}

/// The run of a workflow that stands at `at` and whose requests the host
/// answers with `replies`, one after the other. A workflow that has ended
/// takes no further reply.
pub open spec fn play<S, A>(
    step: spec_fn(S, Reply<Seq<char>>) -> Progress<S, A, Seq<char>>,
    at: Progress<S, A, Seq<char>>,
    replies: Seq<Reply<Seq<char>>>,
) -> Trace<A>
    decreases replies.len(),
{
    match at {
        Progress::Done(result) => Trace { asked: Seq::empty(), end: Some(result) },
        Progress::Ask(state, request) => {
            if replies.len() == 0 {
                Trace { asked: seq![request], end: None }
            } else {
                let rest = play(step, step(state, replies[0]), replies.skip(1));
                Trace { asked: seq![request] + rest.asked, end: rest.end }
            }
        },
    }
}

/// Every step that goes on leaves less to do: `left` of the next state is
/// smaller than `left` of the state before.
pub open spec fn spends<S, A>(
    step: spec_fn(S, Reply<Seq<char>>) -> Progress<S, A, Seq<char>>,
    left: spec_fn(S) -> nat,
) -> bool {
    forall|state: S, reply: Reply<Seq<char>>|
        (#[trigger] step(state, reply)) matches Progress::Ask(next, _) ==> left(next) < left(
            state,
        )
}

/// What is left to do where the workflow stands at `at`: nothing once it
/// has ended, else the request that is out and what `left` counts after it.
pub open spec fn outstanding<S, A>(at: Progress<S, A, Seq<char>>, left: spec_fn(S) -> nat) -> nat {
    match at {
        Progress::Ask(state, _) => left(state) + 1,
        Progress::Done(_) => 0,
    }
}

/// A workflow whose steps leave less and less to do comes to an end: it
/// never asks for more than is outstanding, and it has ended once that
/// many requests are answered.
pub proof fn lemma_run_ends<S, A>(
    step: spec_fn(S, Reply<Seq<char>>) -> Progress<S, A, Seq<char>>,
    left: spec_fn(S) -> nat,
    at: Progress<S, A, Seq<char>>,
    replies: Seq<Reply<Seq<char>>>,
)
    requires
        spends(step, left),
    ensures
        play(step, at, replies).asked.len() <= outstanding(at, left),
        replies.len() >= outstanding(at, left) ==> play(step, at, replies).end is Some,
    decreases replies.len(),
{
    match at {
        Progress::Done(_) => {},
        Progress::Ask(state, request) => {
            if replies.len() > 0 {
                lemma_run_ends(step, left, step(state, replies[0]), replies.skip(1));
            }
        },
    }
}

/// A command that must succeed, shown on the terminal, tried once.
pub open spec fn checked(command: Seq<char>) -> Invocation<Seq<char>> {
    Invocation { command, check: true, input: None, silent: false, retries: 0 }
}

/// A command that must succeed, kept off the terminal, tried once.
pub open spec fn checked_quiet(command: Seq<char>) -> Invocation<Seq<char>> {
    Invocation { command, check: true, input: None, silent: true, retries: 0 }
}

/// A command whose exit status is the answer, kept off the terminal, tried
/// once.
pub open spec fn probe(command: Seq<char>) -> Invocation<Seq<char>> {
    Invocation { command, check: false, input: None, silent: true, retries: 0 }
}

/// What a reply to a checked command comes to: its output where it ran and
/// succeeded.
pub open spec fn settled(reply: Reply<Seq<char>>) -> Result<
    CommandOutput<Seq<char>>,
    Failure<Seq<char>>,
> {
    match reply {
        Reply::Ran(output) => if output.success {
            Ok(output)
        } else {
            Err(Failure::CommandFailed)
        },
        Reply::Failed(failure) => Err(failure),
        _ => Err(Failure::Protocol),
    }
}

/// What a reply to a probing command comes to: its output where it ran.
pub open spec fn observed(reply: Reply<Seq<char>>) -> Result<
    CommandOutput<Seq<char>>,
    Failure<Seq<char>>,
> {
    match reply {
        Reply::Ran(output) => Ok(output),
        Reply::Failed(failure) => Err(failure),
        _ => Err(Failure::Protocol),
    }
}

/// What a failure tells the user. A checksum failure names the file and
/// says that it has to be deleted before the next attempt.
pub open spec fn failure_text(failure: Failure<Seq<char>>) -> Seq<char> {
    match failure {
        Failure::CommandFailed => "Command exited with nonzero code"@,
        Failure::Integrity { path } =>
            "The installer file checksum does not match. Won't continue installation. Try deleting "@
            + path + " and trying again."@,
        Failure::Host { detail } => detail,
        Failure::KernelRelease { release } => "Cannot tell the kernel series from the release "@
            + release,
        Failure::Protocol => "The host's reply does not answer the request"@,
    }
}

impl Failure<String> {
    /// What the failure tells the user.
    pub fn describe(&self) -> (text: String)
        ensures
            text@ == failure_text(self@),
    {
        match self {
            Failure::CommandFailed => String::from_str("Command exited with nonzero code"),
            Failure::Integrity { path } => {
                let mut text = String::from_str(
                    "The installer file checksum does not match. Won't continue installation. Try deleting ",
                );
                text.append(path.as_str());
                text.append(" and trying again.");
                text
            },
            Failure::Host { detail } => detail.clone(),
            Failure::KernelRelease { release } => {
                let mut text = String::from_str("Cannot tell the kernel series from the release ");
                text.append(release.as_str());
                text
            },
            Failure::Protocol => String::from_str("The host's reply does not answer the request"),
        }
    }
}

/// What a reply to an order comes to: nothing, where it was carried out.
pub open spec fn acknowledged(reply: Reply<Seq<char>>) -> Result<(), Failure<Seq<char>>> {
    match reply {
        Reply::Done => Ok(()),
        Reply::Failed(failure) => Err(failure),
        _ => Err(Failure::Protocol),
    }
}

/// What a reply to the question whether a path exists comes to.
pub open spec fn found(reply: Reply<Seq<char>>) -> Result<bool, Failure<Seq<char>>> {
    match reply {
        Reply::Exists(exists) => Ok(exists),
        Reply::Failed(failure) => Err(failure),
        _ => Err(Failure::Protocol),
    }
}

/// What a reply to the request for a directory comes to: its path.
pub open spec fn directory(reply: Reply<Seq<char>>) -> Result<Seq<char>, Failure<Seq<char>>> {
    match reply {
        Reply::Dir(path) => Ok(path),
        Reply::Failed(failure) => Err(failure),
        _ => Err(Failure::Protocol),
    }
}

/// Reads the reply to an order.
pub fn acknowledge(reply: Reply<String>) -> (r: Result<(), Failure<String>>)
    ensures
        match r {
            Ok(_) => acknowledged(reply@) == Ok::<(), Failure<Seq<char>>>(()),
            Err(failure) => acknowledged(reply@) == Err::<(), _>(failure@),
        },
{
    match reply {
        Reply::Done => Ok(()),
        Reply::Failed(failure) => Err(failure),
        _ => Err(Failure::Protocol),
    }
}

/// Reads the reply to the question whether a path exists.
pub fn find_out(reply: Reply<String>) -> (r: Result<bool, Failure<String>>)
    ensures
        match r {
            Ok(exists) => found(reply@) == Ok::<bool, Failure<Seq<char>>>(exists),
            Err(failure) => found(reply@) == Err::<bool, _>(failure@),
        },
{
    match reply {
        Reply::Exists(exists) => Ok(exists),
        Reply::Failed(failure) => Err(failure),
        _ => Err(Failure::Protocol),
    }
}

/// Reads the reply to the request for a directory.
pub fn take_directory(reply: Reply<String>) -> (r: Result<String, Failure<String>>)
    ensures
        match r {
            Ok(path) => directory(reply@) == Ok::<Seq<char>, Failure<Seq<char>>>(path@),
            Err(failure) => directory(reply@) == Err::<Seq<char>, _>(failure@),
        },
{
    match reply {
        Reply::Dir(path) => Ok(path),
        Reply::Failed(failure) => Err(failure),
        _ => Err(Failure::Protocol),
    }
}

/// Builds the request for a checked command that is shown on the terminal.
pub fn run_checked(command: String) -> (request: Request<String>)
    ensures
        request@ == Request::Run(checked(command@)),
{
    Request::Run(Invocation { command, check: true, input: None, silent: false, retries: 0 })
}

/// Builds the request for a checked command that is kept off the terminal.
pub fn run_checked_quiet(command: String) -> (request: Request<String>)
    ensures
        request@ == Request::Run(checked_quiet(command@)),
{
    Request::Run(Invocation { command, check: true, input: None, silent: true, retries: 0 })
}

/// Builds the request for a command whose exit status is the answer.
pub fn run_probe(command: String) -> (request: Request<String>)
    ensures
        request@ == Request::Run(probe(command@)),
{
    Request::Run(Invocation { command, check: false, input: None, silent: true, retries: 0 })
}

/// Reads the reply to a checked command.
pub fn settle(reply: Reply<String>) -> (r: Result<CommandOutput<String>, Failure<String>>)
    ensures
        match r {
            Ok(output) => settled(reply@) == Ok::<_, Failure<Seq<char>>>(output@),
            Err(failure) => settled(reply@) == Err::<CommandOutput<Seq<char>>, _>(failure@),
        },
{
    match reply {
        Reply::Ran(output) => if output.success {
            Ok(output)
        } else {
            Err(Failure::CommandFailed)
        },
        Reply::Failed(failure) => Err(failure),
        _ => Err(Failure::Protocol),
    }
}

/// Reads the reply to a probing command.
pub fn observe(reply: Reply<String>) -> (r: Result<CommandOutput<String>, Failure<String>>)
    ensures
        match r {
            Ok(output) => observed(reply@) == Ok::<_, Failure<Seq<char>>>(output@),
            Err(failure) => observed(reply@) == Err::<CommandOutput<Seq<char>>, _>(failure@),
        },
{
    match reply {
        Reply::Ran(output) => Ok(output),
        Reply::Failed(failure) => Err(failure),
        _ => Err(Failure::Protocol),
    }
}

} // verus!
