//! The artifact fetcher: a file is downloaded once, into the working
//! directory, under the last segment of its URL, and its checksum is held
//! against the expected one.
//!
//! A file that is already there is taken as it is: nothing is downloaded and
//! no checksum is computed. A file whose checksum differs is reported and
//! left in place.

use crate::host::{
    checked, checked_quiet, lemma_run_ends, play, run_checked, run_checked_quiet, settle,
    settled, Failure, Progress, Reply, Request, Trace,
};
use crate::space::{first_word, first_word_span};
use crate::text::{chars_of, lemma_split_on_nonempty, same_text, slice_of, split, split_on};
use vstd::prelude::*;

verus! {

/// Where a fetch stands.
#[derive(Debug, Clone, PartialEq, Eq)]
pub enum FetchState<T> {
    /// Asked whether the file is already there.
    Probing { url: T, checksum: T, path: T },
    /// Asked for the download.
    Downloading { checksum: T, path: T },
    /// Asked for the checksum of the downloaded file.
    Hashing { checksum: T, path: T },
}

impl View for FetchState<String> {
    type V = FetchState<Seq<char>>;

    open spec fn view(&self) -> FetchState<Seq<char>> {
        match self {
            FetchState::Probing { url, checksum, path } => FetchState::Probing {
                url: url@,
                checksum: checksum@,
                path: path@,
            },
            FetchState::Downloading { checksum, path } => FetchState::Downloading {
                checksum: checksum@,
                path: path@,
            },
            FetchState::Hashing { checksum, path } => FetchState::Hashing {
                checksum: checksum@,
                path: path@,
            },
        }
    }
}

/// A fetch in progress, or its result: the path of the local file.
pub type Fetch<T> = Progress<FetchState<T>, T, T>;

/// What follows the last slash of `url`; all of it where it holds none.
pub open spec fn last_segment(url: Seq<char>) -> Seq<char> {
    split_on(url, '/').last()
}

/// The command that downloads `url` into the working directory.
pub open spec fn download_command(url: Seq<char>) -> Seq<char> {
    "curl -fSsL -O "@ + url
}

/// The command that prints the checksum of the file at `path`.
pub open spec fn checksum_command(path: Seq<char>) -> Seq<char> {
    "md5sum "@ + path
}

/// The checksum that the checksum command printed: the first word of its
/// output. It is held against the expected checksum character by
/// character, so the case of the hexadecimal digits counts.
pub open spec fn printed_checksum(stdout: Seq<char>) -> Seq<char> {
    first_word(stdout)
}

/// The first step of a fetch: ask whether the file is already there.
pub open spec fn fetch_start(url: Seq<char>, checksum: Seq<char>) -> Fetch<Seq<char>> {
    let path = last_segment(url);
    Progress::Ask(FetchState::Probing { url, checksum, path }, Request::PathExists { path })
}

/// The step that follows `reply`.
pub open spec fn fetch_next(state: FetchState<Seq<char>>, reply: Reply<Seq<char>>) -> Fetch<
    Seq<char>,
> {
    match state {
        FetchState::Probing { url, checksum, path } => match reply {
            Reply::Exists(true) => Progress::Done(Ok(path)),
            Reply::Exists(false) => Progress::Ask(
                FetchState::Downloading { checksum, path },
                Request::Run(checked(download_command(url))),
            ),
            Reply::Failed(failure) => Progress::Done(Err(failure)),
            _ => Progress::Done(Err(Failure::Protocol)),
        },
        FetchState::Downloading { checksum, path } => match settled(reply) {
            Ok(_) => Progress::Ask(
                FetchState::Hashing { checksum, path },
                Request::Run(checked_quiet(checksum_command(path))),
            ),
            Err(failure) => Progress::Done(Err(failure)),
        },
        FetchState::Hashing { checksum, path } => match settled(reply) {
            Ok(output) => if printed_checksum(output.stdout) == checksum {
                Progress::Done(Ok(path))
            } else {
                Progress::Done(Err(Failure::Integrity { path }))
            },
            Err(failure) => Progress::Done(Err(failure)),
        },
    }
}

/// The run of a fetch against a host that answers with `replies`.
pub open spec fn fetch_run(url: Seq<char>, checksum: Seq<char>, replies: Seq<Reply<Seq<char>>>)
    -> Trace<Seq<char>> {
    play(
        |state: FetchState<Seq<char>>, reply: Reply<Seq<char>>| fetch_next(state, reply),
        fetch_start(url, checksum),
        replies,
    )
}

/// The name under which `url` is kept: what follows its last slash.
pub fn file_name(url: &str) -> (name: String)
    ensures
        name@ == last_segment(url@),
{
    let chars = chars_of(url);
    let spans = split(chars.as_slice(), '/');
    proof {
        lemma_split_on_nonempty(url@, '/');
    }
    let last = spans[spans.len() - 1];
    String::from_str(url.substring_char(last.start, last.end))
}

/// Whether the output of the checksum command names `expected`.
pub fn checksum_matches(stdout: &str, expected: &str) -> (r: bool)
    ensures
        r == (printed_checksum(stdout@) == expected@),
{
    let printed = chars_of(stdout);
    let expected = chars_of(expected);
    let word = first_word_span(printed.as_slice());
    same_text(slice_of(printed.as_slice(), word), expected.as_slice())
}

/// Starts to fetch the file at `url`, whose checksum is to be `md5sum`.
pub fn download_file(url: &str, md5sum: &str) -> (step: Fetch<String>)
    ensures
        step@ == fetch_start(url@, md5sum@),
{
    let path = file_name(url);
    let state = FetchState::Probing {
        url: String::from_str(url),
        checksum: String::from_str(md5sum),
        path: path.clone(),
    };
    Progress::Ask(state, Request::PathExists { path })
}

impl FetchState<String> {
    /// Takes the reply to the last request and says what comes next.
    pub fn next(self, reply: Reply<String>) -> (step: Fetch<String>)
        ensures
            step@ == fetch_next(self@, reply@),
    {
        match self {
            FetchState::Probing { url, checksum, path } => match reply {
                Reply::Exists(true) => Progress::Done(Ok(path)),
                Reply::Exists(false) => {
                    let mut command = String::from_str("curl -fSsL -O ");
                    command.append(url.as_str());
                    Progress::Ask(FetchState::Downloading { checksum, path }, run_checked(command))
                },
                Reply::Failed(failure) => Progress::Done(Err(failure)),
                _ => Progress::Done(Err(Failure::Protocol)),
            },
            FetchState::Downloading { checksum, path } => match settle(reply) {
                Ok(_) => {
                    let mut command = String::from_str("md5sum ");
                    command.append(path.as_str());
                    Progress::Ask(
                        FetchState::Hashing { checksum, path },
                        run_checked_quiet(command),
                    )
                },
                Err(failure) => Progress::Done(Err(failure)),
            },
            FetchState::Hashing { checksum, path } => match settle(reply) {
                Ok(output) => if checksum_matches(output.stdout.as_str(), checksum.as_str()) {
                    Progress::Done(Ok(path))
                } else {
                    Progress::Done(Err(Failure::Integrity { path }))
                },
                Err(failure) => Progress::Done(Err(failure)),
            },
        }
    }
}

/// How many requests a fetch can still make once the one that is out is
/// answered.
pub open spec fn fetch_left(state: FetchState<Seq<char>>) -> nat {
    match state {
        FetchState::Probing { .. } => 2,
        FetchState::Downloading { .. } => 1,
        FetchState::Hashing { .. } => 0,
    }
}

/// A fetch asks for three things at most, and it has ended when three
/// requests are answered, whatever the answers.
pub proof fn law_fetch_ends(url: Seq<char>, checksum: Seq<char>, replies: Seq<Reply<Seq<char>>>)
    ensures
        fetch_run(url, checksum, replies).asked.len() <= 3,
        replies.len() >= 3 ==> fetch_run(url, checksum, replies).end is Some,
{
    lemma_run_ends(
        |state: FetchState<Seq<char>>, reply: Reply<Seq<char>>| fetch_next(state, reply),
        |state: FetchState<Seq<char>>| fetch_left(state),
        fetch_start(url, checksum),
        replies,
    );
}

/// A file that is already there is not downloaded again: the fetch asks
/// whether the file exists, and with the answer that it does the fetch ends
/// with the file's path. It runs no command at all, whatever the host would
/// have answered afterwards.
pub proof fn law_present_file_is_not_fetched(
    url: Seq<char>,
    checksum: Seq<char>,
    replies: Seq<Reply<Seq<char>>>,
)
    requires
        replies.len() >= 1,
        replies[0] == Reply::<Seq<char>>::Exists(true),
    ensures
        fetch_run(url, checksum, replies) == (Trace {
            asked: seq![Request::PathExists { path: last_segment(url) }],
            end: Some(Ok(last_segment(url))),
        }),
{
    reveal_with_fuel(play, 3);
    let run = fetch_run(url, checksum, replies);
    assert(run.asked =~= seq![Request::PathExists { path: last_segment(url) }]);
}

/// A download whose checksum differs from the expected one ends in an
/// integrity failure that names the file. The fetch has then asked for three
/// things: whether the file exists, the download, and the checksum. Nothing
/// it asked for removes or rewrites the file.
pub proof fn law_wrong_checksum_is_refused(
    url: Seq<char>,
    checksum: Seq<char>,
    downloaded: crate::host::CommandOutput<Seq<char>>,
    summed: crate::host::CommandOutput<Seq<char>>,
    replies: Seq<Reply<Seq<char>>>,
)
    requires
        replies.len() >= 3,
        replies[0] == Reply::<Seq<char>>::Exists(false),
        replies[1] == Reply::Ran(downloaded),
        replies[2] == Reply::Ran(summed),
        downloaded.success,
        summed.success,
        printed_checksum(summed.stdout) != checksum,
    ensures
        fetch_run(url, checksum, replies) == (Trace::<Seq<char>> {
            asked: seq![
                Request::PathExists { path: last_segment(url) },
                Request::Run(checked(download_command(url))),
                Request::Run(checked_quiet(checksum_command(last_segment(url)))),
            ],
            end: Some(Err(Failure::Integrity { path: last_segment(url) })),
        }),
{
    reveal_with_fuel(play, 5);
    let run = fetch_run(url, checksum, replies);
    assert(replies.skip(1)[0] == replies[1]);
    assert(replies.skip(1).skip(1)[0] == replies[2]);
    assert(run.asked =~= seq![
        Request::PathExists { path: last_segment(url) },
        Request::Run(checked(download_command(url))),
        Request::Run(checked_quiet(checksum_command(last_segment(url)))),
    ]);
}

/// A download whose checksum is the expected one ends with the file's path.
pub proof fn law_right_checksum_is_accepted(
    url: Seq<char>,
    checksum: Seq<char>,
    downloaded: crate::host::CommandOutput<Seq<char>>,
    summed: crate::host::CommandOutput<Seq<char>>,
    replies: Seq<Reply<Seq<char>>>,
)
    requires
        replies.len() >= 3,
        replies[0] == Reply::<Seq<char>>::Exists(false),
        replies[1] == Reply::Ran(downloaded),
        replies[2] == Reply::Ran(summed),
        downloaded.success,
        summed.success,
        printed_checksum(summed.stdout) == checksum,
    ensures
        fetch_run(url, checksum, replies).end == Some(
            Ok::<Seq<char>, Failure<Seq<char>>>(last_segment(url)),
        ),
{
    reveal_with_fuel(play, 5);
    assert(replies.skip(1)[0] == replies[1]);
    assert(replies.skip(1).skip(1)[0] == replies[2]);
}

/// A download is asked for in one situation only: the fetch had asked
/// whether the file exists and was told that it does not.
pub proof fn law_download_only_when_absent(state: FetchState<Seq<char>>, reply: Reply<Seq<char>>)
    requires
        fetch_next(state, reply) matches Progress::Ask(FetchState::Downloading { .. }, _),
    ensures
        state is Probing,
        reply == Reply::<Seq<char>>::Exists(false),
{
}

} // verus!
