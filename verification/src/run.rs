//! A whole run: the machine together with a model of the files it meets,
//! and what holds of every run whatever the files hold.

use crate::driver::{exit_status, spec_step, EventView, RequestView, StateView};
use crate::entry::{first_heading, spec_latest_entry};
use crate::error::{message_of, ErrorView};
use crate::pattern::{captures_in, VERSION_GROUP};
use crate::version::version_listed;
use regex::Regex;
use vstd::prelude::*;

verus! {

/// A write that fails.
pub struct WriteFailure {
    /// The cause that is reported.
    pub cause: Seq<char>,
    /// What the failed write leaves of the output file: it may be gone, cut
    /// short, or as it was.
    pub leaves: Option<Seq<char>>,
}

/// The files that a run meets.
pub struct Files {
    /// The changelog as it reads, or the cause for which it cannot be read.
    pub changelog: Result<Seq<char>, Seq<char>>,
    /// The content of the output file, if there is one.
    pub output: Option<Seq<char>>,
    /// How writing the output file fails, if it does.
    pub write_failure: Option<WriteFailure>,
}

/// How a run ended.
pub struct Ended {
    /// The exit status.
    pub status: int,
    /// The files as the run left them.
    pub files: Files,
    /// The line on the standard error stream, if there is one.
    pub complaint: Option<Seq<char>>,
}

/// What carrying out `request` does to the files, and the event that reports
/// it. A write that succeeds replaces the output file; of one that fails
/// nothing is known but what the failure itself says it leaves.
pub open spec fn carry_out(files: Files, request: RequestView) -> (Files, EventView) {
    match request {
        RequestView::ReadChangelog => (files, EventView::Read(files.changelog)),
        RequestView::WriteLatest { content } => match files.write_failure {
            None => (Files { output: Some(content), ..files }, EventView::Wrote(Ok(()))),
            Some(failure) => (
                Files { output: failure.leaves, ..files },
                EventView::Wrote(Err(failure.cause)),
            ),
        },
        _ => (files, EventView::Resumed),
    }
}

/// The line that a request puts on the standard error stream.
pub open spec fn complaint_of(request: RequestView) -> Option<Seq<char>> {
    match request {
        RequestView::Abort { message } => Some(message),
        _ => None,
    }
}

/// The machine run from `state` on `event` for at most `steps` steps, each
/// request carried out on the files: how the run ended, or nothing where it
/// has not ended by then.
pub open spec fn spec_run_from(
    regex: Regex,
    expected: Seq<Seq<char>>,
    state: StateView,
    event: EventView,
    files: Files,
    steps: nat,
) -> Option<Ended>
    decreases steps,
{
    if steps == 0 {
        None
    } else {
        let (next, effect) = spec_step(regex, expected, state, event);
        match exit_status(effect.request) {
            Some(status) => {
                Some(Ended { status, files, complaint: complaint_of(effect.request) })
            },
            None => {
                let (files_then, reported) = carry_out(files, effect.request);
                spec_run_from(regex, expected, next, reported, files_then, (steps - 1) as nat)
            },
        }
    }
}

/// The number of steps within which every run ends.
pub open spec fn run_length() -> nat {
    6
}

/// A whole run on `files`.
pub open spec fn spec_run(regex: Regex, expected: Seq<Seq<char>>, files: Files) -> Option<Ended> {
    spec_run_from(regex, expected, StateView::Start, EventView::Resumed, files, run_length())
}

/// The end of a run that fails with `error` on `files`: exit status 1 and
/// the line that reports the error.
pub open spec fn ended_with(error: ErrorView, files: Files) -> Ended {
    Ended { status: 1, files, complaint: Some(message_of(error)) }
}

/// What a whole run comes to, said at once: the changelog is read, its newest
/// entry is looked for among what `regex` finds, the version of the entry is
/// checked against `expected`, and the entry is written.
pub open spec fn run_result(regex: Regex, expected: Seq<Seq<char>>, files: Files) -> Ended {
    match files.changelog {
        Err(cause) => ended_with(ErrorView::Read { cause }, files),
        Ok(document) => {
            match spec_latest_entry(document, captures_in(regex, VERSION_GROUP@, document)) {
                Err(error) => ended_with(error, files),
                Ok(None) => Ended { status: 0, files, complaint: None },
                Ok(Some(entry)) => {
                    if !version_listed(entry.version, expected) {
                        ended_with(ErrorView::VersionMismatch { version: entry.version }, files)
                    } else {
                        match files.write_failure {
                            Some(failure) => ended_with(
                                ErrorView::Write { cause: failure.cause },
                                Files { output: failure.leaves, ..files },
                            ),
                            None => Ended {
                                status: 0,
                                files: Files { output: Some(entry.text), ..files },
                                complaint: None,
                            },
                        }
                    }
                },
            }
        },
    }
}

/// Every run ends within `run_length()` steps, and as `run_result` says.
pub proof fn lemma_run_ends(regex: Regex, expected: Seq<Seq<char>>, files: Files)
    ensures
        spec_run(regex, expected, files) == Some(run_result(regex, expected, files)),
{
    reveal_with_fuel(spec_run_from, 7);
}

/// A run on a changelog in which no heading is found ends with exit status
/// 0, complains of nothing and leaves the files as they are.
pub proof fn lemma_no_heading_changes_nothing(
    regex: Regex,
    expected: Seq<Seq<char>>,
    files: Files,
)
    requires
        files.changelog matches Ok(document) && {
            let found = captures_in(regex, VERSION_GROUP@, document);
            first_heading(found, 0) == found.len()
        },
    ensures
        spec_run(regex, expected, files) == Some(Ended { status: 0, files, complaint: None }),
{
    lemma_run_ends(regex, expected, files);
}

/// A run that ends with exit status 0, run once more on the files that it
/// left, ends in the same way and leaves the same files: the output file of
/// the second run is that of the first.
pub proof fn lemma_run_twice(regex: Regex, expected: Seq<Seq<char>>, files: Files)
    requires
        run_result(regex, expected, files).status == 0,
    ensures
        spec_run(regex, expected, files) matches Some(first)
            && spec_run(regex, expected, first.files) == Some(first),
{
    let first = run_result(regex, expected, files);
    lemma_run_ends(regex, expected, files);
    lemma_run_ends(regex, expected, first.files);
}

/// A run ends with exit status 0 or 1, with 1 exactly where it complains. It
/// touches nothing but the output file, and that only once it has found the
/// newest entry with a version that is expected: then the output file holds
/// that entry and nothing else, or, where the write fails, what the failed
/// write leaves.
pub proof fn lemma_run_writes_entry_or_nothing(
    regex: Regex,
    expected: Seq<Seq<char>>,
    files: Files,
)
    ensures
        spec_run(regex, expected, files) matches Some(ended) && {
            &&& ended.status == 0 || ended.status == 1
            &&& ended.status == 1 <==> ended.complaint is Some
            &&& ended.files.changelog == files.changelog
            &&& ended.files.write_failure == files.write_failure
            &&& ended.files.output != files.output ==> ({
                &&& files.changelog matches Ok(document)
                &&& spec_latest_entry(document, captures_in(regex, VERSION_GROUP@, document))
                    matches Ok(Some(entry))
                &&& version_listed(entry.version, expected)
                &&& match files.write_failure {
                    None => ended.status == 0 && ended.files.output == Some(entry.text),
                    Some(failure) => ended.status == 1 && ended.files.output == failure.leaves,
                }
            })
        },
{
    lemma_run_ends(regex, expected, files);
}

} // verus!
