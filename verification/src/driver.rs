//! The run as a state machine: `step` decides, the caller reads and writes
//! the files and reports back what happened.
//!
//! A run goes `Start`, `Loaded`, `Matched`, `Validated`, `Written`, `Done`.
//! It leaves that path for `Done` where the changelog has no heading, and
//! for `Failed` at the first error. It acts on the newest entry only, the
//! first one of the changelog: the next line that opens a version section
//! bounds that entry, and no later entry is ever checked or written.

use crate::entry::{
    extract_latest_entry, found_view, latest_entry, spec_latest_entry, EntryMatch, EntryView,
};
use crate::error::{message_of, ChangelogError, ErrorView, OUT_PATH};
use crate::pattern::{captures_in, Capture, VERSION_GROUP};
use crate::text::join3;
use crate::version::{check_version, spec_check_version, texts};
use regex::Regex;
use vstd::prelude::*;

verus! {

/// Where a run stands.
#[derive(Debug, PartialEq, Eq)]
pub enum State {
    /// Nothing has been read yet.
    Start,
    /// The changelog has been read.
    Loaded { document: String },
    /// The newest entry has been found.
    Matched { entry: EntryMatch },
    /// The version of the newest entry is one of the expected ones.
    Validated { entry: EntryMatch },
    /// The newest entry has been written.
    Written,
    /// The run has ended well.
    Done,
    /// The run has ended with an error.
    Failed { error: ChangelogError },
}

/// What the caller reports to the machine.
#[derive(Debug, PartialEq, Eq)]
pub enum Event {
    /// Nothing happened outside.
    Resumed,
    /// The changelog was read, or could not be: then with the cause.
    Read(Result<String, String>),
    /// The entry was written, or could not be: then with the cause.
    Wrote(Result<(), String>),
}

/// What the machine asks the caller to do next.
#[derive(Debug, PartialEq, Eq)]
pub enum Request {
    /// Read the changelog and report `Event::Read`.
    ReadChangelog,
    /// Replace the content of the output file by `content`, creating the
    /// file where there is none, and report `Event::Wrote`.
    WriteLatest { content: String },
    /// Nothing to do outside: report `Event::Resumed`.
    Continue,
    /// End the run with exit status 0.
    Finish,
    /// Print `message` on the standard error stream and end the run with
    /// exit status 1.
    Abort { message: String },
}

/// The outcome of one step: a line for the standard output stream, if any,
/// and the request to carry out after printing it.
#[derive(Debug, PartialEq, Eq)]
pub struct Effect {
    pub notice: Option<String>,
    pub request: Request,
}

/// A `State` with its texts as sequences of characters.
pub enum StateView {
    Start,
    Loaded { document: Seq<char> },
    Matched { entry: EntryView },
    Validated { entry: EntryView },
    Written,
    Done,
    Failed { error: ErrorView },
}

/// An `Event` with its texts as sequences of characters.
pub enum EventView {
    Resumed,
    Read(Result<Seq<char>, Seq<char>>),
    Wrote(Result<(), Seq<char>>),
}

/// A `Request` with its texts as sequences of characters.
pub enum RequestView {
    ReadChangelog,
    WriteLatest { content: Seq<char> },
    Continue,
    Finish,
    Abort { message: Seq<char> },
}

/// An `Effect` with its texts as sequences of characters.
pub struct EffectView {
    pub notice: Option<Seq<char>>,
    pub request: RequestView,
}

impl View for State {
    type V = StateView;

    open spec fn view(&self) -> StateView {
        match self {
            State::Start => StateView::Start,
            State::Loaded { document } => StateView::Loaded { document: document@ },
            State::Matched { entry } => StateView::Matched { entry: entry@ },
            State::Validated { entry } => StateView::Validated { entry: entry@ },
            State::Written => StateView::Written,
            State::Done => StateView::Done,
            State::Failed { error } => StateView::Failed { error: error@ },
        }
    }
}

impl View for Event {
    type V = EventView;

    open spec fn view(&self) -> EventView {
        match self {
            Event::Resumed => EventView::Resumed,
            Event::Read(Ok(document)) => EventView::Read(Ok(document@)),
            Event::Read(Err(cause)) => EventView::Read(Err(cause@)),
            Event::Wrote(Ok(_)) => EventView::Wrote(Ok(())),
            Event::Wrote(Err(cause)) => EventView::Wrote(Err(cause@)),
        }
    }
}

impl View for Request {
    type V = RequestView;

    open spec fn view(&self) -> RequestView {
        match self {
            Request::ReadChangelog => RequestView::ReadChangelog,
            Request::WriteLatest { content } => RequestView::WriteLatest { content: content@ },
            Request::Continue => RequestView::Continue,
            Request::Finish => RequestView::Finish,
            Request::Abort { message } => RequestView::Abort { message: message@ },
        }
    }
}

impl View for Effect {
    type V = EffectView;

    open spec fn view(&self) -> EffectView {
        EffectView {
            notice: match self.notice {
                Some(line) => Some(line@),
                None => None,
            },
            request: self.request@,
        }
    }
}

/// The exit status that a request ends the run with, if it ends it.
pub open spec fn exit_status(request: RequestView) -> Option<int> {
    match request {
        RequestView::Finish => Some(0),
        RequestView::Abort { .. } => Some(1),
        _ => None,
    }
}

/// The line that reports a version that is listed.
pub open spec fn match_notice() -> Seq<char> {
    "Versions match!"@
}

/// The line that reports that the entry has been written.
pub open spec fn written_notice() -> Seq<char> {
    "OK: written latest changelog to file "@ + OUT_PATH@ + "."@
}

/// A step that prints nothing and asks for `request`.
pub open spec fn quiet(request: RequestView) -> EffectView {
    EffectView { notice: None, request }
}

/// The step that ends the run with `error`.
pub open spec fn spec_fail(error: ErrorView) -> (StateView, EffectView) {
    (StateView::Failed { error }, quiet(RequestView::Abort { message: message_of(error) }))
}

/// The step that ends the run well.
pub open spec fn spec_finish() -> (StateView, EffectView) {
    (StateView::Done, quiet(RequestView::Finish))
}

/// From `Start`: the changelog is asked for until its reading is reported.
pub open spec fn spec_load(event: EventView) -> (StateView, EffectView) {
    match event {
        EventView::Read(Ok(document)) => {
            (StateView::Loaded { document }, quiet(RequestView::Continue))
        },
        EventView::Read(Err(cause)) => spec_fail(ErrorView::Read { cause }),
        _ => (StateView::Start, quiet(RequestView::ReadChangelog)),
    }
}

/// From `Loaded`, given the lines found in the document that open a version
/// section: on to the newest entry, or to the end of the run where none of
/// them is the heading of an entry.
pub open spec fn spec_parse_changelog(
    document: Seq<char>,
    captures: Seq<Capture>,
) -> (StateView, EffectView) {
    match spec_latest_entry(document, captures) {
        Ok(Some(entry)) => (StateView::Matched { entry }, quiet(RequestView::Continue)),
        Ok(None) => spec_finish(),
        Err(error) => spec_fail(error),
    }
}

/// From `Matched`: the entry is to be written where its version is one of
/// `expected`, else the run fails.
pub open spec fn spec_process_match(
    entry: EntryView,
    expected: Seq<Seq<char>>,
) -> (StateView, EffectView) {
    match spec_check_version(entry.version, expected) {
        Ok(_) => (
            StateView::Validated { entry },
            EffectView {
                notice: Some(match_notice()),
                request: RequestView::WriteLatest { content: entry.text },
            },
        ),
        Err(error) => spec_fail(error),
    }
}

/// From `Validated`: the writing is asked for until its outcome is reported.
pub open spec fn spec_write_to_file(entry: EntryView, event: EventView) -> (StateView, EffectView) {
    match event {
        EventView::Wrote(Ok(_)) => (
            StateView::Written,
            EffectView { notice: Some(written_notice()), request: RequestView::Continue },
        ),
        EventView::Wrote(Err(cause)) => spec_fail(ErrorView::Write { cause }),
        _ => (
            StateView::Validated { entry },
            quiet(RequestView::WriteLatest { content: entry.text }),
        ),
    }
}

/// The document that a state holds: empty where it holds none.
pub open spec fn loaded_document(state: StateView) -> Seq<char> {
    match state {
        StateView::Loaded { document } => document,
        _ => Seq::empty(),
    }
}

/// One step of the machine, given the lines that open a version section in
/// the document that the state holds.
pub open spec fn spec_step_with(
    captures: Seq<Capture>,
    expected: Seq<Seq<char>>,
    state: StateView,
    event: EventView,
) -> (StateView, EffectView) {
    match state {
        StateView::Start => spec_load(event),
        StateView::Loaded { document } => spec_parse_changelog(document, captures),
        StateView::Matched { entry } => spec_process_match(entry, expected),
        StateView::Validated { entry } => spec_write_to_file(entry, event),
        StateView::Written => spec_finish(),
        StateView::Done => spec_finish(),
        StateView::Failed { error } => spec_fail(error),
    }
}

/// One step of the machine that finds those lines with `regex`.
pub open spec fn spec_step(
    regex: Regex,
    expected: Seq<Seq<char>>,
    state: StateView,
    event: EventView,
) -> (StateView, EffectView) {
    spec_step_with(
        captures_in(regex, VERSION_GROUP@, loaded_document(state)),
        expected,
        state,
        event,
    )
}

impl Request {
    /// The exit status that this request ends the run with, if it ends it.
    pub fn exit_code(&self) -> (code: Option<i32>)
        ensures
            match code {
                Some(status) => exit_status(self@) == Some(status as int),
                None => exit_status(self@) is None,
            },
    {
        match self {
            Request::Finish => Some(0),
            Request::Abort { .. } => Some(1),
            _ => None,
        }
    }
}

/// Ends the run with `error`.
pub(crate) fn fail(error: ChangelogError) -> (next: (State, Effect))
    ensures
        (next.0@, next.1@) == spec_fail(error@),
{
    let message = error.message();
    (State::Failed { error }, Effect { notice: None, request: Request::Abort { message } })
}

/// Ends the run well.
pub(crate) fn finish() -> (next: (State, Effect))
    ensures
        (next.0@, next.1@) == spec_finish(),
{
    (State::Done, Effect { notice: None, request: Request::Finish })
}

/// The step that follows a search for the newest entry.
pub(crate) fn found_entry(
    found: Result<Option<EntryMatch>, ChangelogError>,
) -> (next: (State, Effect))
    ensures
        (next.0@, next.1@) == match found_view(found) {
            Ok(Some(entry)) => (StateView::Matched { entry }, quiet(RequestView::Continue)),
            Ok(None) => spec_finish(),
            Err(error) => spec_fail(error),
        },
{
    match found {
        Ok(Some(entry)) => {
            (State::Matched { entry }, Effect { notice: None, request: Request::Continue })
        },
        Ok(None) => finish(),
        Err(error) => fail(error),
    }
}

/// The step from `Start`: takes what reading the changelog came to.
pub fn load(event: Event) -> (next: (State, Effect))
    ensures
        (next.0@, next.1@) == spec_load(event@),
{
    match event {
        Event::Read(Ok(document)) => {
            (State::Loaded { document }, Effect { notice: None, request: Request::Continue })
        },
        Event::Read(Err(cause)) => fail(ChangelogError::Read { cause }),
        _ => (State::Start, Effect { notice: None, request: Request::ReadChangelog }),
    }
}

/// The step from `Loaded`, given the lines that were found in the document
/// to open a version section.
pub fn parse_captures(document: &str, captures: &Vec<Capture>) -> (next: (State, Effect))
    ensures
        (next.0@, next.1@) == spec_parse_changelog(document@, captures@),
{
    found_entry(latest_entry(document, captures))
}

/// The step from `Loaded`: the lines that open a version section are those
/// that `regex` finds in the document.
pub fn parse_changelog(regex: &Regex, document: &str) -> (next: (State, Effect))
    ensures
        (next.0@, next.1@)
            == spec_parse_changelog(document@, captures_in(*regex, VERSION_GROUP@, document@)),
{
    found_entry(extract_latest_entry(regex, document))
}

/// The step from `Matched`: checks the version of the entry against `args`.
pub fn process_match(entry: EntryMatch, args: &Vec<String>) -> (next: (State, Effect))
    ensures
        (next.0@, next.1@) == spec_process_match(entry@, texts(args@)),
{
    match check_version(entry.version.as_str(), args) {
        Ok(_) => {
            let content = entry.text.clone();
            let notice = Some("Versions match!".to_owned());
            (
                State::Validated { entry },
                Effect { notice, request: Request::WriteLatest { content } },
            )
        },
        Err(error) => fail(error),
    }
}

/// The step from `Validated`: takes what writing the entry came to.
pub fn write_to_file(entry: EntryMatch, event: Event) -> (next: (State, Effect))
    ensures
        (next.0@, next.1@) == spec_write_to_file(entry@, event@),
{
    match event {
        Event::Wrote(Ok(_)) => {
            let notice = Some(join3("OK: written latest changelog to file ", OUT_PATH, "."));
            (State::Written, Effect { notice, request: Request::Continue })
        },
        Event::Wrote(Err(cause)) => fail(ChangelogError::Write { cause }),
        _ => {
            let content = entry.text.clone();
            (
                State::Validated { entry },
                Effect { notice: None, request: Request::WriteLatest { content } },
            )
        },
    }
}

/// One step of the machine: from `state`, on `event`, to the next state and
/// to what the caller is to do there. An event that the state does not wait
/// for changes nothing: the state stays and asks again.
pub fn step(
    regex: &Regex,
    args: &Vec<String>,
    state: State,
    event: Event,
) -> (next: (State, Effect))
    ensures
        (next.0@, next.1@) == spec_step(*regex, texts(args@), state@, event@),
{
    match state {
        State::Start => load(event),
        State::Loaded { document } => parse_changelog(regex, document.as_str()),
        State::Matched { entry } => process_match(entry, args),
        State::Validated { entry } => write_to_file(entry, event),
        State::Written => finish(),
        State::Done => finish(),
        State::Failed { error } => fail(error),
    }
}

} // verus!
