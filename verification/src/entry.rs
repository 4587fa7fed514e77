//! The newest entry of a changelog: from its first version heading up to the
//! next line that opens a version section, or to the end of the document.
//!
//! The lines that open a version section are found by the `regex` crate.
//! Those with a version token are headings of entries. The others, such as
//! `## Version next`, start no entry, but they end the entry before them.
//! What the crate reports is held against the document before any text is
//! cut out, so every entry that comes back is made of whole lines and whole
//! characters of the document, whatever was reported.

use crate::error::{ChangelogError, ErrorView};
use crate::pattern::{
    captures, captures_in, compile, compile_failure, regex_pattern, Capture, Span,
    CHANGELOG_REGEX, VERSION_GROUP,
};
use crate::text::{
    byte_len, check_char_range, check_line_start, first_line, is_char_range, is_line_start,
    lemma_boundary_in_part, lemma_line_end_bounds, lemma_line_end_in_part,
    lemma_utf8_of_text_between, line_at, line_end, slice, text_between, utf8,
};
use regex::Regex;
use vstd::prelude::*;
use vstd::utf8::*;

verus! {

/// One entry of a changelog.
#[derive(Debug, PartialEq, Eq)]
pub struct EntryMatch {
    /// The entry as it stands in the changelog, its heading line included.
    pub text: String,
    /// The version token of the entry's heading.
    pub version: String,
}

/// An `EntryMatch` with its texts as sequences of characters.
pub struct EntryView {
    pub text: Seq<char>,
    pub version: Seq<char>,
}

impl View for EntryMatch {
    type V = EntryView;

    open spec fn view(&self) -> EntryView {
        EntryView { text: self.text@, version: self.version@ }
    }
}

/// What a search for the newest entry gives, with its texts as sequences of
/// characters.
pub open spec fn found_view(
    found: Result<Option<EntryMatch>, ChangelogError>,
) -> Result<Option<EntryView>, ErrorView> {
    match found {
        Ok(Some(entry)) => Ok(Some(entry@)),
        Ok(None) => Ok(None),
        Err(error) => Err(error@),
    }
}

/// True when `capture` can be read as a heading of the document with the
/// bytes `bytes`: it starts a line, its version token is not empty and lies
/// inside it, and both are made of whole characters.
pub open spec fn heading_ok(bytes: Seq<u8>, capture: Capture) -> bool {
    &&& capture.group matches Some(version)
    &&& capture.whole.start <= version.start
    &&& version.start < version.end
    &&& version.end <= capture.whole.end
    &&& is_char_range(bytes, capture.whole.start as int, capture.whole.end as int)
    &&& is_char_range(bytes, version.start as int, version.end as int)
    &&& is_line_start(bytes, capture.whole.start as int)
}

/// True when `capture` is a heading whose entry can end at offset `end`:
/// behind the heading, at a character boundary, and where a line starts or
/// at the end of the document.
pub open spec fn entry_ok(bytes: Seq<u8>, capture: Capture, end: int) -> bool {
    &&& heading_ok(bytes, capture)
    &&& is_char_range(bytes, capture.whole.end as int, end)
    &&& (end == bytes.len() || is_line_start(bytes, end))
}

/// The entry that starts where `capture` starts and ends at offset `end`.
pub open spec fn entry_of(document: Seq<char>, capture: Capture, end: int) -> EntryView {
    EntryView {
        text: text_between(document, capture.whole.start as int, end),
        version: match capture.group {
            Some(version) => text_between(document, version.start as int, version.end as int),
            None => Seq::empty(),
        },
    }
}

/// The entry of one heading, or the parse error where `capture` with `end`
/// is no entry of the document.
pub open spec fn spec_get_match(
    document: Seq<char>,
    capture: Capture,
    end: int,
) -> Result<EntryView, ErrorView> {
    if entry_ok(utf8(document), capture, end) {
        Ok(entry_of(document, capture, end))
    } else {
        Err(ErrorView::Parse)
    }
}

/// The index of the first capture from index `from` on that holds a version
/// token, which makes it the heading of an entry: `captures.len()` where
/// there is none.
pub open spec fn first_heading(captures: Seq<Capture>, from: int) -> int
    decreases captures.len() - from,
{
    if from < 0 || from >= captures.len() {
        captures.len() as int
    } else if captures[from].group is Some {
        from
    } else {
        first_heading(captures, from + 1)
    }
}

/// Where the entry of the heading `captures[index]` ends: where the next
/// capture starts, be it the heading of an entry or not, or at the end of
/// the document where no capture follows.
///
/// So a line `## Version` without a version token bounds the entry before it
/// as a heading does, though it starts no entry of its own.
pub open spec fn entry_end(bytes: Seq<u8>, captures: Seq<Capture>, index: int) -> int {
    if index + 1 < captures.len() {
        captures[index + 1].whole.start as int
    } else {
        bytes.len() as int
    }
}

/// The newest entry of `document`, given the lines found in it that open a
/// version section, in document order: none where none of them is a
/// heading, else the entry of the first heading.
pub open spec fn spec_latest_entry(
    document: Seq<char>,
    captures: Seq<Capture>,
) -> Result<Option<EntryView>, ErrorView> {
    let index = first_heading(captures, 0);
    if index >= captures.len() {
        Ok(None)
    } else {
        let end = entry_end(utf8(document), captures, index);
        match spec_get_match(document, captures[index], end) {
            Ok(entry) => Ok(Some(entry)),
            Err(error) => Err(error),
        }
    }
}

/// True when `captures[index]` is the first heading among `captures` and its
/// entry can be read out of the document with the bytes `bytes`.
pub open spec fn newest_ok(bytes: Seq<u8>, captures: Seq<Capture>, index: int) -> bool {
    &&& 0 <= index < captures.len()
    &&& first_heading(captures, 0) == index
    &&& entry_ok(bytes, captures[index], entry_end(bytes, captures, index))
}

/// `capture` as it lies in a text that starts `by` bytes into the document.
pub open spec fn moved(capture: Capture, by: usize) -> Capture {
    Capture {
        whole: Span {
            start: (capture.whole.start - by) as usize,
            end: (capture.whole.end - by) as usize,
        },
        group: match capture.group {
            Some(version) => Some(
                Span { start: (version.start - by) as usize, end: (version.end - by) as usize },
            ),
            None => None,
        },
    }
}

/// The bytes of an entry are the bytes of the document from the start of its
/// heading up to its end, and the bytes of its version are those of the
/// version token: nothing is added and nothing is left out.
pub proof fn lemma_entry_bytes(document: Seq<char>, capture: Capture, end: int)
    requires
        entry_ok(utf8(document), capture, end),
    ensures
        utf8(entry_of(document, capture, end).text)
            == utf8(document).subrange(capture.whole.start as int, end),
        utf8(entry_of(document, capture, end).version)
            == utf8(document).subrange(
                capture.group->0.start as int,
                capture.group->0.end as int,
            ),
{
    let version = capture.group->0;
    lemma_utf8_of_text_between(document, capture.whole.start as int, end);
    lemma_utf8_of_text_between(document, version.start as int, version.end as int);
}

/// Where a document holds a heading, its newest entry is found, the entry is
/// not empty, it starts with the heading that was matched, and its first line
/// is the line of the document that the heading starts.
pub proof fn lemma_entry_starts_with_heading_line(
    document: Seq<char>,
    captures: Seq<Capture>,
    index: int,
)
    requires
        newest_ok(utf8(document), captures, index),
    ensures
        spec_latest_entry(document, captures) matches Ok(Some(entry)) && {
            let heading = captures[index].whole;
            &&& entry.text.len() > 0
            &&& utf8(entry.text).subrange(0, heading.end - heading.start)
                == utf8(document).subrange(heading.start as int, heading.end as int)
            &&& is_line_start(utf8(document), heading.start as int)
            &&& first_line(utf8(entry.text)) == line_at(utf8(document), heading.start as int)
        },
{
    let bytes = utf8(document);
    let heading = captures[index].whole;
    let end = entry_end(bytes, captures, index);
    let entry = entry_of(document, captures[index], end);
    let part = bytes.subrange(heading.start as int, end);
    lemma_entry_bytes(document, captures[index], end);
    assert(utf8(entry.text).len() > 0);
    assert(part.subrange(0, heading.end - heading.start)
        == bytes.subrange(heading.start as int, heading.end as int));
    lemma_line_end_in_part(bytes, heading.start as int, end, heading.start as int);
    lemma_line_end_bounds(bytes, heading.start as int);
    assert(part.subrange(0, line_end(part, 0))
        == bytes.subrange(heading.start as int, line_end(bytes, heading.start as int)));
}

/// The version of an entry stands in the heading of the entry's own text, as
/// far behind the start of the heading as it stood in the document.
pub proof fn lemma_version_stands_in_heading(document: Seq<char>, capture: Capture, end: int)
    requires
        entry_ok(utf8(document), capture, end),
    ensures
        ({
            let entry = entry_of(document, capture, end);
            let start = capture.whole.start;
            let version = capture.group->0;
            &&& version.end - start <= capture.whole.end - start <= utf8(entry.text).len()
            &&& utf8(entry.version)
                == utf8(entry.text).subrange(version.start - start, version.end - start)
        }),
{
    let start = capture.whole.start as int;
    let version = capture.group->0;
    lemma_entry_bytes(document, capture, end);
    assert(utf8(document).subrange(start, end).subrange(
        version.start - start,
        version.end - start,
    ) == utf8(document).subrange(version.start as int, version.end as int));
}

/// An entry that is read again from its own text, where its heading is found
/// again at the start and nothing else is found, comes back as it is: the
/// same text and the same version.
pub proof fn lemma_entry_read_again(document: Seq<char>, captures: Seq<Capture>, index: int)
    requires
        newest_ok(utf8(document), captures, index),
    ensures
        spec_latest_entry(document, captures) matches Ok(Some(entry))
            && spec_latest_entry(
                entry.text,
                seq![moved(captures[index], captures[index].whole.start)],
            ) == Ok::<Option<EntryView>, ErrorView>(Some(entry)),
{
    let bytes = utf8(document);
    let capture = captures[index];
    let start = capture.whole.start;
    let version = capture.group->0;
    let end = entry_end(bytes, captures, index);
    let entry = entry_of(document, capture, end);
    let part = bytes.subrange(start as int, end);
    let again = moved(capture, start);
    encode_utf8_valid_utf8(document);
    lemma_entry_bytes(document, capture, end);
    lemma_boundary_in_part(bytes, start as int, end, start as int);
    lemma_boundary_in_part(bytes, start as int, end, capture.whole.end as int);
    lemma_boundary_in_part(bytes, start as int, end, version.start as int);
    lemma_boundary_in_part(bytes, start as int, end, version.end as int);
    lemma_boundary_in_part(bytes, start as int, end, end);
    assert(entry_ok(part, again, part.len() as int));
    assert(part.subrange(0, part.len() as int) == part);
    assert(part.subrange(version.start - start, version.end - start)
        == bytes.subrange(version.start as int, version.end as int));
    encode_utf8_decode_utf8(entry.text);
    assert(entry_of(entry.text, again, part.len() as int) == entry);
    assert(first_heading(seq![again], 0) == 0);
}

/// A document with one entry and nothing behind it, its heading being the
/// last line that opens a version section: the entry is found, it runs to
/// the end of the document, and where the heading opens the document the
/// entry is the document.
pub proof fn lemma_single_entry_runs_to_end(
    document: Seq<char>,
    captures: Seq<Capture>,
    index: int,
)
    requires
        index == captures.len() - 1,
        first_heading(captures, 0) == index,
        heading_ok(utf8(document), captures[index]),
    ensures
        spec_latest_entry(document, captures) matches Ok(Some(entry)) && {
            &&& utf8(entry.text) == utf8(document).skip(captures[index].whole.start as int)
            &&& captures[index].whole.start == 0 ==> entry.text == document
        },
{
    let bytes = utf8(document);
    let end = bytes.len() as int;
    encode_utf8_valid_utf8(document);
    is_char_boundary_start_end_of_seq(bytes);
    assert(entry_ok(bytes, captures[index], end));
    lemma_entry_bytes(document, captures[index], end);
    if captures[index].whole.start == 0 {
        assert(bytes.subrange(0, end) == bytes);
        encode_utf8_decode_utf8(document);
    }
}

/// Compiles `pattern`. It is for the `regex` crate to say which patterns
/// compile: the error carries what the crate has against the others.
pub fn compile_pattern(pattern: &str) -> (compiled: Result<Regex, ChangelogError>)
    ensures
        match compiled {
            Ok(regex) => compile_failure(pattern@) is None && regex_pattern(regex) == pattern@,
            Err(error) => {
                compile_failure(pattern@) matches Some(cause)
                    && error@ == (ErrorView::PatternCompile { cause })
            },
        },
{
    match compile(pattern) {
        Ok(regex) => Ok(regex),
        Err(cause) => Err(ChangelogError::PatternCompile { cause }),
    }
}

/// Compiles the heading pattern, `CHANGELOG_REGEX`.
pub fn compile_changelog_regex() -> (compiled: Result<Regex, ChangelogError>)
    ensures
        match compiled {
            Ok(regex) => {
                compile_failure(CHANGELOG_REGEX@) is None
                    && regex_pattern(regex) == CHANGELOG_REGEX@
            },
            Err(error) => {
                compile_failure(CHANGELOG_REGEX@) matches Some(cause)
                    && error@ == (ErrorView::PatternCompile { cause })
            },
        },
{
    compile_pattern(CHANGELOG_REGEX)
}

/// Reads the entry of one heading out of `document`: its text from the start
/// of the heading up to the byte offset `end`, and its version token. Fails
/// with `Parse` where `capture` with `end` is no entry of the document.
pub fn get_match(
    document: &str,
    capture: &Capture,
    end: usize,
) -> (found: Result<EntryMatch, ChangelogError>)
    ensures
        match found {
            Ok(entry) => {
                spec_get_match(document@, *capture, end as int)
                    == Ok::<EntryView, ErrorView>(entry@)
            },
            Err(error) => {
                spec_get_match(document@, *capture, end as int)
                    == Err::<EntryView, ErrorView>(error@)
            },
        },
{
    match capture.group {
        Some(version) => {
            let heading = capture.whole;
            let in_order = heading.start <= version.start && version.start < version.end
                && version.end <= heading.end;
            let whole_chars = check_char_range(document, heading.start, heading.end)
                && check_char_range(document, version.start, version.end)
                && check_char_range(document, heading.end, end);
            let whole_lines = check_line_start(document, heading.start)
                && (end == byte_len(document) || check_line_start(document, end));
            if in_order && whole_chars && whole_lines {
                let text = slice(document, heading.start, end).to_owned();
                let token = slice(document, version.start, version.end).to_owned();
                Ok(EntryMatch { text, version: token })
            } else {
                Err(ChangelogError::Parse)
            }
        },
        None => Err(ChangelogError::Parse),
    }
}

/// The newest entry of `document`, given the lines that were found in it to
/// open a version section, in document order. Those without a version token
/// are passed over as headings; each of them still ends the entry before it.
pub fn latest_entry(
    document: &str,
    captures: &Vec<Capture>,
) -> (found: Result<Option<EntryMatch>, ChangelogError>)
    ensures
        found_view(found) == spec_latest_entry(document@, captures@),
{
    let mut index: usize = 0;
    while index < captures.len() && captures[index].group.is_none()
        invariant
            index <= captures.len(),
            first_heading(captures@, 0) == first_heading(captures@, index as int),
        decreases captures.len() - index,
    {
        index += 1;
    }
    if index == captures.len() {
        return Ok(None);
    }
    let end = if index + 1 < captures.len() {
        captures[index + 1].whole.start
    } else {
        byte_len(document)
    };
    match get_match(document, &captures[index], end) {
        Ok(entry) => Ok(Some(entry)),
        Err(error) => Err(error),
    }
}

/// The newest entry of `document`: the lines that open a version section are
/// those that `regex` finds in it, with the version token, where there is
/// one, in the group `VERSION_GROUP`.
pub fn extract_latest_entry(
    regex: &Regex,
    document: &str,
) -> (found: Result<Option<EntryMatch>, ChangelogError>)
    ensures
        found_view(found)
            == spec_latest_entry(document@, captures_in(*regex, VERSION_GROUP@, document@)),
{
    let found = captures(regex, VERSION_GROUP, document);
    latest_entry(document, &found)
}

} // verus!
