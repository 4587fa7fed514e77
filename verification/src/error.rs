//! The failures of a run, and the line that reports each.

use crate::text::{join2, join3};
use vstd::prelude::*;

verus! {

/// The path of the changelog that a run reads.
pub const CHANGELOG_PATH: &'static str = "./CHANGELOG.md";

/// The path of the file that a run writes the newest entry to.
pub const OUT_PATH: &'static str = "./latest_changelog.md";

/// Why a run stopped. Each of them ends the run with exit status 1.
#[derive(Debug, PartialEq, Eq)]
pub enum ChangelogError {
    /// The heading pattern did not compile.
    PatternCompile { cause: String },
    /// The changelog could not be read.
    Read { cause: String },
    /// What was found as a heading cannot be read as one: its version token
    /// is missing or empty, or its offsets do not fit the document.
    Parse,
    /// The version of the newest entry is none of the expected ones.
    VersionMismatch { version: String },
    /// The newest entry could not be written.
    Write { cause: String },
}

/// A `ChangelogError` with its texts as sequences of characters.
pub enum ErrorView {
    PatternCompile { cause: Seq<char> },
    Read { cause: Seq<char> },
    Parse,
    VersionMismatch { version: Seq<char> },
    Write { cause: Seq<char> },
}

impl View for ChangelogError {
    type V = ErrorView;

    open spec fn view(&self) -> ErrorView {
        match self {
            ChangelogError::PatternCompile { cause } => ErrorView::PatternCompile { cause: cause@ },
            ChangelogError::Read { cause } => ErrorView::Read { cause: cause@ },
            ChangelogError::Parse => ErrorView::Parse,
            ChangelogError::VersionMismatch { version } => {
                ErrorView::VersionMismatch { version: version@ }
            },
            ChangelogError::Write { cause } => ErrorView::Write { cause: cause@ },
        }
    }
}

/// The line that reports `error` on the standard error stream.
pub open spec fn message_of(error: ErrorView) -> Seq<char> {
    match error {
        ErrorView::PatternCompile { cause } => "Error compiling changelog regex: "@ + cause,
        ErrorView::Read { cause } => "Error reading file "@ + CHANGELOG_PATH@ + ": "@ + cause,
        ErrorView::Parse => "Error parsing the latest changelog entry!"@,
        ErrorView::VersionMismatch { version } => {
            "Version mismatch, changelog version is "@ + version + "!"@
        },
        ErrorView::Write { cause } => "Error: writing to file "@ + OUT_PATH@ + ": "@ + cause,
    }
}

impl ChangelogError {
    /// The line that reports this error on the standard error stream.
    pub fn message(&self) -> (text: String)
        ensures
            text@ == message_of(self@),
    {
        match self {
            ChangelogError::PatternCompile { cause } => {
                join2("Error compiling changelog regex: ", cause.as_str())
            },
            ChangelogError::Read { cause } => {
                let head = join2("Error reading file ", CHANGELOG_PATH);
                join3(head.as_str(), ": ", cause.as_str())
            },
            ChangelogError::Parse => "Error parsing the latest changelog entry!".to_owned(),
            ChangelogError::VersionMismatch { version } => {
                join3("Version mismatch, changelog version is ", version.as_str(), "!")
            },
            ChangelogError::Write { cause } => {
                let head = join2("Error: writing to file ", OUT_PATH);
                join3(head.as_str(), ": ", cause.as_str())
            },
        }
    }
}

} // verus!
