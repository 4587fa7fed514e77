//! Extracts the newest entry of a Markdown changelog and checks its version
//! against a list of expected versions, such as a release tag.
//!
//! Version entries start at headings of the form `## Version <token>`. The
//! newest entry is the first one of the document: it runs from its heading
//! up to the next line that starts with `## Version`, with a version token or
//! without, or to the end of the document.
//!
//! The library decides and computes; it reads and writes no file. `driver`
//! holds the run as a state machine for a caller that does.

pub mod driver;
pub mod entry;
pub mod error;
pub mod pattern;
pub mod run;
pub mod text;
pub mod version;
