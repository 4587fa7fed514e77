//! The check of an entry's version against the expected versions.

use crate::error::{ChangelogError, ErrorView};
use vstd::prelude::*;

verus! {

/// The texts of a list of strings.
pub open spec fn texts(list: Seq<String>) -> Seq<Seq<char>> {
    list.map_values(|item: String| item@)
}

/// True when `version` is, character for character, one of `expected`.
pub open spec fn version_listed(version: Seq<char>, expected: Seq<Seq<char>>) -> bool {
    exists|i: int| 0 <= i < expected.len() && expected[i] == version
}

/// The outcome of the check: nothing to report where `version` is listed,
/// else the mismatch, with the version that was looked for.
pub open spec fn spec_check_version(
    version: Seq<char>,
    expected: Seq<Seq<char>>,
) -> Result<(), ErrorView> {
    if version_listed(version, expected) {
        Ok(())
    } else {
        Err(ErrorView::VersionMismatch { version })
    }
}

/// Checks that `version` equals one of `args`, wherever it stands among
/// them. The whole string counts: a version that is only a part of an
/// argument is not listed.
pub fn check_version(version: &str, args: &Vec<String>) -> (checked: Result<(), ChangelogError>)
    ensures
        match checked {
            Ok(_) => spec_check_version(version@, texts(args@)) == Ok::<(), ErrorView>(()),
            Err(error) => {
                spec_check_version(version@, texts(args@)) == Err::<(), ErrorView>(error@)
            },
        },
{
    let wanted = version.to_owned();
    let mut i: usize = 0;
    while i < args.len()
        invariant
            i <= args.len(),
            wanted@ == version@,
            forall|j: int| 0 <= j < i ==> texts(args@)[j] != version@,
        decreases args.len() - i,
    {
        if args[i] == wanted {
            assert(texts(args@)[i as int] == version@);
            return Ok(());
        }
        i += 1;
    }
    Err(ChangelogError::VersionMismatch { version: wanted })
}

} // verus!
