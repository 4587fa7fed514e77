use latest_changelog::error::ChangelogError;
use latest_changelog::version::check_version;

fn args(list: &[&str]) -> Vec<String> {
    list.iter().map(|arg| arg.to_string()).collect()
}

fn mismatch(version: &str) -> Result<(), ChangelogError> {
    Err(ChangelogError::VersionMismatch { version: version.to_string() })
}

#[test]
fn version_among_the_arguments() {
    assert_eq!(check_version("1.2.0", &args(&["./parse_changelog", "1.2.0"])), Ok(()));
    assert_eq!(check_version("1.2.0", &args(&["1.2.0"])), Ok(()));
    assert_eq!(check_version("1.2.0", &args(&["a", "b", "1.2.0", "c"])), Ok(()));
    assert_eq!(check_version("1.2.0", &args(&["1.2.0", "1.2.0"])), Ok(()));
    assert_eq!(check_version("1.2.0", &args(&["1.1.0", "1.3.0", "1.2.0"])), Ok(()));
}

#[test]
fn version_not_among_the_arguments() {
    assert_eq!(check_version("1.2.0", &args(&[])), mismatch("1.2.0"));
    assert_eq!(check_version("1.2.0", &args(&["./parse_changelog"])), mismatch("1.2.0"));
    assert_eq!(check_version("1.2.0", &args(&["./parse_changelog", "1.1.0"])), mismatch("1.2.0"));
}

#[test]
fn part_of_an_argument_is_no_match() {
    for other in ["1.2", "1.2.0.0", "v1.2.0", "1.2.0 ", " 1.2.0", "1.2.0\n", "", "1,2,0", "1.2.O"] {
        assert_eq!(check_version("1.2.0", &args(&["prog", other])), mismatch("1.2.0"), "{other:?}");
    }
}

#[test]
fn empty_version_matches_an_empty_argument_only() {
    assert_eq!(check_version("", &args(&["prog", ""])), Ok(()));
    assert_eq!(check_version("", &args(&["prog", " "])), mismatch(""));
}

#[test]
fn versions_beyond_ascii_compare_character_for_character() {
    assert_eq!(check_version("١.٢", &args(&["prog", "١.٢"])), Ok(()));
    assert_eq!(check_version("١.٢", &args(&["prog", "1.2"])), mismatch("١.٢"));
    assert_eq!(check_version("1–2", &args(&["prog", "1-2"])), mismatch("1–2"));
}

#[test]
fn program_path_is_an_argument_like_any_other() {
    assert_eq!(check_version("./parse_changelog", &args(&["./parse_changelog"])), Ok(()));
}
