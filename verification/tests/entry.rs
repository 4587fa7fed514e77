use latest_changelog::entry::{
    compile_changelog_regex, compile_pattern, extract_latest_entry, get_match, latest_entry,
    EntryMatch,
};
use latest_changelog::error::ChangelogError;
use latest_changelog::pattern::{Capture, Span, CHANGELOG_REGEX, VERSION_GROUP};

fn extract(document: &str) -> Result<Option<EntryMatch>, ChangelogError> {
    let regex = compile_changelog_regex().expect("the heading pattern compiles");
    extract_latest_entry(&regex, document)
}

fn entry(text: &str, version: &str) -> EntryMatch {
    EntryMatch { text: text.to_string(), version: version.to_string() }
}

fn heading(start: usize, end: usize, version: (usize, usize)) -> Capture {
    Capture {
        whole: Span { start, end },
        group: Some(Span { start: version.0, end: version.1 }),
    }
}

#[test]
fn pattern_compiles_and_keeps_its_text() {
    let regex = compile_changelog_regex().unwrap();
    assert_eq!(regex.as_str(), CHANGELOG_REGEX);
    assert_eq!(regex.as_str(), r"(?m)^##\s+Version(?:\s+(?P<version>[\p{N}\p{P}~]+)\s)?");
    assert!(regex.capture_names().any(|name| name == Some(VERSION_GROUP)));
}

#[test]
fn compile_error_carries_what_regex_says() {
    for pattern in ["## Version (", r"\p{NoSuchClass}", "a{2,1}", r"(?P<version>.)(?P<version>.)"] {
        let said = regex::Regex::new(pattern).unwrap_err().to_string();
        assert!(!said.is_empty());
        match compile_pattern(pattern) {
            Err(error) => assert_eq!(error, ChangelogError::PatternCompile { cause: said }),
            Ok(regex) => panic!("no compile error: {regex}"),
        }
    }
}

#[test]
fn broken_pattern_is_a_compile_error() {
    match compile_pattern("## Version (") {
        Err(ChangelogError::PatternCompile { cause }) => {
            assert!(cause.contains("unclosed group"));
            let message = ChangelogError::PatternCompile { cause: cause.clone() }.message();
            assert_eq!(message, format!("Error compiling changelog regex: {cause}"));
        }
        other => panic!("no compile error: {:?}", other.map(|regex| regex.to_string())),
    }
}

#[test]
fn other_pattern_compiles_as_given() {
    let regex = compile_pattern(r"^x\d+$").unwrap();
    assert_eq!(regex.as_str(), r"^x\d+$");
}

#[test]
fn first_of_two_entries() {
    let document = "## Version 1.2.0 (2023-04-20)\n- Added feature X.\n\
## Version 1.1.0 (2023-03-01)\n- Fixed bug Y.\n";
    assert_eq!(
        extract(document),
        Ok(Some(entry("## Version 1.2.0 (2023-04-20)\n- Added feature X.\n", "1.2.0")))
    );
}

#[test]
fn text_before_the_first_heading_is_left_out() {
    let document = "# Changelog\n\nAll notable changes.\n\n\
## Version 2.0 2024\n\n* a\n* b\n\n## Version 1.0 2023\n* c\n";
    assert_eq!(
        extract(document),
        Ok(Some(entry("## Version 2.0 2024\n\n* a\n* b\n\n", "2.0")))
    );
}

#[test]
fn entry_is_not_empty_and_starts_with_its_heading_line() {
    let document = "intro\n## Version 0.9.1 (beta)\nbody line 1\nbody line 2\n\
## Version 0.9.0 \nold\n";
    let found = extract(document).unwrap().unwrap();
    assert!(!found.text.is_empty());
    assert_eq!(found.text.lines().next(), Some("## Version 0.9.1 (beta)"));
    assert_eq!(found.text.lines().next(), document.lines().nth(1));
    assert!(found.text.starts_with("## Version 0.9.1 "));
}

#[test]
fn version_stands_in_the_heading_of_the_entry() {
    let document = "intro\n##  Version\t0.9.1 (beta)\nbody 0.9.1\n## Version 0.9.0 \nold\n";
    let found = extract(document).unwrap().unwrap();
    assert_eq!(found.version, "0.9.1");
    assert_eq!(found.text.find("0.9.1"), Some(12));
    assert_eq!(&found.text[12..17], found.version);
    assert_eq!(&document[18..23], found.version);
}

#[test]
fn single_entry_is_the_whole_document() {
    for document in [
        "## Version 1.0.0 (2023-01-01)\n- First release.\n",
        "## Version 1.0.0 (2023-01-01)\n- First release.",
        "## Version 1.0.0 (2023-01-01)\n\n\n- First release.\n\n\n",
        "## Version 1.0.0\n",
        "## Version 1.0.0 ",
    ] {
        assert_eq!(extract(document), Ok(Some(entry(document, "1.0.0"))));
    }
}

#[test]
fn single_entry_runs_to_the_end_of_the_document() {
    let document = "Preface\n## Version 7 \nbody\n\ttail without line feed";
    assert_eq!(
        extract(document),
        Ok(Some(entry("## Version 7 \nbody\n\ttail without line feed", "7")))
    );
}

#[test]
fn version_read_again_from_the_entry_is_the_same() {
    let document = "# Log\n## Version 3.1.4-2~1 (pi)\n- digits\n\n## Version 2.7 (e)\n- more\n";
    let first = extract(document).unwrap().unwrap();
    assert_eq!(first.version, "3.1.4-2~1");
    let again = extract(&first.text).unwrap().unwrap();
    assert_eq!(again.version, first.version);
    assert_eq!(again, first);
}

#[test]
fn no_heading_no_entry() {
    for document in [
        "",
        "\n",
        "# Changelog\n\nNothing yet.\n",
        "Version 1.0 \n",
        "# Version 1.0 \n",
        "### Version 1.0 \n",
        "##Version 1.0 \n",
        "## version 1.0 \n",
        "## VERSION 1.0 \n",
        "## Version1.0 \n",
        "## Version \n",
        "## Version 1.0",
        "## Version 1.0rc1 \n",
        "## Version one \n",
        "## Versions 1.0 \n",
        " ## Version 1.0 \n",
        "text ## Version 1.0 \n",
        "> ## Version 1.0 \n",
    ] {
        assert_eq!(extract(document), Ok(None), "in {document:?}");
    }
}

#[test]
fn heading_must_start_a_line() {
    let document = "see ## Version 9.9 above\n## Version 1.0 \nbody\n";
    assert_eq!(extract(document), Ok(Some(entry("## Version 1.0 \nbody\n", "1.0"))));
}

#[test]
fn line_without_a_version_token_bounds_the_entry() {
    for bound in [
        "## Version next \nplanned\n",
        "## Version 1.2.0-rc1 (2023-04-01)\n- candidate\n",
        "## Version\n",
        "## Versions before 1.0\n",
        "##  Version",
    ] {
        let document = format!("## Version 2.0 \nnew\n{bound}## Version 1.0 \nold\n");
        assert_eq!(
            extract(&document),
            Ok(Some(entry("## Version 2.0 \nnew\n", "2.0"))),
            "bounded by {bound:?}"
        );
    }
}

#[test]
fn line_without_a_version_token_starts_no_entry() {
    let document = "## Version next \nplanned\n## Version 2.0 \nnew\n## Version 1.0 \nold\n";
    assert_eq!(extract(document), Ok(Some(entry("## Version 2.0 \nnew\n", "2.0"))));
    let document = "## Version next \nplanned\n## Version soon\n";
    assert_eq!(extract(document), Ok(None));
}

#[test]
fn other_headings_bound_nothing() {
    let document = "## Version 2.0 \nnew\n## Fixed\n- x\n### Version 1.9 \n# Version 1.8 \n";
    assert_eq!(extract(document), Ok(Some(entry(document, "2.0"))));
}

#[test]
fn whitespace_of_any_kind_and_number() {
    assert_eq!(
        extract("##\tVersion \t 1.0\tdate\nbody\n"),
        Ok(Some(entry("##\tVersion \t 1.0\tdate\nbody\n", "1.0")))
    );
    assert_eq!(
        extract("##\u{a0}Version\u{2003}1.0\u{3000}date\n"),
        Ok(Some(entry("##\u{a0}Version\u{2003}1.0\u{3000}date\n", "1.0")))
    );
    assert_eq!(
        extract("##\nVersion\n1.0\nbody\n"),
        Ok(Some(entry("##\nVersion\n1.0\nbody\n", "1.0")))
    );
}

#[test]
fn carriage_return_ends_the_token() {
    let document = "## Version 1.0\r\nbody\r\n## Version 0.9\r\nold\r\n";
    assert_eq!(extract(document), Ok(Some(entry("## Version 1.0\r\nbody\r\n", "1.0"))));
}

#[test]
fn version_of_numbers_punctuation_and_tilde() {
    for version in [
        "1",
        "1.2.3",
        "2023-04-20",
        "1.0~2",
        "~",
        "...",
        "(1.0)",
        "[1.0]",
        "1_0",
        "#1",
        "1,5",
        "1/2",
        "\u{0663}.\u{0661}",
        "\u{2167}",
        "\u{00bd}",
        "1\u{2013}2",
        "\u{00ab}1\u{00bb}",
        "\u{ff11}\u{ff0e}\u{ff10}",
    ] {
        let document = format!("## Version {version} (date)\n- body\n");
        assert_eq!(
            extract(&document),
            Ok(Some(entry(&document, version))),
            "with version {version:?}"
        );
    }
}

#[test]
fn version_with_a_letter_or_a_symbol_is_no_version() {
    for version in ["1.0a", "v1.0", "1.0+1", "1.0=1", "1.0$", "1<2", "1.0^", "\u{03b1}", "1|2"] {
        let document = format!("## Version {version} (date)\n- body\n");
        assert_eq!(extract(&document), Ok(None), "with version {version:?}");
    }
}

#[test]
fn multibyte_text_is_cut_at_whole_characters() {
    let document = "Änderungen – Übersicht\n## Version 1.0 („Erste“)\n– Größe geändert ✓\n\
## Version 0.9 (früher)\n– älter\n";
    assert_eq!(
        extract(document),
        Ok(Some(entry("## Version 1.0 („Erste“)\n– Größe geändert ✓\n", "1.0")))
    );
}

#[test]
fn adjacent_headings() {
    let document = "## Version 2 \n## Version 1 \n";
    assert_eq!(extract(document), Ok(Some(entry("## Version 2 \n", "2"))));
}

#[test]
fn token_that_looks_like_a_heading_marker() {
    // `#` is punctuation: the second line is the version token of the first.
    let document = "## Version\n## Version 1.0 \nbody\n";
    assert_eq!(extract(document), Ok(Some(entry(document, "##"))));
}

#[test]
fn latest_entry_without_headings() {
    assert_eq!(latest_entry("## Version 1.0 \n", &vec![]), Ok(None));
    assert_eq!(latest_entry("", &vec![]), Ok(None));
    let tokenless = |start, end| Capture { whole: Span { start, end }, group: None };
    let document = "## Version a\n## Version b\n";
    assert_eq!(latest_entry(document, &vec![tokenless(0, 10)]), Ok(None));
    assert_eq!(latest_entry(document, &vec![tokenless(0, 10), tokenless(13, 23)]), Ok(None));
    // What has no token is no heading, whatever its offsets are.
    assert_eq!(latest_entry(document, &vec![tokenless(400, 3)]), Ok(None));
}

#[test]
fn latest_entry_passes_over_what_has_no_token() {
    let document = "## Version x\n## Version 1.2 y\nb\n## Version z\n## Version 1.1 y\nc\n";
    let tokenless = |start, end| Capture { whole: Span { start, end }, group: None };
    let first = heading(13, 28, (24, 27));
    let second = heading(45, 60, (56, 59));
    let found = vec![tokenless(0, 10), first, tokenless(32, 42), second];
    assert_eq!(
        latest_entry(document, &found),
        Ok(Some(entry("## Version 1.2 y\nb\n", "1.2")))
    );
    let found = vec![tokenless(0, 10), first, second];
    assert_eq!(
        latest_entry(document, &found),
        Ok(Some(entry("## Version 1.2 y\nb\n## Version z\n", "1.2")))
    );
    let found = vec![tokenless(0, 10), first];
    assert_eq!(latest_entry(document, &found), Ok(Some(entry(&document[13..], "1.2"))));
    // The line that bounds the entry has to start a line, token or not.
    let found = vec![first, tokenless(31, 42)];
    assert_eq!(latest_entry(document, &found), Err(ChangelogError::Parse));
}

#[test]
fn latest_entry_from_given_headings() {
    let document = "a\n## Version 1.2 x\nb\n## Version 1.1 y\nc\n";
    let first = heading(2, 17, (13, 16));
    let second = heading(21, 36, (32, 35));
    assert_eq!(
        latest_entry(document, &vec![first, second]),
        Ok(Some(entry("## Version 1.2 x\nb\n", "1.2")))
    );
    assert_eq!(
        latest_entry(document, &vec![first]),
        Ok(Some(entry("## Version 1.2 x\nb\n## Version 1.1 y\nc\n", "1.2")))
    );
    assert_eq!(
        latest_entry(document, &vec![second, first]),
        Err(ChangelogError::Parse)
    );
    // Only the start of the second heading counts, and it has to start a line.
    let inside_a_line = heading(39, 40, (39, 40));
    assert_eq!(
        latest_entry(document, &vec![second, inside_a_line]),
        Err(ChangelogError::Parse)
    );
    let at_the_end = heading(40, 41, (40, 41));
    assert_eq!(
        latest_entry(document, &vec![second, at_the_end]),
        Ok(Some(entry("## Version 1.1 y\nc\n", "1.1")))
    );
}

#[test]
fn get_match_cuts_entry_and_version() {
    let document = "a\n## Version 1.2 x\nb\n## Version 1.1 y\nc\n";
    let first = heading(2, 17, (13, 16));
    assert_eq!(get_match(document, &first, 21), Ok(entry("## Version 1.2 x\nb\n", "1.2")));
    assert_eq!(
        get_match(document, &first, document.len()),
        Ok(entry("## Version 1.2 x\nb\n## Version 1.1 y\nc\n", "1.2"))
    );
    assert_eq!(get_match(document, &first, 19), Ok(entry("## Version 1.2 x\n", "1.2")));
}

#[test]
fn get_match_refuses_what_is_no_entry() {
    let document = "a\n## Version 1.2 x\nb\n## Version 1.1 y\nc\n";
    let end = 21;
    let refused = [
        // no version group
        Capture { whole: Span { start: 2, end: 17 }, group: None },
        // empty version
        heading(2, 17, (13, 13)),
        // version before the heading
        heading(2, 17, (1, 16)),
        // version beyond the heading
        heading(2, 15, (13, 16)),
        // version turned round
        heading(2, 17, (16, 13)),
        // heading turned round
        heading(17, 2, (13, 16)),
        // heading inside a line
        heading(3, 17, (13, 16)),
        // heading beyond the entry
        heading(2, 22, (13, 16)),
        // heading beyond the document
        heading(2, 400, (13, 16)),
    ];
    for capture in refused {
        assert_eq!(get_match(document, &capture, end), Err(ChangelogError::Parse), "{capture:?}");
    }
    let first = heading(2, 17, (13, 16));
    // an entry that ends inside a line, before its heading, or beyond the document
    for end in [20, 22, 16, 0, document.len() + 1, usize::MAX] {
        assert_eq!(get_match(document, &first, end), Err(ChangelogError::Parse), "end {end}");
    }
}

#[test]
fn get_match_refuses_offsets_inside_a_character() {
    let document = "## Version 1·2 ä\nö\n";
    assert_eq!(document.len(), 22);
    let whole = heading(0, 16, (11, 15));
    assert_eq!(get_match(document, &whole, 22), Ok(entry(document, "1·2")));
    for capture in [heading(0, 16, (11, 13)), heading(0, 16, (13, 15)), heading(0, 17, (11, 15))] {
        assert_eq!(get_match(document, &capture, 22), Err(ChangelogError::Parse), "{capture:?}");
    }
    assert_eq!(get_match(document, &whole, 20), Err(ChangelogError::Parse));
}
