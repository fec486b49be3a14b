use bashers::cli::{expand_alias, same_text, toplevel_alias_parent};
use bashers::colors::fmt_version;
use bashers::deps::{
    literal_verdict, parse_dependency_line, regex_match_case_insensitive, remove_all,
};
use bashers::pattern::Matcher;
use bashers::packages::{get_installed_version, list, parse_cargo_line, strip_branch};
use bashers::project::{detect, has_poetry_section, has_project_section, ProjectFiles, ProjectType};
use bashers::text::{
    contains, contains_char, contains_digit, find_char_from, is_ascii_digit, is_whitespace,
    matches_at, next_line, skip_spaces_from, skip_word_from, starts_with, string_of,
    strip_prefix, subvec, to_chars, to_string, trim, trim_end_to,
};

fn chars(s: &str) -> Vec<char> {
    s.chars().collect()
}

#[test]
fn characters_are_copied_both_ways() {
    assert_eq!(to_chars("a\u{e9}\u{1f600}z"), chars("a\u{e9}\u{1f600}z"));
    assert_eq!(to_chars(""), Vec::<char>::new());
    assert_eq!(to_string(&chars("h\u{e9}llo")), "h\u{e9}llo");
    assert_eq!(string_of(&chars("hello"), 1, 4), "ell");
    assert_eq!(string_of(&chars("hello"), 2, 2), "");
    assert_eq!(subvec(&chars("hello"), 0, 5), chars("hello"));
}

#[test]
fn white_space_is_what_unicode_says() {
    for c in [' ', '\t', '\n', '\r', '\u{b}', '\u{c}', '\u{85}', '\u{a0}', '\u{1680}', '\u{2000}', '\u{200a}', '\u{2028}', '\u{2029}', '\u{202f}', '\u{205f}', '\u{3000}'] {
        assert!(is_whitespace(c), "{c:?}");
        assert!(c.is_whitespace());
    }
    for c in ['a', '0', '\u{8}', '\u{e}', '\u{200b}', '\u{feff}', '\u{180e}', '_'] {
        assert!(!is_whitespace(c), "{c:?}");
        assert!(!c.is_whitespace());
    }
    for c in '0'..='9' {
        assert!(is_ascii_digit(c));
    }
    assert!(!is_ascii_digit('/'));
    assert!(!is_ascii_digit(':'));
    assert!(!is_ascii_digit('\u{0661}'));
}

#[test]
fn trimming_drops_white_space_at_both_ends() {
    for text in ["", "  ", " a ", "a", "\t a b \r\n", "\u{a0}x\u{3000}", "  a"] {
        assert_eq!(to_string(&trim(&chars(text))), text.trim());
    }
    let v = chars("  ab  ");
    assert_eq!(skip_spaces_from(&v, 0), 2);
    assert_eq!(skip_spaces_from(&v, 4), 6);
    assert_eq!(skip_word_from(&v, 2), 4);
    assert_eq!(skip_word_from(&v, 6), 6);
    assert_eq!(trim_end_to(&v, 2, 6), 4);
    assert_eq!(trim_end_to(&v, 5, 6), 5);
}

#[test]
fn substrings_are_found_where_they_stand() {
    let v = chars("hello world");
    assert!(contains(&v, &chars("o w")));
    assert!(contains(&v, &chars("")));
    assert!(contains(&v, &chars("hello world")));
    assert!(contains(&v, &chars("d")));
    assert!(!contains(&v, &chars("hello world!")));
    assert!(!contains(&v, &chars("wide")));
    assert!(contains(&chars(""), &chars("")));
    assert!(!contains(&chars(""), &chars("a")));
    assert!(matches_at(&v, &chars("world"), 6));
    assert!(!matches_at(&v, &chars("world"), 7));
    assert!(matches_at(&v, &chars(""), 11));
    assert!(!matches_at(&v, &chars(""), 12));
    assert!(starts_with(&v, &chars("hell")));
    assert!(!starts_with(&v, &chars("ello")));
    assert_eq!(strip_prefix(&v, &chars("hello ")), Some(chars("world")));
    assert_eq!(strip_prefix(&v, &chars("world")), None);
    assert_eq!(find_char_from(&v, 'o', 0), 4);
    assert_eq!(find_char_from(&v, 'o', 5), 7);
    assert_eq!(find_char_from(&v, 'z', 0), 11);
    assert!(contains_char(&v, 'w'));
    assert!(!contains_char(&v, 'W'));
    assert!(contains_digit(&chars("v1")));
    assert!(!contains_digit(&chars("version")));
}

#[test]
fn lines_end_at_a_line_feed() {
    let v = chars("one\r\ntwo\n\nlast\r");
    let mut lines = Vec::new();
    let mut i = 0;
    while i < v.len() {
        let (line, next) = next_line(&v, i);
        lines.push(to_string(&line));
        i = next;
    }
    let expected: Vec<String> = "one\r\ntwo\n\nlast\r".lines().map(String::from).collect();
    assert_eq!(lines, expected);
    assert_eq!(lines, vec!["one", "two", "", "last\r"]);
}

#[test]
fn a_command_without_its_group_gets_the_group() {
    let args = |words: &[&str]| -> Vec<String> { words.iter().map(|w| w.to_string()).collect() };
    assert_eq!(expand_alias(args(&["bashers", "track", "api"])), args(&["bashers", "kube", "track", "api"]));
    assert_eq!(expand_alias(args(&["bashers", "kmg", "x"])), args(&["bashers", "kube", "kmg", "x"]));
    assert_eq!(expand_alias(args(&["bashers", "sync"])), args(&["bashers", "git", "sync"]));
    assert_eq!(expand_alias(args(&["bashers", "build", "-t", "x"])), args(&["bashers", "docker", "build", "-t", "x"]));
    assert_eq!(expand_alias(args(&["bashers", "kube", "track"])), args(&["bashers", "kube", "track"]));
    assert_eq!(expand_alias(args(&["bashers", "show", "track"])), args(&["bashers", "show", "track"]));
    assert_eq!(expand_alias(args(&["bashers"])), args(&["bashers"]));
    assert_eq!(expand_alias(args(&[])), args(&[]));
    assert_eq!(toplevel_alias_parent("track"), Some("kube"));
    assert_eq!(toplevel_alias_parent("Track"), None);
    assert!(same_text("a", "a"));
    assert!(!same_text("a", "ab"));
}

#[test]
fn versions_are_shown_with_a_leading_v() {
    assert_eq!(fmt_version("1.2.3"), "v1.2.3");
    assert_eq!(fmt_version("v1.2.3"), "v1.2.3");
    assert_eq!(fmt_version(""), "v");
}

#[test]
fn tree_branches_are_removed_from_a_dependency_line() {
    assert_eq!(to_string(&remove_all(&chars("a--b--c"), &chars("--"))), "abc");
    assert_eq!(to_string(&remove_all(&chars("aaa"), &chars("aa"))), "a");
    assert_eq!(to_string(&remove_all(&chars("abc"), &chars(""))), "abc");
    assert_eq!(to_string(&remove_all(&chars("abab"), &chars("abab"))), "");
    for line in ["\u{251c}\u{2500}\u{2500} clap v4", "\u{2502}   \u{2514}\u{2500}\u{2500} x 1", "\u{2502}", "plain v1 (path)"] {
        let cleaned = line
            .replace("\u{251c}\u{2500}\u{2500} ", "")
            .replace("\u{2514}\u{2500}\u{2500} ", "")
            .replace("\u{2502}   ", "")
            .replace("\u{2502}", "");
        let mut words = cleaned.split_whitespace();
        let expected = words.next().map(|name| (name.to_string(), words.next().map(String::from)));
        let found = parse_dependency_line(line).map(|d| (d.name, d.version));
        assert_eq!(found, expected);
    }
}

#[test]
fn the_search_decides_and_lower_case_is_the_fallback() {
    assert!(literal_verdict(Some(true), "x", "y"));
    assert!(!literal_verdict(Some(false), "abc", "b"));
    assert!(literal_verdict(None, "abc", "b"));
    assert!(!literal_verdict(None, "abc", "B"));
    assert!(regex_match_case_insensitive("Test.Pkg", "test.pkg"));
    assert!(!regex_match_case_insensitive("testXpkg", "test.pkg"));
}

#[test]
fn a_pattern_too_large_to_compile_is_looked_for_in_lower_case() {
    let pattern = "a".repeat(400_000);
    let text = format!("xx{}", "A".repeat(400_000));
    assert_eq!(Matcher::from_outcome(&pattern, false).try_match("a"), None);
    assert!(regex_match_case_insensitive(&text, &pattern));
    assert!(!regex_match_case_insensitive("AAAA", &pattern));
}

#[test]
fn package_listings_are_read_per_tool() {
    let uv = "Package    Version\n---------- -------\nclick      8.1.7\nrequests   2.31.0\n\nrich 13\n";
    assert_eq!(list(ProjectType::Uv, uv), vec!["click", "requests", "rich"]);
    assert_eq!(list(ProjectType::Uv, "only\ntwo"), Vec::<String>::new());
    let poetry = "name         : click\nversion : 8.1.7\nnames: a : b\nname\n name: no";
    assert_eq!(list(ProjectType::Poetry, poetry), vec!["click", "a"]);
    let cargo = "bashers v0.4.9 (/x)\n\u{251c}\u{2500}\u{2500} anyhow v1.0.100\n\u{2514}\u{2500}\u{2500} regex v1.12.2\nnospace\n";
    assert_eq!(list(ProjectType::Cargo, cargo), vec!["anyhow", "regex"]);
    assert_eq!(parse_cargo_line(&chars("  \u{251c}\u{2500}\u{2500} \u{251c}\u{2500}\u{2500} clap v4")), Some("clap".to_string()));
    assert_eq!(parse_cargo_line(&chars("bashers v1")), None);
    assert_eq!(parse_cargo_line(&chars("bashers-core v1")), Some("bashers-core".to_string()));
    assert_eq!(to_string(&strip_branch(&chars("\u{2514}\u{2500}\u{2500} \u{2514}\u{2500}\u{2500} x"))), "x");
    assert_eq!(to_string(&strip_branch(&chars("\u{2514}\u{2500}\u{2500} \u{251c}\u{2500}\u{2500} x"))), "\u{251c}\u{2500}\u{2500} x");
}

#[test]
fn the_installed_version_is_read_per_tool() {
    let uv = "Name: click\nVersion: 8.1.7 \nLocation: /x\nVersion: 9";
    assert_eq!(get_installed_version(ProjectType::Uv, "click", uv), Some("8.1.7".to_string()));
    assert_eq!(get_installed_version(ProjectType::Uv, "click", "Name: click\n version: 1"), None);
    let poetry = "name : click\nversion\nversion      : 8.1.7 \n";
    assert_eq!(get_installed_version(ProjectType::Poetry, "click", poetry), Some("8.1.7".to_string()));
    assert_eq!(get_installed_version(ProjectType::Poetry, "click", "version :: \n"), None);
    assert_eq!(
        get_installed_version(ProjectType::Cargo, "clap", "\u{251c}\u{2500}\u{2500} clap v4.5.54\n"),
        Some("4.5.54".to_string())
    );
    assert_eq!(get_installed_version(ProjectType::Cargo, "clap", "clap 4.5 (x)"), Some("4.5 (x)".to_string()));
    assert_eq!(get_installed_version(ProjectType::Cargo, "clap", "clap-derive v4"), None);
    assert_eq!(get_installed_version(ProjectType::Cargo, "clap", "other v1\nclap"), None);
    assert_eq!(get_installed_version(ProjectType::Cargo, "clap", ""), None);
}

#[test]
fn the_project_kind_follows_the_files() {
    let none = ProjectFiles {
        cargo_toml: false,
        uv_lock: false,
        project_section: false,
        poetry_lock: false,
        poetry_section: false,
    };
    assert_eq!(detect(none), None);
    assert_eq!(detect(ProjectFiles { poetry_section: true, ..none }), Some(ProjectType::Poetry));
    assert_eq!(detect(ProjectFiles { poetry_lock: true, ..none }), Some(ProjectType::Poetry));
    assert_eq!(detect(ProjectFiles { poetry_lock: true, project_section: true, ..none }), Some(ProjectType::Uv));
    assert_eq!(detect(ProjectFiles { uv_lock: true, ..none }), Some(ProjectType::Uv));
    assert_eq!(detect(ProjectFiles { uv_lock: true, cargo_toml: true, ..none }), Some(ProjectType::Cargo));
    assert!(has_project_section("[project]\nname = \"x\""));
    assert!(!has_project_section("[tool.poetry]\nname = \"x\""));
    assert!(has_poetry_section("a\n[tool.poetry]\n"));
    assert!(!has_poetry_section("[project]"));
    assert_eq!(ProjectType::Uv.tool(), "uv");
    assert_eq!(ProjectType::Poetry.tool(), "poetry");
    assert_eq!(ProjectType::Cargo.tool(), "cargo");
}
