use bashers::colors::{
    format_bumped_message_colored, print_bumped_version, print_update, print_updated_version,
    VersionChange, ANSI_CYAN_BOLD, ANSI_DIM, ANSI_GREEN, ANSI_RED, ANSI_RESET, ANSI_YELLOW,
};

#[test]
fn test_print_update() {
    let line = print_update("test-package");
    assert_eq!(line.len(), 3);
    assert_eq!(line[2].text, "test-package");
}

#[test]
fn test_format_bumped_message_colored_contains_versions() {
    for change in [
        VersionChange::Upgraded,
        VersionChange::Unchanged,
        VersionChange::Downgraded,
    ] {
        for use_color in [false, true] {
            let s = format_bumped_message_colored("v1.0.0", "v1.0.102", change, use_color);
        assert!(s.contains("bumped from"));
        assert!(s.contains("1.0.0"));
        assert!(s.contains("1.0.102"));
        assert!(s.contains(" -> "));
        }
    }
}

#[test]
fn test_version_change_equality() {
    assert_eq!(VersionChange::Upgraded, VersionChange::Upgraded);
    assert_ne!(VersionChange::Upgraded, VersionChange::Downgraded);
}

#[test]
fn test_print_updated_version_no_panic() {
    let line = print_updated_version("clap", "4.5.0");
    assert_eq!(line[3].text, " is now v4.5.0");
}

#[test]
fn test_print_updated_version_with_v_prefix() {
    let line = print_updated_version("clap", "v4.5.0");
    assert_eq!(line[3].text, " is now v4.5.0");
}

#[test]
fn test_print_bumped_version_no_panic() {
    let line = print_bumped_version("clap", "4.4.0", "4.5.0");
    assert_eq!(line[4].text, "4.4.0");
    assert_eq!(line[6].text, "4.5.0");
}

#[test]
fn test_version_change_all_variants() {
    let variants = [
        VersionChange::Upgraded,
        VersionChange::Unchanged,
        VersionChange::Downgraded,
    ];
    for v in &variants {
        let cloned = *v;
        assert_eq!(*v, cloned);
    }
}

#[test]
fn test_ansi_constants_are_valid_escapes() {
    assert!(ANSI_CYAN_BOLD.starts_with("\x1b["));
    assert!(ANSI_GREEN.starts_with("\x1b["));
    assert!(ANSI_RED.starts_with("\x1b["));
    assert!(ANSI_YELLOW.starts_with("\x1b["));
    assert!(ANSI_DIM.starts_with("\x1b["));
    assert_eq!(ANSI_RESET, "\x1b[0m");
}
