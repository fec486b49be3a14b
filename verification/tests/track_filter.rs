use bashers::filter::should_show_line;
use bashers::pattern::pod_pattern_regex;
use bashers::pod::PodInfo;

#[test]
fn test_pod_info_key() {
    let cases = vec![
        ("default", "my-pod", "default/my-pod"),
        ("kube-system", "coredns-abc123", "kube-system/coredns-abc123"),
        ("ns", "a", "ns/a"),
    ];
    for (ns, name, expected) in cases {
        let pod = PodInfo {
            namespace: ns.to_string(),
            name: name.to_string(),
            pattern_idx: 0,
        };
        assert_eq!(pod.key(), expected);
    }
}

#[test]
fn mod_test_pod_pattern_regex_valid() {
    let re = pod_pattern_regex("api-.*");
    assert!(re.is_match("api-server"));
    assert!(re.is_match("api-worker-123"));
    assert!(!re.is_match("frontend"));
}

#[test]
fn mod_test_pod_pattern_regex_invalid_falls_back_case_insensitive() {
    let re = pod_pattern_regex("[invalid");
    assert!(re.is_match("[invalid"));
    assert!(re.is_match("[INVALID"));
    assert!(re.is_match("[Invalid"));
}

#[test]
fn test_pod_pattern_regex_case_sensitive_by_default() {
    let re = pod_pattern_regex("MyPod");
    assert!(re.is_match("MyPod"));
    assert!(!re.is_match("mypod"));
}

#[test]
fn test_should_show_line_error_keywords() {
    let cases = vec![
        ("2026-01-01 ERROR something broke", true),
        ("2026-01-01 WARNING disk full", true),
        ("2026-01-01 CRITICAL out of memory", true),
        ("2026-01-01 FATAL crash", true),
        ("2026-01-01 error lowercase", true),
        ("2026-01-01 warning lowercase", true),
        ("2026-01-01 Info normal log", false),
        ("2026-01-01 DEBUG verbose", false),
        ("just a normal line", false),
        ("", false),
    ];
    for (line, expected) in cases {
        let mut in_traceback = false;
        assert_eq!(
            should_show_line(line, &mut in_traceback),
            expected,
            "Failed for line: {line:?}"
        );
    }
}

#[test]
fn test_should_show_line_traceback_sequence() {
    let mut in_traceback = false;

    assert!(should_show_line(
        "Traceback (most recent call last):",
        &mut in_traceback
    ));
    assert!(in_traceback);

    assert!(should_show_line(
        "  File \"main.py\", line 10, in <module>",
        &mut in_traceback
    ));
    assert!(in_traceback);

    assert!(should_show_line(
        "    result = do_thing()",
        &mut in_traceback
    ));
    assert!(in_traceback);

    assert!(should_show_line("ValueError: bad value", &mut in_traceback));
    assert!(!in_traceback);

    assert!(!should_show_line("normal log after traceback", &mut in_traceback));
}

#[test]
fn test_should_show_line_traceback_with_tabs() {
    let mut in_traceback = false;

    assert!(should_show_line(
        "Traceback (most recent call last):",
        &mut in_traceback
    ));
    assert!(should_show_line(
        "\tFile \"main.py\", line 5",
        &mut in_traceback
    ));
    assert!(in_traceback);
}

#[test]
fn test_should_show_line_no_traceback_state_leak() {
    let mut in_traceback = false;

    assert!(!should_show_line("INFO all good", &mut in_traceback));
    assert!(!in_traceback);

    assert!(!should_show_line("DEBUG details", &mut in_traceback));
    assert!(!in_traceback);
}
