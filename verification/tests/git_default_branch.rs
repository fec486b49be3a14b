use bashers::git::{ls_remote_branch, parse_branch_output, remote_show_branch, symbolic_ref_branch};

#[test]
fn gh_test_get_default_branch_parsing() {
    let valid_output = "refs/remotes/origin/main";
    let branch = symbolic_ref_branch(valid_output).unwrap();
    assert_eq!(branch, "main");
}

#[test]
fn gh_test_get_default_branch_parsing_master() {
    let valid_output = "refs/remotes/origin/master";
    let branch = symbolic_ref_branch(valid_output).unwrap();
    assert_eq!(branch, "master");
}

#[test]
fn gh_test_get_default_branch_parsing_invalid() {
    let invalid_output = "invalid output";
    let result = symbolic_ref_branch(invalid_output);
    assert!(result.is_none());
}

#[test]
fn gh_test_get_default_branch_parsing_with_whitespace() {
    let output = "  refs/remotes/origin/main  ";
    let branch = symbolic_ref_branch(output).unwrap();
    assert_eq!(branch, "main");
}

#[test]
fn gh_test_get_default_branch_parsing_different_branch() {
    let valid_output = "refs/remotes/origin/develop";
    let branch = symbolic_ref_branch(valid_output).unwrap();
    assert_eq!(branch, "develop");
}

#[test]
fn gh_test_parse_branch_output_helper() {
    let result = parse_branch_output("refs/remotes/origin/main");
    assert!(result.is_ok());
    assert_eq!(result.unwrap(), "main");
}

#[test]
fn gh_test_parse_branch_output_helper_invalid() {
    let result = parse_branch_output("invalid");
    assert!(result.is_err());
}

#[test]
fn gh_test_parse_ls_remote_output() {
    let output = "ref: refs/heads/main\tHEAD\n1234567890abcdef\tHEAD\n";
    assert_eq!(ls_remote_branch(output), Some("main".to_string()));
}

#[test]
fn gh_test_parse_remote_show_output() {
    let output = "  HEAD branch: main\n  Remote branches:\n    main tracked";
    assert_eq!(remote_show_branch(output), Some("main".to_string()));
}

#[test]
fn gh_test_parse_ls_remote_different_format() {
    let output = "ref: refs/heads/master\tHEAD";
    assert_eq!(ls_remote_branch(output), Some("master".to_string()));
}

#[test]
fn gh_test_parse_ls_remote_with_tabs() {
    let output = "ref:\trefs/heads/main\tHEAD";
    assert_eq!(ls_remote_branch(output), Some("main".to_string()));
}

#[test]
fn gh_test_parse_remote_show_with_whitespace() {
    let output = "    HEAD branch:    main    ";
    assert_eq!(remote_show_branch(output), Some("main".to_string()));
}

#[test]
fn gh_test_branch_parsing_edge_cases() {
    let cases = vec![
        ("refs/remotes/origin/main", Some("main")),
        ("refs/remotes/origin/master", Some("master")),
        ("refs/remotes/origin/feature-branch", Some("feature-branch")),
        ("invalid", None),
        ("refs/remotes/origin/", None),
    ];

    for (input, expected) in cases {
        let result = symbolic_ref_branch(input);

        match expected {
            Some(branch) => {
                assert!(result.is_some());
                assert_eq!(result.unwrap(), branch);
            }
            None => {
                if input == "refs/remotes/origin/" {
                    assert_eq!(result, Some("".to_string()));
                } else {
                    assert!(result.is_none());
                }
            }
        }
    }
}
