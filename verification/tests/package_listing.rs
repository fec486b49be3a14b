use bashers::packages::{list, parse_cargo_tree_output};
use bashers::project::ProjectType;

#[test]
fn test_parse_cargo_tree_output() {
    let output = "bashers v0.4.9 (/home/sung9/bashers)
anyhow v1.0.100
clap v4.5.54
regex v1.12.2";

    let packages = parse_cargo_tree_output(output);

    assert_eq!(packages.len(), 3);
    assert!(packages.contains(&"anyhow".to_string()));
    assert!(packages.contains(&"clap".to_string()));
    assert!(packages.contains(&"regex".to_string()));
}

#[test]
fn test_parse_cargo_tree_output_no_dependencies() {
    let output = "bashers v0.4.9 (/home/sung9/bashers)";

    let packages = parse_cargo_tree_output(output);

    assert_eq!(packages.len(), 0);
}

#[test]
fn test_parse_cargo_tree_output_various_formats() {
    let output = "bashers v0.4.9
pkg1 v1.0.0
└── subpkg v0.1.0
pkg2 v2.0.0";

    let packages = parse_cargo_tree_output(output);

    assert!(packages.contains(&"pkg1".to_string()));
    assert!(packages.contains(&"pkg2".to_string()));
}

#[test]
fn test_parse_cargo_tree_output_with_root() {
    let output = "bashers v0.4.9
anyhow v1.0.100
clap v4.5.54";

    let packages = parse_cargo_tree_output(output);

    // Should not include "bashers"
    assert!(!packages.contains(&"bashers".to_string()));
    assert!(packages.contains(&"anyhow".to_string()));
    assert!(packages.contains(&"clap".to_string()));
}

#[test]
fn test_parse_cargo_tree_output_empty_lines() {
    let output = "bashers v0.4.9

pkg1 v1.0.0

pkg2 v2.0.0
";

    let packages = parse_cargo_tree_output(output);

    assert_eq!(packages.len(), 2);
    assert!(packages.contains(&"pkg1".to_string()));
    assert!(packages.contains(&"pkg2".to_string()));
}

#[test]
fn test_parse_cargo_tree_output_whitespace() {
    let output = "bashers v0.4.9
pkg1 v1.0.0
pkg2 v2.0.0";

    let packages = parse_cargo_tree_output(output);

    assert_eq!(packages.len(), 2);
    assert!(packages.contains(&"pkg1".to_string()));
    assert!(packages.contains(&"pkg2".to_string()));
}

#[test]
fn test_list_function_all_types() {
    let _ = list(ProjectType::Uv, "");
    let _ = list(ProjectType::Poetry, "");
    let _ = list(ProjectType::Cargo, "");
}
