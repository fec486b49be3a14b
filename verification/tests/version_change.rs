use bashers::colors::VersionChange;
use bashers::version::{compare_parts, parse_number, version_change, version_parts};

fn chars(s: &str) -> Vec<char> {
    s.chars().collect()
}

#[test]
fn versions_are_compared_number_by_number() {
    assert_eq!(version_change("1.0.0", "1.0.102"), VersionChange::Upgraded);
    assert_eq!(version_change("v1.2.3", "1.2.3"), VersionChange::Unchanged);
    assert_eq!(version_change("2.0.0", "1.9.9"), VersionChange::Downgraded);
    assert_eq!(version_change("1.9", "1.10"), VersionChange::Upgraded);
    assert_eq!(version_change("1.2", "1.2.0"), VersionChange::Upgraded);
    assert_eq!(version_change("1.2.0", "1.2"), VersionChange::Downgraded);
    assert_eq!(version_change("1.0.0-alpha", "1.0.0-beta"), VersionChange::Unchanged);
    assert_eq!(version_change("", ""), VersionChange::Unchanged);
    assert_eq!(version_change("x", "0"), VersionChange::Upgraded);
}

#[test]
fn the_numbers_of_a_version_are_its_pieces_between_dots() {
    assert_eq!(version_parts("v1.22.333"), vec![1, 22, 333]);
    assert_eq!(version_parts("vv4.5.54"), vec![4, 5, 54]);
    assert_eq!(version_parts("1.0.0-rc.1"), vec![1, 0, 0, 1]);
    assert_eq!(version_parts("1.x.3"), vec![1, 3]);
    assert_eq!(version_parts("1..2."), vec![1, 2]);
    assert_eq!(version_parts("+7.-8.9-"), vec![7, 9]);
    assert_eq!(version_parts(""), Vec::<u64>::new());
    assert_eq!(version_parts("1.v2"), vec![1]);
    assert_eq!(version_parts("007"), vec![7]);
}

#[test]
fn a_number_fits_64_bits_or_is_none() {
    assert_eq!(parse_number(&chars("0")), Some(0));
    assert_eq!(parse_number(&chars("+12")), Some(12));
    assert_eq!(parse_number(&chars("18446744073709551615")), Some(u64::MAX));
    assert_eq!(parse_number(&chars("18446744073709551616")), None);
    assert_eq!(parse_number(&chars("99999999999999999999999")), None);
    assert_eq!(parse_number(&chars("000000000000000000000001")), Some(1));
    for text in ["", "+", "-1", "1a", "++1", " 1", "1 ", "\u{0661}"] {
        assert_eq!(parse_number(&chars(text)), None, "{text:?}");
        assert!(text.parse::<u64>().is_err());
    }
}

#[test]
fn the_first_difference_decides() {
    assert_eq!(compare_parts(&vec![1, 2, 3], &vec![1, 3, 0]), VersionChange::Upgraded);
    assert_eq!(compare_parts(&vec![1, 2, 3], &vec![1, 2, 3]), VersionChange::Unchanged);
    assert_eq!(compare_parts(&vec![2], &vec![1, 9, 9]), VersionChange::Downgraded);
    assert_eq!(compare_parts(&vec![], &vec![0]), VersionChange::Upgraded);
    assert_eq!(compare_parts(&vec![0], &vec![]), VersionChange::Downgraded);
}
