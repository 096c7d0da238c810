//! Version parsing, formatting and ranking.

use app_lemonator::data::FileVersion;
use app_lemonator::version::{parse_file_version_to_i32, version_le_exec};

#[test]
fn parse_version_four_components() {
    assert_eq!(parse_file_version_to_i32("1.2.3.4"), Some((1, 2, 3, 4)));
}

#[test]
fn parse_version_zero_pads_on_the_right() {
    assert_eq!(parse_file_version_to_i32("2.1"), Some((2, 1, 0, 0)));
    assert_eq!(parse_file_version_to_i32("7"), Some((7, 0, 0, 0)));
    assert_eq!(parse_file_version_to_i32("1.2.3"), Some((1, 2, 3, 0)));
}

#[test]
fn parse_version_round_trips_to_padded_form() {
    let fv = FileVersion::new(String::new(), String::new(), "2.1".to_string());
    assert_eq!(fv.display_version(), "2.1.0.0");
    assert_eq!(parse_file_version_to_i32(&fv.display_version()), Some((2, 1, 0, 0)));
}

#[test]
fn parse_version_non_numeric_component_fails_whole_parse() {
    assert_eq!(parse_file_version_to_i32("2.x.1"), None);
    assert_eq!(parse_file_version_to_i32("abc"), None);
    assert_eq!(parse_file_version_to_i32("1..2"), None);
    assert_eq!(parse_file_version_to_i32(""), None);
    assert_eq!(parse_file_version_to_i32("1.2.3.4.5"), None);
    assert_eq!(parse_file_version_to_i32("+5"), None);
}

#[test]
fn parse_version_overflow_fails() {
    assert_eq!(parse_file_version_to_i32("4294967295"), Some((4294967295, 0, 0, 0)));
    assert_eq!(parse_file_version_to_i32("4294967296"), None);
}

#[test]
fn parse_version_leading_zeros_are_numeric() {
    assert_eq!(parse_file_version_to_i32("01.2"), Some((1, 2, 0, 0)));
}

#[test]
fn unparsable_version_yields_sentinel_record() {
    let fv = FileVersion::new("d".to_string(), "p".to_string(), "2.x.1".to_string());
    assert_eq!((fv.major, fv.minor, fv.build, fv.revision), (0, 0, 0, 0));
    assert_eq!(fv.display_version(), "0.0.0.0");
    assert_eq!(fv.app_description, "d");
    assert_eq!(fv.path, "p");
}

#[test]
fn version_ranking_is_lexicographic() {
    assert!(version_le_exec((1, 1, 9, 9), (1, 2, 0, 0)));
    assert!(!version_le_exec((1, 2, 0, 0), (1, 1, 9, 9)));
    assert!(version_le_exec((1, 2, 0, 0), (1, 2, 0, 0)));
    assert!(version_le_exec((0, 0, 0, 0), (0, 0, 0, 1)));
}

#[test]
fn display_version_renders_components() {
    let fv = FileVersion {
        app_description: String::new(),
        path: String::new(),
        major: 10,
        minor: 0,
        build: 22631,
        revision: 3,
    };
    assert_eq!(fv.display_version(), "10.0.22631.3");
}
