//! Destination planning, guards and path-string logic.

use fuga::paths::{duplicate_guard, is_abs_path, join_path, parent_of, str_eq};
use fuga::planner::{multi_target_guard, plan_destination, OpKind};
use fuga::{get_name, FileInfo, FugaError};

fn file_info(name: &str) -> FileInfo {
    FileInfo { exists: true, is_file: true, is_dir: false, name: Some(name.to_string()) }
}

#[test]
fn plan_uses_source_base_name_without_destination() {
    let info = file_info("source.txt");
    assert_eq!(plan_destination("/ws/source.txt", &info, None, false), "source.txt");
}

#[test]
fn plan_appends_base_name_inside_existing_directory() {
    let info = file_info("source.txt");
    assert_eq!(plan_destination("/ws/source.txt", &info, Some("out"), true), "out/source.txt");
    assert_eq!(plan_destination("/ws/source.txt", &info, Some("out/"), true), "out/source.txt");
}

#[test]
fn plan_takes_non_directory_destination_verbatim() {
    let info = file_info("source.txt");
    assert_eq!(plan_destination("/ws/source.txt", &info, Some("renamed.txt"), false), "renamed.txt");
}

#[test]
fn plan_falls_back_to_source_path_without_a_name() {
    let info = FileInfo { exists: true, is_file: true, is_dir: false, name: None };
    assert_eq!(plan_destination("/ws/source.txt", &info, None, false), "/ws/source.txt");
    assert_eq!(plan_destination("/ws/source.txt", &info, Some("out"), true), "out");
}

#[test]
fn multi_target_guard_refuses_many_onto_one_file() {
    let err = multi_target_guard(OpKind::Copy, 2, true, false).expect_err("ambiguous");
    assert!(matches!(
        err,
        FugaError::OperationFailed(ref m)
            if m == "Cannot copy multiple items to a single file path."
    ));
    let err = multi_target_guard(OpKind::Move, 3, true, false).expect_err("ambiguous");
    assert!(err.message().contains("Cannot move multiple items to a single file path."));
    let err = multi_target_guard(OpKind::Link, 2, true, false).expect_err("ambiguous");
    assert!(err.message().contains("Cannot link multiple items to a single file path."));
}

#[test]
fn multi_target_guard_passes_every_unambiguous_case() {
    assert!(multi_target_guard(OpKind::Copy, 1, true, false).is_ok());
    assert!(multi_target_guard(OpKind::Copy, 2, false, false).is_ok());
    assert!(multi_target_guard(OpKind::Copy, 2, true, true).is_ok());
    assert!(multi_target_guard(OpKind::Move, 0, true, false).is_ok());
}

#[test]
fn duplicate_guard_names_both_paths() {
    let err = duplicate_guard("/ws/a.txt", "/ws/a.txt").expect_err("same path");
    assert_eq!(
        err.message(),
        "Source and destination are the same: /ws/a.txt -> /ws/a.txt"
    );
    assert!(duplicate_guard("/ws/a.txt", "/ws/b.txt").is_ok());
}

#[test]
fn base_names_follow_the_component_rules() {
    assert_eq!(get_name("/a/b.txt"), Some("b.txt".to_string()));
    assert_eq!(get_name("/a/b/"), Some("b".to_string()));
    assert_eq!(get_name("plain"), Some("plain".to_string()));
    assert_eq!(get_name("/"), None);
    assert_eq!(get_name(""), None);
    assert_eq!(get_name("/a/.."), None);
    assert_eq!(get_name("/a/."), None);
}

#[test]
fn parents_walk_toward_the_root() {
    assert_eq!(parent_of("/a/b"), Some("/a".to_string()));
    assert_eq!(parent_of("/a"), Some("/".to_string()));
    assert_eq!(parent_of("/"), None);
    assert_eq!(parent_of("/a/b/"), Some("/a".to_string()));
    assert_eq!(parent_of("plain"), Some("".to_string()));
}

#[test]
fn join_inserts_a_separator_only_when_needed() {
    assert_eq!(join_path("out", "a.txt"), "out/a.txt");
    assert_eq!(join_path("out/", "a.txt"), "out/a.txt");
    assert_eq!(join_path("", "a.txt"), "a.txt");
}

#[test]
fn absolute_paths_start_with_the_separator() {
    assert!(is_abs_path("/a"));
    assert!(!is_abs_path("a"));
    assert!(!is_abs_path(""));
}

#[test]
fn string_equality_compares_contents() {
    assert!(str_eq("abc", "abc"));
    assert!(!str_eq("abc", "abd"));
    assert!(!str_eq("abc", "ab"));
}
