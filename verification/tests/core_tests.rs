//! Fuzzy matching, deduplication, migration, sorting, errors, icons and
//! the version string.

use fuga::config::Data;
use fuga::listing::{sort_entries, DirEntryData};
use fuga::ui::{decimal_string, trim_spaces};
use fuga::{
    dedupe_preserving_order, fuzzy_match, get_file_type, get_icon, get_version, ConfigRepository,
    FileInfo, FugaError, MemoryConfigRepository, TargetType, TerminalUIService, UIService, VERSION,
};

#[test]
fn test_get_version() {
    let version = get_version();
    assert_eq!(version, VERSION);
}

#[test]
fn fuzzy_match_matches_subsequence_in_order() {
    assert!(fuzzy_match("notes.txt", "nt"));
    assert!(!fuzzy_match("notes.txt", "tn"));
}

#[test]
fn dedupe_preserving_order_removes_duplicate_entries() {
    let mut values = vec![
        "/tmp/a".to_string(),
        "/tmp/b".to_string(),
        "/tmp/a".to_string(),
        "/tmp/c".to_string(),
        "/tmp/b".to_string(),
    ];
    dedupe_preserving_order(&mut values);
    assert_eq!(values, vec!["/tmp/a", "/tmp/b", "/tmp/c"]);
}

#[test]
fn fuzzy_match_ignores_case_and_accepts_empty_patterns() {
    assert!(fuzzy_match("anything", ""));
    assert!(fuzzy_match("", ""));
    assert!(!fuzzy_match("", "a"));
    assert!(fuzzy_match("NoTeS.TXT", "nts"));
    assert!(fuzzy_match("notes.txt", "NTS"));
    assert!(!fuzzy_match("notes.txt", "xyz"));
}

#[test]
fn legacy_single_target_is_migrated_to_targets() {
    let mut repo = MemoryConfigRepository::new();
    repo.config.data.target = Some("/abs/x".to_string());
    let marks = repo.get_marked_targets().expect("reading marks succeeds");
    assert_eq!(marks, vec!["/abs/x".to_string()]);
    assert_eq!(repo.config.data.targets, vec!["/abs/x".to_string()]);
    assert!(repo.config.data.target.is_none(), "the legacy field is cleared");
}

#[test]
fn migration_drops_blank_leftovers_and_is_idempotent() {
    let mut data = Data {
        targets: vec!["  ".to_string(), "/abs/a".to_string(), "".to_string()],
        target: Some("/abs/legacy".to_string()),
    };
    let (marks, mutated) = data.migrate_marks();
    assert!(mutated);
    assert_eq!(marks, vec!["/abs/a".to_string()]);
    assert_eq!(data.targets, vec!["/abs/a".to_string()]);
    assert!(data.target.is_none());

    let (marks2, mutated2) = data.migrate_marks();
    assert!(!mutated2, "a migrated state is stable");
    assert_eq!(marks2, vec!["/abs/a".to_string()]);
}

#[test]
fn migration_ignores_blank_legacy_targets() {
    let mut data = Data { targets: Vec::new(), target: Some("   ".to_string()) };
    let (marks, mutated) = data.migrate_marks();
    assert!(marks.is_empty());
    assert!(!mutated, "a blank legacy mark alone is not worth a rewrite");
}

#[test]
fn sort_puts_directories_first_in_case_insensitive_order() {
    let mk = |name: &str, is_dir: bool| DirEntryData {
        name: name.to_string(),
        abs_path: format!("/ws/{}", name),
        is_dir,
        is_hidden: false,
    };
    let mut entries = vec![
        mk("zeta.txt", false),
        mk("Alpha", true),
        mk("beta.TXT", false),
        mk("gamma", true),
    ];
    sort_entries(&mut entries);
    let names: Vec<&str> = entries.iter().map(|e| e.name.as_str()).collect();
    assert_eq!(names, vec!["Alpha", "gamma", "beta.TXT", "zeta.txt"]);
}

#[test]
fn error_messages_name_the_offending_paths() {
    assert_eq!(
        FugaError::FileNotFound("/x".to_string()).message(),
        "File not found: /x"
    );
    assert_eq!(
        FugaError::PermissionError { path: "/x".to_string(), message: "denied".to_string() }
            .message(),
        "Permission denied for /x: denied"
    );
    assert_eq!(
        FugaError::OperationFailed("No targets marked.".to_string()).message(),
        "Operation failed: No targets marked."
    );
    assert_eq!(
        FugaError::DuplicatePath { source: "/a".to_string(), destination: "/b".to_string() }
            .message(),
        "Source and destination are the same: /a -> /b"
    );
    assert_eq!(
        FugaError::FileSystemError("boom".to_string()).message(),
        "File system error: boom"
    );
    assert_eq!(FugaError::ConfigError("bad".to_string()).message(), "Configuration error: bad");
    assert_eq!(FugaError::ConfigPathMissing.message(), "Configuration path is missing");
    assert_eq!(FugaError::IoError("eio".to_string()).message(), "IO error: eio");
}

#[test]
fn icons_map_target_kinds() {
    let plain = TerminalUIService::with_emoji(false);
    assert_eq!(plain.get_icon_for_target_type(TargetType::File), "[FILE]");
    assert_eq!(plain.get_icon_for_target_type(TargetType::Dir), "[DIR]");
    assert_eq!(plain.get_icon_for_target_type(TargetType::Missing), "[ERR]");
    assert_eq!(plain.get_icon_information(), "[i] ");

    let emoji = TerminalUIService::with_emoji(true);
    assert_eq!(emoji.get_icon_for_target_type(TargetType::File), "\u{1f4c4}");
    let info_icon = emoji.get_icon_information();
    assert_ne!(info_icon, "information_source ", "the lookup returns a glyph, not its code");
    assert!(info_icon.ends_with(' '));
    assert!(!info_icon.trim().is_empty());
}

#[test]
fn colorized_text_keeps_the_message() {
    let ui = TerminalUIService::with_emoji(false);
    let bold = ui.get_colorized_text("hello", true);
    assert!(bold.contains("hello"));
    let plain = ui.get_colorized_text("hello", false);
    assert!(plain.contains("hello"));
}

#[test]
fn file_kinds_follow_the_snapshot() {
    let file = FileInfo { exists: true, is_file: true, is_dir: false, name: None };
    let dir = FileInfo { exists: true, is_file: false, is_dir: true, name: None };
    let missing = FileInfo { exists: false, is_file: false, is_dir: false, name: None };
    assert_eq!(get_file_type(&file), TargetType::File);
    assert_eq!(get_file_type(&dir), TargetType::Dir);
    assert_eq!(get_file_type(&missing), TargetType::Missing);
    assert_eq!(get_icon(&file), "\u{1f4c4}");
    assert_eq!(get_icon(&dir), "\u{1f4c1}");
    assert_eq!(get_icon(&missing), "\u{274c}");
}

#[test]
fn counts_render_in_decimal() {
    assert_eq!(decimal_string(0), "0");
    assert_eq!(decimal_string(7), "7");
    assert_eq!(decimal_string(42), "42");
    assert_eq!(decimal_string(1204), "1204");
}

#[test]
fn trimming_strips_whitespace_at_both_ends() {
    assert_eq!(trim_spaces("  name \t"), "name");
    assert_eq!(trim_spaces("name"), "name");
    assert_eq!(trim_spaces("   "), "");
    assert_eq!(trim_spaces("a b"), "a b");
}

#[test]
fn preset_table_overwrites_and_deletes_by_name() {
    let mut repo = MemoryConfigRepository::new();
    repo.save_preset("p", &["/abs/1".to_string()]).unwrap();
    repo.save_preset("p", &["/abs/2".to_string()]).unwrap();
    assert_eq!(repo.get_preset("p").unwrap().unwrap(), vec!["/abs/2".to_string()]);
    assert_eq!(repo.list_presets().unwrap(), vec!["p".to_string()]);
    assert!(repo.delete_preset("p").unwrap());
    assert!(!repo.delete_preset("p").unwrap());
    assert!(repo.get_preset("p").unwrap().is_none());
}

#[test]
fn browser_rows_show_mark_and_kind() {
    let file = DirEntryData {
        name: "notes.txt".to_string(),
        abs_path: "/ws/notes.txt".to_string(),
        is_dir: false,
        is_hidden: false,
    };
    let dir = DirEntryData {
        name: "sub".to_string(),
        abs_path: "/ws/sub".to_string(),
        is_dir: true,
        is_hidden: false,
    };
    assert_eq!(fuga::listing::entry_row_text(&file, true), "[*] FILE notes.txt");
    assert_eq!(fuga::listing::entry_row_text(&file, false), "[ ] FILE notes.txt");
    assert_eq!(fuga::listing::entry_row_text(&dir, false), "[ ] DIR  sub");
}
