//! Dashboard state machine flows: filtering, marking, presets and exits.

use std::cell::RefCell;
use std::collections::BTreeMap;

use fuga::dashboard::{Confirmation, DashboardApp, KeyOutcome};
use fuga::listing::DirEntryData;
use fuga::{
    ConfigRepository, DashboardExit, FileInfo, FileSystemService, FugaError, FugaResult, KeyCode,
    KeyInput, MemoryConfigRepository, TargetType,
};

struct StubFs {
    existing: RefCell<BTreeMap<String, bool>>,
}

impl StubFs {
    fn new() -> Self {
        StubFs { existing: RefCell::new(BTreeMap::new()) }
    }

    fn register_existing(&self, path: &str) {
        self.existing.borrow_mut().insert(path.to_string(), false);
    }
}

impl FileSystemService for StubFs {
    fn get_file_info(&self, path: &str) -> FugaResult<FileInfo> {
        let exists = self.existing.borrow().contains_key(path);
        Ok(FileInfo {
            exists,
            is_file: true,
            is_dir: false,
            name: path.rsplit('/').next().map(|s| s.to_string()),
        })
    }

    fn get_abs_path(&self, path: &str) -> FugaResult<String> {
        Ok(path.to_string())
    }

    fn get_file_type(&self, _path: &str) -> TargetType {
        TargetType::File
    }

    fn copy_items(&self, _src: &str, _dst: &str) -> FugaResult<()> {
        Err(FugaError::OperationFailed("copy_items is not part of these flows".to_string()))
    }

    fn move_items(&self, _src: &str, _dst: &str) -> FugaResult<()> {
        Err(FugaError::OperationFailed("move_items is not part of these flows".to_string()))
    }

    fn link_items(&self, _src: &str, _dst: &str) -> FugaResult<()> {
        Err(FugaError::OperationFailed("link_items is not part of these flows".to_string()))
    }
}

fn entry(dir: &str, name: &str) -> DirEntryData {
    DirEntryData {
        name: name.to_string(),
        abs_path: format!("{}/{}", dir, name),
        is_dir: false,
        is_hidden: name.starts_with('.'),
    }
}

fn key(code: KeyCode) -> KeyInput {
    KeyInput { code, ctrl: false }
}

fn build_app(
    config: MemoryConfigRepository,
    fs: StubFs,
    dir: &str,
    entries: Vec<DirEntryData>,
) -> DashboardApp<MemoryConfigRepository, StubFs> {
    DashboardApp::new(config, fs, dir.to_string(), entries).expect("the session opens")
}

#[test]
fn clear_filter_resets_query_and_selection() {
    let fs = StubFs::new();
    fs.register_existing("/ws/notes.txt");
    let mut app = build_app(MemoryConfigRepository::new(), fs, "/ws", vec![entry("/ws", "notes.txt")]);
    app.filter_input = "note".to_string();
    app.filter_mode = true;
    app.rebuild_visible();

    app.clear_filter();

    assert!(app.filter_input.is_empty());
    assert!(!app.filter_mode);
    assert_eq!(app.visible_indices, vec![0]);
    assert_eq!(
        app.status.as_ref().map(|status| status.text.as_str()),
        Some("Filter cleared")
    );
}

#[test]
fn toggle_mark_adds_and_removes_targets() {
    let fs = StubFs::new();
    fs.register_existing("/ws/notes.txt");
    let mut app = build_app(MemoryConfigRepository::new(), fs, "/ws", vec![entry("/ws", "notes.txt")]);
    app.rebuild_visible();

    app.toggle_mark().expect("mark toggle should succeed");
    assert_eq!(
        app.config_repo.get_marked_targets().unwrap(),
        vec!["/ws/notes.txt".to_string()]
    );
    assert_eq!(app.marks, vec!["/ws/notes.txt".to_string()]);
    assert!(app.status.as_ref().and_then(|status| status.text.strip_prefix("Marked")).is_some());

    app.toggle_mark().expect("mark removal should succeed");
    assert!(app.config_repo.get_marked_targets().unwrap().is_empty());
    assert!(app.marks.is_empty());
    assert!(
        app.status.as_ref().and_then(|status| status.text.strip_prefix("Removed mark")).is_some()
    );
}

#[test]
fn toggle_mark_on_missing_path_reports_error_and_keeps_marks() {
    let fs = StubFs::new();
    let mut app = build_app(MemoryConfigRepository::new(), fs, "/ws", vec![entry("/ws", "ghost.txt")]);
    app.toggle_mark().expect("the toggle itself succeeds");
    assert!(app.config_repo.get_marked_targets().unwrap().is_empty());
    let status = app.status.as_ref().expect("an error status is shown");
    assert!(status.is_error);
    assert_eq!(status.text, "Cannot mark missing path");
}

#[test]
fn open_preset_loader_populates_popup() {
    let mut config = MemoryConfigRepository::new();
    config.save_preset("logs", &["/abs/logs".to_string()]).unwrap();
    config.save_preset("template", &["/abs/template".to_string()]).unwrap();
    let fs = StubFs::new();
    fs.register_existing("/ws/notes.txt");
    let mut app = build_app(config, fs, "/ws", vec![entry("/ws", "notes.txt")]);

    app.open_preset_loader().expect("loader should open");

    let popup = app.preset_ui.as_ref().expect("preset popup visible");
    assert_eq!(popup.items, vec!["logs".to_string(), "template".to_string()]);
    assert_eq!(popup.visible_indices.len(), 2);
    assert_eq!(popup.selection, 0);
}

#[test]
fn preset_loader_enter_loads_selected_preset() {
    let mut config = MemoryConfigRepository::new();
    config.save_preset("template", &["/abs/template".to_string()]).unwrap();
    let fs = StubFs::new();
    fs.register_existing("/ws/notes.txt");
    let mut app = build_app(config, fs, "/ws", vec![entry("/ws", "notes.txt")]);

    app.open_preset_loader().expect("loader should open");
    app.handle_preset_key(&key(KeyCode::Enter)).expect("preset handler should succeed");

    assert!(app.preset_ui.is_none(), "popup should close after load");
    assert_eq!(
        app.config_repo.get_marked_targets().unwrap(),
        vec!["/abs/template".to_string()]
    );
    let status = app.status.as_ref().expect("status message");
    assert!(status.text.contains("Loaded preset"));
    assert!(!status.is_error);
}

#[test]
fn copy_key_uses_current_directory_for_exit() {
    let fs = StubFs::new();
    fs.register_existing("/ws/notes.txt");
    let mut app = build_app(MemoryConfigRepository::new(), fs, "/ws", vec![entry("/ws", "notes.txt")]);
    let outcome = app.on_key(key(KeyCode::Char('c'))).expect("on_key should succeed");
    match outcome {
        KeyOutcome::Exit(exit) => assert_eq!(exit, DashboardExit::Copy("/ws".to_string())),
        _ => panic!("copy should trigger exit"),
    }
}

#[test]
fn quit_keys_end_the_session() {
    let fs = StubFs::new();
    let mut app = build_app(MemoryConfigRepository::new(), fs, "/ws", vec![]);
    match app.on_key(key(KeyCode::Char('q'))).unwrap() {
        KeyOutcome::Exit(DashboardExit::Quit) => {},
        _ => panic!("q quits"),
    }
    match app.on_key(key(KeyCode::Esc)).unwrap() {
        KeyOutcome::Exit(DashboardExit::Quit) => {},
        _ => panic!("Escape quits"),
    }
    match app.on_key(KeyInput { code: KeyCode::Char('c'), ctrl: true }).unwrap() {
        KeyOutcome::Exit(DashboardExit::Quit) => {},
        _ => panic!("Ctrl+c quits"),
    }
}

#[test]
fn help_overlay_takes_precedence_and_closes_on_help_keys() {
    let fs = StubFs::new();
    let mut app = build_app(MemoryConfigRepository::new(), fs, "/ws", vec![]);
    app.on_key(key(KeyCode::Char('?'))).unwrap();
    assert!(app.help_open);
    // While help is open, 'q' does not quit.
    match app.on_key(key(KeyCode::Char('q'))).unwrap() {
        KeyOutcome::Stay => {},
        _ => panic!("keys are swallowed while help is open"),
    }
    assert!(app.help_open);
    app.on_key(key(KeyCode::Esc)).unwrap();
    assert!(!app.help_open);
}

#[test]
fn reset_confirmation_flow_clears_marks_on_yes() {
    let fs = StubFs::new();
    let mut app = build_app(
        MemoryConfigRepository::with_marks(vec!["/abs/kept".to_string()]),
        fs,
        "/ws",
        vec![],
    );
    app.on_key(key(KeyCode::Char('R'))).unwrap();
    assert!(matches!(app.confirmation, Some(Confirmation::ResetMarks)));
    app.on_key(key(KeyCode::Char('y'))).unwrap();
    assert!(app.confirmation.is_none());
    assert!(app.config_repo.get_marked_targets().unwrap().is_empty());
    assert_eq!(app.status.as_ref().unwrap().text, "Marks cleared");
}

#[test]
fn reset_confirmation_flow_keeps_marks_on_no() {
    let fs = StubFs::new();
    let mut app = build_app(
        MemoryConfigRepository::with_marks(vec!["/abs/kept".to_string()]),
        fs,
        "/ws",
        vec![],
    );
    app.on_key(key(KeyCode::Char('R'))).unwrap();
    app.on_key(key(KeyCode::Char('n'))).unwrap();
    assert!(app.confirmation.is_none());
    assert_eq!(
        app.config_repo.get_marked_targets().unwrap(),
        vec!["/abs/kept".to_string()]
    );
    assert_eq!(app.status.as_ref().unwrap().text, "Reset cancelled");
}

#[test]
fn saving_new_preset_through_prompt_persists_marks() {
    let fs = StubFs::new();
    let mut app = build_app(
        MemoryConfigRepository::with_marks(vec!["/abs/a".to_string()]),
        fs,
        "/ws",
        vec![],
    );
    app.open_preset_saver().expect("saver opens");
    // The sentinel heads the list; Enter on it opens the name prompt.
    app.handle_preset_key(&key(KeyCode::Enter)).unwrap();
    assert!(app.input_prompt.is_some());
    for ch in ['p', 'r', 'e', 's'] {
        app.handle_input_prompt_key(&key(KeyCode::Char(ch))).unwrap();
    }
    app.handle_input_prompt_key(&key(KeyCode::Enter)).unwrap();
    assert!(app.input_prompt.is_none());
    assert_eq!(
        app.config_repo.get_preset("pres").unwrap().unwrap(),
        vec!["/abs/a".to_string()]
    );
}

#[test]
fn blank_preset_name_is_refused_without_closing_prompt() {
    let fs = StubFs::new();
    let mut app = build_app(MemoryConfigRepository::new(), fs, "/ws", vec![]);
    app.open_preset_saver().expect("saver opens");
    app.handle_preset_key(&key(KeyCode::Enter)).unwrap();
    app.handle_input_prompt_key(&key(KeyCode::Char(' '))).unwrap();
    app.handle_input_prompt_key(&key(KeyCode::Enter)).unwrap();
    assert!(app.input_prompt.is_some(), "the prompt stays open");
    let status = app.status.as_ref().unwrap();
    assert!(status.is_error);
    assert_eq!(status.text, "Preset name cannot be empty.");
}

#[test]
fn preset_delete_flow_removes_preset_after_confirmation() {
    let mut config = MemoryConfigRepository::new();
    config.save_preset("doomed", &["/abs/x".to_string()]).unwrap();
    let fs = StubFs::new();
    let mut app = build_app(config, fs, "/ws", vec![]);
    app.open_preset_loader().unwrap();
    app.handle_preset_key(&key(KeyCode::Char('D'))).unwrap();
    assert!(matches!(app.confirmation, Some(Confirmation::PresetDelete { .. })));
    app.on_key(key(KeyCode::Char('y'))).unwrap();
    assert!(app.config_repo.get_preset("doomed").unwrap().is_none());
    assert!(app.status.as_ref().unwrap().text.contains("deleted"));
}

#[test]
fn selection_clamps_at_both_ends() {
    let fs = StubFs::new();
    let mut app = build_app(
        MemoryConfigRepository::new(),
        fs,
        "/ws",
        vec![entry("/ws", "a.txt"), entry("/ws", "b.txt")],
    );
    assert_eq!(app.selection, 0);
    app.move_selection(-1);
    assert_eq!(app.selection, 0, "no wraparound upward");
    app.move_selection(1);
    assert_eq!(app.selection, 1);
    app.move_selection(1);
    assert_eq!(app.selection, 1, "no wraparound downward");
}

#[test]
fn entering_directory_requests_reload_and_resets_filter() {
    let fs = StubFs::new();
    let sub = DirEntryData {
        name: "sub".to_string(),
        abs_path: "/ws/sub".to_string(),
        is_dir: true,
        is_hidden: false,
    };
    let mut app = build_app(MemoryConfigRepository::new(), fs, "/ws", vec![sub]);
    app.filter_input = "s".to_string();
    app.rebuild_visible();
    match app.enter_directory() {
        KeyOutcome::LoadDirectory => {},
        _ => panic!("entering a directory asks for a reload"),
    }
    assert_eq!(app.current_dir, "/ws/sub");
    assert!(app.filter_input.is_empty());
}

#[test]
fn go_parent_walks_up_and_stops_at_root() {
    let fs = StubFs::new();
    let mut app = build_app(MemoryConfigRepository::new(), fs, "/a/b", vec![]);
    match app.go_parent() {
        KeyOutcome::LoadDirectory => {},
        _ => panic!("a nested directory has a parent"),
    }
    assert_eq!(app.current_dir, "/a");
    app.go_parent();
    assert_eq!(app.current_dir, "/");
    match app.go_parent() {
        KeyOutcome::Stay => {},
        _ => panic!("the root has no parent"),
    }
}

#[test]
fn hidden_files_are_filtered_until_toggled() {
    let fs = StubFs::new();
    let mut app = build_app(
        MemoryConfigRepository::new(),
        fs,
        "/ws",
        vec![entry("/ws", ".hidden"), entry("/ws", "shown.txt")],
    );
    assert_eq!(app.visible_indices.len(), 1);
    app.toggle_hidden();
    assert_eq!(app.visible_indices.len(), 2);
    app.toggle_hidden();
    assert_eq!(app.visible_indices.len(), 1);
}

#[test]
fn filter_mode_narrows_the_listing_incrementally() {
    let fs = StubFs::new();
    let mut app = build_app(
        MemoryConfigRepository::new(),
        fs,
        "/ws",
        vec![entry("/ws", "notes.txt"), entry("/ws", "build.log")],
    );
    app.on_key(key(KeyCode::Char('/'))).unwrap();
    assert!(app.filter_mode);
    app.on_key(key(KeyCode::Char('n'))).unwrap();
    app.on_key(key(KeyCode::Char('t'))).unwrap();
    assert_eq!(app.visible_indices.len(), 1);
    app.on_key(key(KeyCode::Enter)).unwrap();
    assert!(!app.filter_mode, "Enter commits the filter");
    assert_eq!(app.filter_input, "nt", "the filter text is retained");
    app.on_key(key(KeyCode::Char('/'))).unwrap();
    app.on_key(key(KeyCode::Esc)).unwrap();
    assert!(app.filter_input.is_empty(), "Escape clears the filter");
    assert_eq!(app.visible_indices.len(), 2);
}
