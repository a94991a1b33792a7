//! Command flows driven against the in-memory repository and an in-memory
//! filesystem stand-in.

use std::cell::RefCell;
use std::collections::BTreeMap;

use fuga::{
    Command, ConfigRepository, CopyCommand, FileInfo, FileSystemService, FugaError, FugaResult,
    LinkCommand, MarkAction, MarkCommand, MemoryConfigRepository, MoveCommand, PresetAction,
    PresetCommand, StandardPathService, TargetType, TerminalUIService,
};

struct FakeFs {
    cwd: String,
    entries: RefCell<BTreeMap<String, bool>>,
    links: RefCell<Vec<(String, String)>>,
    denied: RefCell<Vec<String>>,
}

impl FakeFs {
    fn new(cwd: &str) -> Self {
        FakeFs {
            cwd: cwd.to_string(),
            entries: RefCell::new(BTreeMap::new()),
            links: RefCell::new(Vec::new()),
            denied: RefCell::new(Vec::new()),
        }
    }

    fn abs(&self, path: &str) -> String {
        if path.starts_with('/') {
            path.to_string()
        } else {
            format!("{}/{}", self.cwd, path)
        }
    }

    fn add_file(&self, path: &str) {
        let abs = self.abs(path);
        self.entries.borrow_mut().insert(abs, false);
    }

    fn add_dir(&self, path: &str) {
        let abs = self.abs(path);
        self.entries.borrow_mut().insert(abs, true);
    }

    fn deny(&self, prefix: &str) {
        self.denied.borrow_mut().push(self.abs(prefix));
    }

    fn has(&self, path: &str) -> bool {
        self.entries.borrow().contains_key(&self.abs(path))
    }

    fn is_file(&self, path: &str) -> bool {
        matches!(self.entries.borrow().get(&self.abs(path)), Some(false))
    }
}

impl FileSystemService for FakeFs {
    fn get_file_info(&self, path: &str) -> FugaResult<FileInfo> {
        let abs = self.abs(path);
        if self.denied.borrow().iter().any(|d| abs.starts_with(d.as_str())) {
            return Err(FugaError::PermissionError { path: abs, message: "access denied".to_string() });
        }
        match self.entries.borrow().get(&abs) {
            Some(is_dir) => Ok(FileInfo {
                exists: true,
                is_file: !is_dir,
                is_dir: *is_dir,
                name: abs.rsplit('/').next().map(|s| s.to_string()),
            }),
            None => Ok(FileInfo { exists: false, is_file: false, is_dir: false, name: None }),
        }
    }

    fn get_abs_path(&self, path: &str) -> FugaResult<String> {
        Ok(self.abs(path))
    }

    fn get_file_type(&self, path: &str) -> TargetType {
        match self.entries.borrow().get(&self.abs(path)) {
            Some(true) => TargetType::Dir,
            Some(false) => TargetType::File,
            None => TargetType::Missing,
        }
    }

    fn copy_items(&self, src: &str, dst: &str) -> FugaResult<()> {
        let s = self.abs(src);
        let d = self.abs(dst);
        if s == d {
            return Err(FugaError::DuplicatePath { source: s, destination: d });
        }
        let kind = match self.entries.borrow().get(&s) {
            Some(k) => *k,
            None => return Err(FugaError::FileNotFound(s)),
        };
        self.entries.borrow_mut().insert(d, kind);
        Ok(())
    }

    fn move_items(&self, src: &str, dst: &str) -> FugaResult<()> {
        let s = self.abs(src);
        let d = self.abs(dst);
        if s == d {
            return Err(FugaError::DuplicatePath { source: s, destination: d });
        }
        let kind = match self.entries.borrow().get(&s) {
            Some(k) => *k,
            None => return Err(FugaError::FileNotFound(s)),
        };
        let mut map = self.entries.borrow_mut();
        map.remove(&s);
        map.insert(d, kind);
        Ok(())
    }

    fn link_items(&self, src: &str, dst: &str) -> FugaResult<()> {
        let s = self.abs(src);
        let d = self.abs(dst);
        if s == d {
            return Err(FugaError::DuplicatePath { source: s, destination: d });
        }
        let kind = match self.entries.borrow().get(&s) {
            Some(k) => *k,
            None => return Err(FugaError::FileNotFound(s)),
        };
        self.entries.borrow_mut().insert(d.clone(), kind);
        self.links.borrow_mut().push((s, d));
        Ok(())
    }
}

fn ui() -> TerminalUIService {
    TerminalUIService::with_emoji(false)
}

fn marks_of(repo: &mut MemoryConfigRepository) -> Vec<String> {
    repo.get_marked_targets().expect("in-memory marks")
}

#[test]
fn mark_missing_path_fails_with_error() {
    let fs = FakeFs::new("/ws");
    let repo = MemoryConfigRepository::new();
    let action = MarkAction::Replace(vec!["does-not-exist".to_string()]);
    let mut cmd = MarkCommand::new(repo, fs, ui(), action);
    let err = cmd.execute().expect_err("marking a missing path must fail");
    assert!(err.message().contains("File not found"));
}

#[test]
fn mark_add_and_list_targets() {
    let fs = FakeFs::new("/ws");
    fs.add_file("file_a.txt");
    fs.add_file("file_b.txt");
    fs.add_file("file_c.txt");
    let repo = MemoryConfigRepository::new();
    let action = MarkAction::Replace(vec!["file_a.txt".to_string(), "file_b.txt".to_string()]);
    let mut cmd = MarkCommand::new(repo, fs, ui(), action);
    cmd.execute().expect("marking existing paths succeeds");

    cmd.action = MarkAction::Add(vec!["file_b.txt".to_string(), "file_c.txt".to_string()]);
    cmd.execute().expect("adding succeeds");

    let marks = marks_of(&mut cmd.config_repo);
    assert_eq!(
        marks,
        vec![
            "/ws/file_a.txt".to_string(),
            "/ws/file_b.txt".to_string(),
            "/ws/file_c.txt".to_string(),
        ]
    );

    cmd.action = MarkAction::List;
    cmd.execute().expect("listing succeeds");
}

#[test]
fn marking_same_path_twice_keeps_one_entry() {
    let fs = FakeFs::new("/ws");
    fs.add_file("a.txt");
    let repo = MemoryConfigRepository::new();
    let mut cmd = MarkCommand::new(repo, fs, ui(), MarkAction::Add(vec!["a.txt".to_string()]));
    cmd.execute().expect("first add succeeds");
    cmd.action = MarkAction::Add(vec!["a.txt".to_string()]);
    cmd.execute().expect("second add succeeds");
    assert_eq!(marks_of(&mut cmd.config_repo), vec!["/ws/a.txt".to_string()]);
}

#[test]
fn mark_reset_clears_targets() {
    let fs = FakeFs::new("/ws");
    fs.add_file("a.txt");
    let repo = MemoryConfigRepository::new();
    let mut cmd = MarkCommand::new(repo, fs, ui(), MarkAction::Replace(vec!["a.txt".to_string()]));
    cmd.execute().expect("mark succeeds");
    cmd.action = MarkAction::Reset;
    cmd.execute().expect("reset succeeds");
    assert!(marks_of(&mut cmd.config_repo).is_empty());
}

#[test]
fn copy_copies_multiple_targets_into_current_directory() {
    let fs = FakeFs::new("/ws/copy_dest");
    fs.add_file("/ws/one.txt");
    fs.add_file("/ws/two.log");
    let repo = MemoryConfigRepository::with_marks(vec![
        "/ws/one.txt".to_string(),
        "/ws/two.log".to_string(),
    ]);
    let mut cmd = CopyCommand::new(repo, fs, ui(), StandardPathService::new(), None);
    cmd.execute().expect("copy succeeds");
    assert!(cmd.fs_service.has("/ws/copy_dest/one.txt"));
    assert!(cmd.fs_service.is_file("/ws/copy_dest/one.txt"));
    assert!(cmd.fs_service.has("/ws/copy_dest/two.log"));
    assert!(cmd.fs_service.has("/ws/one.txt"), "originals remain");
    assert_eq!(
        marks_of(&mut cmd.config_repo),
        vec!["/ws/one.txt".to_string(), "/ws/two.log".to_string()],
        "copy leaves the mark list unchanged"
    );
}

#[test]
fn copy_into_existing_directory_appends_base_names() {
    let fs = FakeFs::new("/ws");
    fs.add_file("a.txt");
    fs.add_file("b.txt");
    fs.add_dir("out");
    let repo = MemoryConfigRepository::with_marks(vec![
        "/ws/a.txt".to_string(),
        "/ws/b.txt".to_string(),
    ]);
    let mut cmd = CopyCommand::new(repo, fs, ui(), StandardPathService::new(), Some("out".to_string()));
    cmd.execute().expect("copy into a directory succeeds");
    assert!(cmd.fs_service.is_file("/ws/out/a.txt"));
    assert!(cmd.fs_service.is_file("/ws/out/b.txt"));
    assert!(cmd.fs_service.has("/ws/a.txt"));
    assert_eq!(
        marks_of(&mut cmd.config_repo),
        vec!["/ws/a.txt".to_string(), "/ws/b.txt".to_string()]
    );
}

#[test]
fn copy_requires_marked_targets() {
    let fs = FakeFs::new("/ws");
    let repo = MemoryConfigRepository::new();
    let mut cmd = CopyCommand::new(repo, fs, ui(), StandardPathService::new(), None);
    let err = cmd.execute().expect_err("copy without marks must fail");
    assert!(err.message().contains("No targets marked."));
}

#[test]
fn move_resets_mark_list_after_success() {
    let fs = FakeFs::new("/ws");
    fs.add_file("move_source_a.txt");
    fs.add_file("move_source_b.txt");
    fs.add_dir("move_dest");
    let repo = MemoryConfigRepository::with_marks(vec![
        "/ws/move_source_a.txt".to_string(),
        "/ws/move_source_b.txt".to_string(),
    ]);
    let mut cmd = MoveCommand::new(
        repo,
        fs,
        ui(),
        StandardPathService::new(),
        Some("move_dest".to_string()),
    );
    cmd.execute().expect("move succeeds");
    assert!(cmd.fs_service.is_file("/ws/move_dest/move_source_a.txt"));
    assert!(cmd.fs_service.is_file("/ws/move_dest/move_source_b.txt"));
    assert!(!cmd.fs_service.has("/ws/move_source_a.txt"));
    assert!(!cmd.fs_service.has("/ws/move_source_b.txt"));
    assert!(marks_of(&mut cmd.config_repo).is_empty(), "move clears the marks");
}

#[test]
fn multi_target_to_single_destination_is_error() {
    let fs = FakeFs::new("/ws");
    fs.add_file("multi_a.txt");
    fs.add_file("multi_b.txt");
    let repo = MemoryConfigRepository::with_marks(vec![
        "/ws/multi_a.txt".to_string(),
        "/ws/multi_b.txt".to_string(),
    ]);
    let mut cmd = MoveCommand::new(
        repo,
        fs,
        ui(),
        StandardPathService::new(),
        Some("single.txt".to_string()),
    );
    let err = cmd.execute().expect_err("two targets into one file must fail");
    assert!(err.message().contains("Cannot move multiple items to a single file path."));
    assert!(!cmd.fs_service.has("/ws/single.txt"), "nothing was touched");
}

#[test]
fn mark_reports_permission_denied() {
    let fs = FakeFs::new("/ws");
    fs.add_file("restricted/secret.txt");
    fs.deny("restricted");
    let repo = MemoryConfigRepository::new();
    let action = MarkAction::Replace(vec!["restricted/secret.txt".to_string()]);
    let mut cmd = MarkCommand::new(repo, fs, ui(), action);
    let err = cmd.execute().expect_err("marking a denied path must fail");
    assert!(err.message().contains("Permission denied"));
    assert!(err.message().contains("/ws/restricted/secret.txt"), "the concrete path is named");
}

#[test]
fn link_command_creates_symlinks_for_multiple_targets() {
    let fs = FakeFs::new("/ws");
    fs.add_file("link_one.txt");
    fs.add_file("link_two.txt");
    fs.add_dir("links");
    let repo = MemoryConfigRepository::with_marks(vec![
        "/ws/link_one.txt".to_string(),
        "/ws/link_two.txt".to_string(),
    ]);
    let mut cmd = LinkCommand::new(
        repo,
        fs,
        ui(),
        StandardPathService::new(),
        Some("links".to_string()),
    );
    cmd.execute().expect("link succeeds");
    let links = cmd.fs_service.links.borrow().clone();
    assert_eq!(
        links,
        vec![
            ("/ws/link_one.txt".to_string(), "/ws/links/link_one.txt".to_string()),
            ("/ws/link_two.txt".to_string(), "/ws/links/link_two.txt".to_string()),
        ]
    );
    assert_eq!(
        marks_of(&mut cmd.config_repo),
        vec!["/ws/link_one.txt".to_string(), "/ws/link_two.txt".to_string()],
        "link leaves the mark list unchanged"
    );
}

#[test]
fn copy_detects_duplicate_destination() {
    let fs = FakeFs::new("/ws");
    fs.add_file("document.txt");
    let repo = MemoryConfigRepository::with_marks(vec!["/ws/document.txt".to_string()]);
    let mut cmd = CopyCommand::new(repo, fs, ui(), StandardPathService::new(), None);
    let err = cmd.execute().expect_err("copying a file onto itself must fail");
    assert!(err.message().contains("Source and destination are the same"));
}

#[test]
fn save_preset_persists_current_marks() {
    let fs = FakeFs::new("/ws");
    let repo = MemoryConfigRepository::with_marks(vec![
        "/abs/A".to_string(),
        "/abs/B".to_string(),
    ]);
    let action = PresetAction::Save { name: "template".to_string() };
    let mut cmd = PresetCommand::new(repo, fs, ui(), action);
    cmd.execute().expect("save should succeed");
    assert_eq!(
        cmd.config_repo.get_preset("template").unwrap().unwrap(),
        vec!["/abs/A".to_string(), "/abs/B".to_string()]
    );
}

#[test]
fn load_preset_replaces_marks() {
    let fs = FakeFs::new("/ws");
    let mut repo = MemoryConfigRepository::with_marks(vec!["/abs/initial".to_string()]);
    repo.save_preset("template", &["/abs/A".to_string(), "/abs/B".to_string()])
        .expect("seeding the preset succeeds");
    let action = PresetAction::Load { name: "template".to_string() };
    let mut cmd = PresetCommand::new(repo, fs, ui(), action);
    cmd.execute().expect("load should succeed");
    assert_eq!(
        marks_of(&mut cmd.config_repo),
        vec!["/abs/A".to_string(), "/abs/B".to_string()]
    );
}

#[test]
fn load_missing_preset_returns_error() {
    let fs = FakeFs::new("/ws");
    let repo = MemoryConfigRepository::new();
    let action = PresetAction::Load { name: "missing".to_string() };
    let mut cmd = PresetCommand::new(repo, fs, ui(), action);
    let error = cmd.execute().expect_err("missing preset should error");
    assert!(matches!(
        error,
        FugaError::OperationFailed(ref message) if message.contains("missing")
    ));
}

#[test]
fn delete_missing_preset_returns_error() {
    let fs = FakeFs::new("/ws");
    let repo = MemoryConfigRepository::new();
    let action = PresetAction::Delete { name: "missing".to_string() };
    let mut cmd = PresetCommand::new(repo, fs, ui(), action);
    let error = cmd.execute().expect_err("missing delete should error");
    assert!(matches!(
        error,
        FugaError::OperationFailed(ref message) if message.contains("missing")
    ));
}

#[test]
fn list_presets_succeeds_when_empty() {
    let fs = FakeFs::new("/ws");
    let repo = MemoryConfigRepository::new();
    let mut cmd = PresetCommand::new(repo, fs, ui(), PresetAction::List);
    assert!(cmd.execute().is_ok());
}

#[test]
fn preset_round_trip_restores_marks_saved_earlier() {
    let fs = FakeFs::new("/ws");
    fs.add_file("later.txt");
    let repo = MemoryConfigRepository::with_marks(vec![
        "/abs/one".to_string(),
        "/abs/two".to_string(),
    ]);
    let mut save = PresetCommand::new(repo, fs, ui(), PresetAction::Save { name: "p".to_string() });
    save.execute().expect("save succeeds");

    // Mutate the live mark list in between.
    let mut mark = MarkCommand::new(
        save.config_repo,
        save.fs_service,
        ui(),
        MarkAction::Replace(vec!["later.txt".to_string()]),
    );
    mark.execute().expect("remarking succeeds");
    assert_eq!(marks_of(&mut mark.config_repo), vec!["/ws/later.txt".to_string()]);

    let mut load = PresetCommand::new(
        mark.config_repo,
        mark.fs_service,
        ui(),
        PresetAction::Load { name: "p".to_string() },
    );
    load.execute().expect("load succeeds");
    assert_eq!(
        marks_of(&mut load.config_repo),
        vec!["/abs/one".to_string(), "/abs/two".to_string()],
        "the exact ordered list present at save time returns"
    );
}

#[test]
fn resolver_preserves_input_order_of_existing_paths() {
    let fs = FakeFs::new("/ws");
    fs.add_file("b.txt");
    fs.add_file("a.txt");
    let repo = MemoryConfigRepository::new();
    let action = MarkAction::Replace(vec!["b.txt".to_string(), "a.txt".to_string()]);
    let mut cmd = MarkCommand::new(repo, fs, ui(), action);
    cmd.execute().expect("marking succeeds");
    assert_eq!(
        marks_of(&mut cmd.config_repo),
        vec!["/ws/b.txt".to_string(), "/ws/a.txt".to_string()],
        "the mark list keeps the input order"
    );
}

#[test]
fn resolver_names_the_missing_path_wherever_it_stands() {
    let fs = FakeFs::new("/ws");
    fs.add_file("a.txt");
    fs.add_file("c.txt");
    let repo = MemoryConfigRepository::new();
    let action = MarkAction::Replace(vec![
        "a.txt".to_string(),
        "gone.txt".to_string(),
        "c.txt".to_string(),
    ]);
    let mut cmd = MarkCommand::new(repo, fs, ui(), action);
    let err = cmd.execute().expect_err("a missing path aborts the resolution");
    assert!(matches!(err, FugaError::FileNotFound(ref p) if p == "/ws/gone.txt"));

    let fs2 = FakeFs::new("/ws");
    fs2.add_file("a.txt");
    fs2.add_file("c.txt");
    let action2 = MarkAction::Replace(vec![
        "gone.txt".to_string(),
        "a.txt".to_string(),
        "c.txt".to_string(),
    ]);
    let mut cmd2 = MarkCommand::new(MemoryConfigRepository::new(), fs2, ui(), action2);
    let err2 = cmd2.execute().expect_err("a missing path aborts the resolution");
    assert!(matches!(err2, FugaError::FileNotFound(ref p) if p == "/ws/gone.txt"));
}

#[test]
fn copy_reports_vanished_mark_as_file_not_found() {
    let fs = FakeFs::new("/ws");
    let repo = MemoryConfigRepository::with_marks(vec!["/ws/gone.txt".to_string()]);
    let mut cmd = CopyCommand::new(repo, fs, ui(), StandardPathService::new(), None);
    let err = cmd.execute().expect_err("a vanished mark must fail");
    assert!(matches!(err, FugaError::FileNotFound(ref p) if p == "/ws/gone.txt"));
}
