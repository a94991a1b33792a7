//! The dashboard's modal state machine: a browse view over one directory's
//! listing with incremental filtering, mark toggling, preset management and
//! confirmation prompts, layered in strict precedence (help, then text
//! input, then confirmation, then the preset popup, then the filter, then
//! browse). The terminal loop around it feeds key presses in and performs
//! the directory reads this machine asks for.

use vstd::prelude::*;
use crate::config::{spec_migrate_data, spec_migrated_marks, DataView};
use crate::errors::{FugaError, FugaResult};
use crate::listing::{
    compute_visible, indices_as_int, sort_entries, spec_entries_sorted, spec_visible_indices,
    DirEntryData,
};
use crate::preset_ui::{create_new_label, spec_clamp, PresetUiMode, PresetUiState};
use crate::resolver::{
    contains_str, dedupe_preserving_order, remove_matching, seq_views, spec_dedupe,
    spec_remove_all,
};
use crate::traits::{ConfigRepository, FileSystemService};
use crate::ui::{decimal_string, drop_last_char, push_char, trim_spaces};

verus! {

/// How the dashboard session ends: quitting, or running one of the three
/// operations with the current directory as the destination argument.
#[derive(Debug, Clone, PartialEq, Eq)]
pub enum DashboardExit {
    Quit,
    Copy(String),
    Move(String),
    Link(String),
}

/// One user-facing status line, flagged when it reports an error.
#[derive(Debug)]
pub struct StatusMessage {
    pub text: String,
    pub is_error: bool,
}

/// A pending yes/no question.
#[derive(Debug)]
pub enum Confirmation {
    ResetMarks,
    PresetOverwrite { name: String },
    PresetDelete { name: String },
}

/// What the free-text prompt is collecting.
#[derive(Debug, Clone, Copy)]
pub enum InputPromptKind {
    NewPreset,
}

/// The free-text prompt's state.
#[derive(Debug)]
pub struct InputPromptState {
    pub kind: InputPromptKind,
    pub buffer: String,
}

impl InputPromptState {
    pub fn new(kind: InputPromptKind) -> (r: Self)
        ensures
            r.kind == kind,
            r.buffer@.len() == 0,
    {
        InputPromptState { kind, buffer: String::new() }
    }
}

/// One key press, decoded from the terminal.
#[derive(Debug, Clone, Copy, PartialEq, Eq, Structural)]
pub enum KeyCode {
    Char(char),
    F(u8),
    Enter,
    Esc,
    Backspace,
    Up,
    Down,
    Left,
    Right,
    Other,
}

/// A key press with its control modifier.
#[derive(Debug, Clone, Copy, PartialEq, Eq, Structural)]
pub struct KeyInput {
    pub code: KeyCode,
    pub ctrl: bool,
}

/// What the caller must do after one key press: keep polling, end the
/// session, or reload the current directory's listing and hand it back.
#[derive(Debug)]
pub enum KeyOutcome {
    Stay,
    Exit(DashboardExit),
    LoadDirectory,
}

/// The dashboard session's state.
pub struct DashboardApp<C: ConfigRepository, F: FileSystemService> {
    pub config_repo: C,
    pub fs_service: F,
    pub current_dir: String,
    pub entries: Vec<DirEntryData>,
    pub visible_indices: Vec<usize>,
    pub selection: usize,
    pub show_hidden: bool,
    pub filter_input: String,
    pub filter_mode: bool,
    pub marks: Vec<String>,
    pub status: Option<StatusMessage>,
    pub confirmation: Option<Confirmation>,
    pub help_open: bool,
    pub preset_ui: Option<PresetUiState>,
    pub input_prompt: Option<InputPromptState>,
}

/// No overlay is active: keys fall through to the browse bindings.
pub open spec fn spec_in_browse<C: ConfigRepository, F: FileSystemService>(
    s: DashboardApp<C, F>,
) -> bool {
    &&& !s.help_open
    &&& s.input_prompt is None
    &&& s.confirmation is None
    &&& s.preset_ui is None
    &&& !s.filter_mode
}

/// The filter is taking keystrokes: no overlay above it is open.
pub open spec fn spec_in_filter<C: ConfigRepository, F: FileSystemService>(
    s: DashboardApp<C, F>,
) -> bool {
    &&& !s.help_open
    &&& s.input_prompt is None
    &&& s.confirmation is None
    &&& s.preset_ui is None
    &&& s.filter_mode
}

/// The listing entry the selection points at, if any row is visible and
/// its index still points into the listing.
pub open spec fn spec_selected_entry<C: ConfigRepository, F: FileSystemService>(
    s: DashboardApp<C, F>,
) -> Option<DirEntryData> {
    if s.selection < s.visible_indices@.len() && (s.visible_indices@[s.selection as int] as int)
        < s.entries@.len() {
        Some(s.entries@[s.visible_indices@[s.selection as int] as int])
    } else {
        None
    }
}

/// The mark data after a path is added: merely migrated when the path is
/// already among the migrated marks, else the migrated list with the path
/// appended, deduplicated.
pub open spec fn spec_data_after_add(d: DataView, p: Seq<char>) -> DataView {
    if spec_migrated_marks(d).contains(p) {
        spec_migrate_data(d)
    } else {
        DataView { targets: spec_dedupe(spec_migrated_marks(d).push(p)), legacy: None }
    }
}

/// The mark data after a path is removed: every occurrence of it dropped
/// from the migrated list, the rest deduplicated in order.
pub open spec fn spec_data_after_remove(d: DataView, p: Seq<char>) -> DataView {
    DataView {
        targets: spec_dedupe(spec_remove_all(spec_migrated_marks(d), p)),
        legacy: None,
    }
}

/// What one mark toggle does to the session: nothing without a usable
/// selection; otherwise either the vanished path is only reported, or the
/// selected path's membership flips, with the stored data re-read into the
/// mirror and a status line naming the outcome.
pub open spec fn spec_toggle_outcome<C: ConfigRepository, F: FileSystemService>(
    pre: DashboardApp<C, F>,
    post: DashboardApp<C, F>,
) -> bool {
    match spec_selected_entry(pre) {
        None => post == pre,
        Some(e) => if e.abs_path@.len() == 0 {
            post == pre
        } else {
            ||| (post.config_repo == pre.config_repo && post.marks == pre.marks && (
            post.status matches Some(st) && st.is_error && st.text@
                == "Cannot mark missing path"@))
            ||| (post.config_repo.data() == spec_migrate_data(
                spec_data_after_add(pre.config_repo.data(), e.abs_path@),
            ) && seq_views(post.marks@) == spec_migrated_marks(
                spec_data_after_add(pre.config_repo.data(), e.abs_path@),
            ) && (post.status matches Some(st) && !st.is_error && st.text@ == "Marked "@
                + e.abs_path@))
            ||| (post.config_repo.data() == spec_migrate_data(
                spec_data_after_remove(pre.config_repo.data(), e.abs_path@),
            ) && seq_views(post.marks@) == spec_migrated_marks(
                spec_data_after_remove(pre.config_repo.data(), e.abs_path@),
            ) && (post.status matches Some(st) && !st.is_error && st.text@ == "Removed mark "@
                + e.abs_path@))
        },
    }
}

impl<C: ConfigRepository, F: FileSystemService> DashboardApp<C, F> {
    /// Open a session at the given directory with its listing: the marks
    /// are loaded (and migrated) from the repository, hidden files start
    /// out hidden, and no overlay is open.
    pub fn new(config_repo: C, fs_service: F, current_dir: String, entries: Vec<DirEntryData>) -> (r:
        FugaResult<Self>)
        ensures
            r matches Ok(app) ==> app.current_dir == current_dir && seq_views(app.marks@)
                == spec_migrated_marks(config_repo.data()) && app.config_repo.data()
                == spec_migrate_data(config_repo.data()) && spec_entries_sorted(app.entries@)
                && !app.show_hidden && !app.filter_mode && !app.help_open && app.preset_ui is None
                && app.confirmation is None && app.input_prompt is None,
    {
        let mut app = DashboardApp {
            config_repo,
            fs_service,
            current_dir,
            entries: Vec::new(),
            visible_indices: Vec::new(),
            selection: 0,
            show_hidden: false,
            filter_input: String::new(),
            filter_mode: false,
            marks: Vec::new(),
            status: None,
            confirmation: None,
            help_open: false,
            preset_ui: None,
            input_prompt: None,
        };
        match app.refresh_marks() {
            Ok(()) => {},
            Err(e) => {
                return Err(e);
            },
        }
        app.set_entries(entries);
        Ok(app)
    }

    /// Mirror the repository's (migrated) mark list into the session.
    pub fn refresh_marks(&mut self) -> (r: FugaResult<()>)
        ensures
            r is Ok ==> seq_views(final(self).marks@) == spec_migrated_marks(
                old(self).config_repo.data(),
            ) && final(self).config_repo.data() == spec_migrate_data(old(self).config_repo.data()),
            final(self).config_repo.presets() == old(self).config_repo.presets(),
            !(r is Ok) ==> final(self).config_repo.data() == old(self).config_repo.data(),
            *final(self) == (DashboardApp {
                marks: final(self).marks,
                config_repo: final(self).config_repo,
                ..*old(self)
            }),
    {
        let marks = match self.config_repo.get_marked_targets() {
            Ok(m) => m,
            Err(e) => {
                return Err(e);
            },
        };
        self.marks = marks;
        Ok(())
    }

    /// Install a freshly read listing: sort it into listing order and
    /// recompute the visible subset.
    pub fn set_entries(&mut self, entries: Vec<DirEntryData>)
        ensures
            spec_entries_sorted(final(self).entries@),
            final(self).entries@.to_multiset() == entries@.to_multiset(),
            indices_as_int(final(self).visible_indices@) == spec_visible_indices(
                final(self).entries@,
                old(self).show_hidden,
                old(self).filter_input@,
            ),
            *final(self) == (DashboardApp {
                entries: final(self).entries,
                visible_indices: final(self).visible_indices,
                selection: final(self).selection,
                ..*old(self)
            }),
    {
        self.entries = entries;
        sort_entries(&mut self.entries);
        self.rebuild_visible();
    }

    /// Recompute which entries show under the hidden-file toggle and the
    /// filter, clamping the selection into the result.
    pub fn rebuild_visible(&mut self)
        ensures
            indices_as_int(final(self).visible_indices@) == spec_visible_indices(
                old(self).entries@,
                old(self).show_hidden,
                old(self).filter_input@,
            ),
            final(self).visible_indices@.len() == 0 ==> final(self).selection == 0,
            final(self).visible_indices@.len() > 0 ==> final(self).selection < final(self).visible_indices@.len(),
            *final(self) == (DashboardApp {
                visible_indices: final(self).visible_indices,
                selection: final(self).selection,
                ..*old(self)
            }),
    {
        let vis = compute_visible(&self.entries, self.show_hidden, self.filter_input.as_str());
        self.visible_indices = vis;
        if self.visible_indices.len() == 0 {
            self.selection = 0;
        } else if self.selection >= self.visible_indices.len() {
            self.selection = self.visible_indices.len() - 1;
        }
    }

    /// Move the selection, clamped to the visible list's bounds.
    pub fn move_selection(&mut self, delta: isize)
        ensures
            old(self).visible_indices@.len() == 0 ==> final(self).selection == old(self).selection,
            old(self).visible_indices@.len() > 0 ==> final(self).selection as int == spec_clamp(
                old(self).selection as int + delta as int,
                old(self).visible_indices@.len() as int,
            ),
            *final(self) == (DashboardApp { selection: final(self).selection, ..*old(self) }),
    {
        if self.visible_indices.len() == 0 {
            return ;
        }
        let len = self.visible_indices.len();
        let target: i128 = self.selection as i128 + delta as i128;
        if target < 0 {
            self.selection = 0;
        } else if target >= len as i128 {
            self.selection = len - 1;
        } else {
            self.selection = target as usize;
        }
    }

    /// The index (into the listing) of the selected visible entry.
    pub fn selected_entry_index(&self) -> (r: Option<usize>)
        ensures
            match r {
                Some(i) => self.selection < self.visible_indices@.len() && i
                    == self.visible_indices@[self.selection as int] && (i as int)
                    < self.entries@.len(),
                None => self.selection >= self.visible_indices@.len() || (
                self.visible_indices@[self.selection as int] as int) >= self.entries@.len(),
            },
    {
        if self.selection < self.visible_indices.len() {
            let idx = self.visible_indices[self.selection];
            if idx < self.entries.len() {
                Some(idx)
            } else {
                None
            }
        } else {
            None
        }
    }

    /// Whether the path stands in the mirrored mark list.
    pub fn path_is_marked(&self, path: &String) -> (r: bool)
        ensures
            r == seq_views(self.marks@).contains(path@),
    {
        contains_str(&self.marks, path)
    }

    /// The selected entry, if any row is visible.
    pub fn visible_selection(&self) -> (r: Option<&DirEntryData>) {
        match self.selected_entry_index() {
            Some(i) => Some(&self.entries[i]),
            None => None,
        }
    }

    fn set_status(&mut self, text: String, is_error: bool)
        ensures
            final(self).status matches Some(s) && s.text == text && s.is_error == is_error,
            *final(self) == (DashboardApp { status: final(self).status, ..*old(self) }),
    {
        self.status = Some(StatusMessage { text, is_error });
    }

    /// Enter the selected directory: the caller is asked to reload the
    /// listing exactly when the selection is a directory, and the filter
    /// is reset on the way in.
    pub fn enter_directory(&mut self) -> (r: KeyOutcome)
        ensures
            r is LoadDirectory == (spec_selected_entry(*old(self)) matches Some(e) && e.is_dir),
            r is LoadDirectory ==> (spec_selected_entry(*old(self)) matches Some(e) && final(self).current_dir@ == e.abs_path@),
            r is LoadDirectory ==> final(self).filter_input@.len() == 0 && !final(self).filter_mode,
            r is LoadDirectory ==> (final(self).status matches Some(st) && !st.is_error && st.text@ == "Entered "@ + final(self).current_dir@),
            !(r is LoadDirectory) ==> *final(self) == *old(self),
            !(r is Exit),
            final(self).config_repo == old(self).config_repo,
    {
        let idx = match self.selected_entry_index() {
            Some(i) => i,
            None => {
                return KeyOutcome::Stay;
            },
        };
        if !self.entries[idx].is_dir {
            return KeyOutcome::Stay;
        }
        let target_path = self.entries[idx].abs_path.clone();
        self.current_dir = target_path;
        self.filter_input = String::new();
        self.filter_mode = false;
        let mut text = String::from_str("Entered ");
        text.append(self.current_dir.as_str());
        self.set_status(text, false);
        KeyOutcome::LoadDirectory
    }

    /// Go to the parent directory: the caller is asked to reload exactly
    /// when the current directory has a parent.
    pub fn go_parent(&mut self) -> (r: KeyOutcome)
        ensures
            r is LoadDirectory == (crate::paths::spec_parent(old(self).current_dir@) is Some),
            r is LoadDirectory ==> crate::paths::spec_parent(old(self).current_dir@) == Some(
                final(self).current_dir@,
            ) && final(self).filter_input@.len() == 0 && !final(self).filter_mode,
            r is LoadDirectory ==> (final(self).status matches Some(st) && !st.is_error && st.text@ == "Entered "@ + final(self).current_dir@),
            !(r is LoadDirectory) ==> *final(self) == *old(self),
            !(r is Exit),
            final(self).config_repo == old(self).config_repo,
    {
        match crate::paths::parent_of(self.current_dir.as_str()) {
            Some(parent) => {
                self.current_dir = parent;
                self.filter_input = String::new();
                self.filter_mode = false;
                let mut text = String::from_str("Entered ");
                text.append(self.current_dir.as_str());
                self.set_status(text, false);
                KeyOutcome::LoadDirectory
            },
            None => KeyOutcome::Stay,
        }
    }

    /// Flip the hidden-file toggle and re-apply the filter at once.
    pub fn toggle_hidden(&mut self)
        ensures
            final(self).show_hidden == !old(self).show_hidden,
            indices_as_int(final(self).visible_indices@) == spec_visible_indices(
                old(self).entries@,
                !old(self).show_hidden,
                old(self).filter_input@,
            ),
            final(self).config_repo == old(self).config_repo,
            final(self).status matches Some(st) && !st.is_error && st.text@ == (if old(self).show_hidden {
                "Hidden files hidden"@
            } else {
                "Hidden files shown"@
            }),
    {
        self.show_hidden = !self.show_hidden;
        self.rebuild_visible();
        let text = if self.show_hidden {
            String::from_str("Hidden files shown")
        } else {
            String::from_str("Hidden files hidden")
        };
        self.set_status(text, false);
    }

    /// Clear an active filter; with none active only a notice is shown.
    pub fn clear_filter(&mut self)
        ensures
            old(self).filter_input@.len() == 0 ==> *final(self) == (DashboardApp {
                status: final(self).status,
                ..*old(self)
            }) && (final(self).status matches Some(st) && !st.is_error && st.text@
                == "Filter already cleared"@),
            old(self).filter_input@.len() > 0 ==> final(self).filter_input@.len() == 0 && !final(self).filter_mode && indices_as_int(final(self).visible_indices@) == spec_visible_indices(
                old(self).entries@,
                old(self).show_hidden,
                Seq::<char>::empty(),
            ) && *final(self) == (DashboardApp {
                filter_input: final(self).filter_input,
                filter_mode: false,
                visible_indices: final(self).visible_indices,
                selection: final(self).selection,
                status: final(self).status,
                ..*old(self)
            }) && (final(self).status matches Some(st) && !st.is_error && st.text@
                == "Filter cleared"@),
            final(self).config_repo == old(self).config_repo,
            final(self).status matches Some(s) && !s.is_error,
    {
        if self.filter_input.as_str().unicode_len() == 0 {
            self.set_status(String::from_str("Filter already cleared"), false);
            return ;
        }
        self.filter_mode = false;
        self.filter_input = String::new();
        self.rebuild_visible();
        self.set_status(String::from_str("Filter cleared"), false);
    }

    /// Add a path to the marks unless it is already there, deduplicating
    /// the stored list.
    fn add_mark(&mut self, abs_path: &String) -> (r: FugaResult<()>)
        ensures
            r is Ok ==> final(self).config_repo.presets() == old(self).config_repo.presets(),
            (r is Ok && spec_migrated_marks(old(self).config_repo.data()).contains(abs_path@))
                ==> final(self).config_repo.data() == spec_migrate_data(
                old(self).config_repo.data(),
            ),
            (r is Ok && !spec_migrated_marks(old(self).config_repo.data()).contains(abs_path@))
                ==> final(self).config_repo.data() == (DataView {
                targets: spec_dedupe(
                    spec_migrated_marks(old(self).config_repo.data()).push(abs_path@),
                ),
                legacy: None,
            }),
    {
        let mut marks = match self.config_repo.get_marked_targets() {
            Ok(m) => m,
            Err(e) => {
                return Err(e);
            },
        };
        if contains_str(&marks, abs_path) {
            return Ok(());
        }
        marks.push(abs_path.clone());
        let ghost pushed = seq_views(marks@);
        proof {
            assert(pushed =~= spec_migrated_marks(old(self).config_repo.data()).push(abs_path@));
        }
        dedupe_preserving_order(&mut marks);
        match self.config_repo.set_marked_targets(marks.as_slice()) {
            Ok(()) => Ok(()),
            Err(e) => Err(e),
        }
    }

    /// Remove every occurrence of a path from the marks.
    fn remove_mark(&mut self, abs_path: &String) -> (r: FugaResult<()>)
        ensures
            r is Ok ==> final(self).config_repo.presets() == old(self).config_repo.presets(),
            r is Ok ==> final(self).config_repo.data().targets == spec_dedupe(
                spec_remove_all(
                    spec_migrated_marks(old(self).config_repo.data()),
                    abs_path@,
                ),
            ) && final(self).config_repo.data().legacy is None,
    {
        let marks = match self.config_repo.get_marked_targets() {
            Ok(m) => m,
            Err(e) => {
                return Err(e);
            },
        };
        let mut kept = remove_matching(&marks, abs_path);
        match self.config_repo.reset_marks() {
            Ok(()) => {},
            Err(e) => {
                return Err(e);
            },
        }
        if kept.len() > 0 {
            dedupe_preserving_order(&mut kept);
            match self.config_repo.set_marked_targets(kept.as_slice()) {
                Ok(()) => {},
                Err(e) => {
                    return Err(e);
                },
            }
        } else {
            proof {
                assert(seq_views(kept@).len() == 0);
                assert(spec_dedupe(seq_views(kept@)) =~= Seq::<Seq<char>>::empty());
            }
        }
        Ok(())
    }

    /// Toggle the mark on the selected entry: marked paths are unmarked,
    /// unmarked ones are marked, and a path that vanished from disk only
    /// reports an error without touching the marks.
    pub fn toggle_mark(&mut self) -> (r: FugaResult<()>)
        ensures
            r is Ok ==> final(self).config_repo.presets() == old(self).config_repo.presets(),
            r is Ok ==> spec_toggle_outcome(*old(self), *final(self)),
            spec_selected_entry(*old(self)) is None ==> r is Ok && *final(self) == *old(self),
    {
        let idx = match self.selected_entry_index() {
            Some(i) => i,
            None => {
                return Ok(());
            },
        };
        let abs_path = self.entries[idx].abs_path.clone();
        if abs_path.as_str().unicode_len() == 0 {
            return Ok(());
        }
        let info = match self.fs_service.get_file_info(abs_path.as_str()) {
            Ok(i) => i,
            Err(e) => {
                return Err(e);
            },
        };
        if !info.exists {
            self.set_status(String::from_str("Cannot mark missing path"), true);
            return Ok(());
        }
        if contains_str(&self.marks, &abs_path) {
            match self.remove_mark(&abs_path) {
                Ok(()) => {},
                Err(e) => {
                    return Err(e);
                },
            }
            let mut text = String::from_str("Removed mark ");
            text.append(abs_path.as_str());
            self.set_status(text, false);
        } else {
            match self.add_mark(&abs_path) {
                Ok(()) => {},
                Err(e) => {
                    return Err(e);
                },
            }
            let mut text = String::from_str("Marked ");
            text.append(abs_path.as_str());
            self.set_status(text, false);
        }
        match self.refresh_marks() {
            Ok(()) => Ok(()),
            Err(e) => Err(e),
        }
    }

    /// Ask for confirmation before clearing the marks.
    pub fn request_reset(&mut self)
        ensures
            final(self).confirmation matches Some(c) && c is ResetMarks,
            final(self).status is None,
            final(self).config_repo == old(self).config_repo,
    {
        self.confirmation = Some(Confirmation::ResetMarks);
        self.status = None;
    }

    /// Clear the whole mark list.
    pub fn execute_reset_marks(&mut self) -> (r: FugaResult<()>)
        ensures
            r is Ok ==> final(self).config_repo.data().targets.len() == 0 && final(self).config_repo.data().legacy is None && final(self).config_repo.presets() == old(self).config_repo.presets() && final(self).marks@.len() == 0,
            r is Ok ==> (final(self).status matches Some(st) && !st.is_error && st.text@ == "Marks cleared"@),
    {
        match self.config_repo.reset_marks() {
            Ok(()) => {},
            Err(e) => {
                return Err(e);
            },
        }
        match self.refresh_marks() {
            Ok(()) => {},
            Err(e) => {
                return Err(e);
            },
        }
        proof {
            assert(seq_views(self.marks@).len() == self.marks@.len());
        }
        self.set_status(String::from_str("Marks cleared"), false);
        Ok(())
    }

    /// Open the preset loader over the saved names.
    pub fn open_preset_loader(&mut self) -> (r: FugaResult<()>)
        ensures
            r is Ok ==> (final(self).preset_ui matches Some(p) && p.mode is Load && seq_views(
                p.items@,
            ).to_set() == old(self).config_repo.presets().dom() && p.selection == 0
                && p.filter_input@.len() == 0 && !p.filter_mode && indices_as_int(
                p.visible_indices@,
            ) == crate::preset_ui::spec_preset_visible(p.items@, p.mode, p.filter_input@)),
            r is Ok ==> final(self).status is None,
            final(self).config_repo.data() == old(self).config_repo.data() && final(self).config_repo.presets() == old(self).config_repo.presets(),
    {
        let items = match self.config_repo.list_presets() {
            Ok(i) => i,
            Err(e) => {
                return Err(e);
            },
        };
        let mut popup = PresetUiState::new(PresetUiMode::Load, items);
        popup.rebuild_visible();
        self.preset_ui = Some(popup);
        self.status = None;
        Ok(())
    }

    /// Open the preset saver, with the create-new entry leading the list.
    pub fn open_preset_saver(&mut self) -> (r: FugaResult<()>)
        ensures
            r is Ok ==> (final(self).preset_ui matches Some(p) && p.mode is Save && p.items@.len()
                > 0 && p.items@[0]@ == crate::preset_ui::spec_create_new_label() && seq_views(
                p.items@.drop_first(),
            ).to_set() == old(self).config_repo.presets().dom() && p.selection == 0
                && p.filter_input@.len() == 0 && !p.filter_mode && indices_as_int(
                p.visible_indices@,
            ) == crate::preset_ui::spec_preset_visible(p.items@, p.mode, p.filter_input@)),
            r is Ok ==> final(self).status is None,
            final(self).config_repo.data() == old(self).config_repo.data() && final(self).config_repo.presets() == old(self).config_repo.presets(),
    {
        let mut items = match self.config_repo.list_presets() {
            Ok(i) => i,
            Err(e) => {
                return Err(e);
            },
        };
        let ghost names = items@;
        items.insert(0, String::from_str(create_new_label()));
        proof {
            assert(items@.drop_first() =~= names);
        }
        let mut popup = PresetUiState::new(PresetUiMode::Save, items);
        popup.rebuild_visible();
        self.preset_ui = Some(popup);
        self.status = None;
        Ok(())
    }

    /// Close the popup and any prompt layered over it.
    pub fn close_preset_ui(&mut self)
        ensures
            final(self).preset_ui is None,
            final(self).confirmation is None,
            final(self).input_prompt is None,
            *final(self) == (DashboardApp {
                preset_ui: None,
                confirmation: None,
                input_prompt: None,
                ..*old(self)
            }),
    {
        self.preset_ui = None;
        self.confirmation = None;
        self.input_prompt = None;
    }

    /// Reload the popup's items from the repository, keeping the previous
    /// selection by name where it is still present.
    pub fn reload_preset_items(&mut self) -> (r: FugaResult<()>)
        ensures
            final(self).config_repo.data() == old(self).config_repo.data() && final(self).config_repo.presets() == old(self).config_repo.presets(),
            old(self).preset_ui is None ==> *final(self) == *old(self) && r is Ok,
            old(self).preset_ui matches Some(pp) ==> (r is Ok ==> (final(self).preset_ui matches Some(q) && q.mode == pp.mode && (q.mode is Load ==> seq_views(q.items@).to_set() == old(self).config_repo.presets().dom()) && (q.mode is Save ==> q.items@.len() > 0 && q.items@[0]@ == crate::preset_ui::spec_create_new_label() && seq_views(q.items@.drop_first()).to_set() == old(self).config_repo.presets().dom()))),
            *final(self) == (DashboardApp {
                config_repo: final(self).config_repo,
                preset_ui: final(self).preset_ui,
                ..*old(self)
            }),
    {
        let previous: Option<String> = match &self.preset_ui {
            Some(p) => p.selected_item(),
            None => {
                return Ok(());
            },
        };
        let mode_is_save = match &self.preset_ui {
            Some(p) => match p.mode {
                PresetUiMode::Save => true,
                PresetUiMode::Load => false,
            },
            None => false,
        };
        let mut items = match self.config_repo.list_presets() {
            Ok(i) => i,
            Err(e) => {
                return Err(e);
            },
        };
        let ghost names = items@;
        if mode_is_save {
            items.insert(0, String::from_str(create_new_label()));
            proof {
                assert(items@.drop_first() =~= names);
            }
        }
        match &mut self.preset_ui {
            Some(p) => {
                p.items = items;
                p.rebuild_visible();
            },
            None => {},
        }
        match previous {
            Some(prev) => {
                self.select_preset(prev.as_str());
            },
            None => {},
        }
        Ok(())
    }

    /// Highlight the named preset where it is visible.
    pub fn select_preset(&mut self, name: &str)
        ensures
            final(self).config_repo == old(self).config_repo,
            old(self).preset_ui is None ==> *final(self) == *old(self),
            old(self).preset_ui matches Some(p) ==> (final(self).preset_ui matches Some(q) && q.items == p.items && q.visible_indices == p.visible_indices && q.mode == p.mode && q.filter_input == p.filter_input && q.filter_mode == p.filter_mode),
            *final(self) == (DashboardApp { preset_ui: final(self).preset_ui, ..*old(self) }),
    {
        let pos_opt: Option<usize> = match &self.preset_ui {
            Some(popup) => {
                match find_string_index(&popup.items, name) {
                    Some(idx) => find_usize_index(&popup.visible_indices, idx),
                    None => None,
                }
            },
            None => None,
        };
        match pos_opt {
            Some(pos) => {
                match &mut self.preset_ui {
                    Some(popup) => {
                        popup.selection = pos;
                    },
                    None => {},
                }
            },
            None => {},
        }
    }

    /// One key press while the preset popup is open.
    pub fn handle_preset_key(&mut self, key: &KeyInput) -> (r: FugaResult<KeyOutcome>)
        ensures
            r matches Ok(o) ==> !(o is LoadDirectory) && !(o is Exit),
            old(self).preset_ui is None ==> (r matches Ok(o) && o is Stay && *final(self) == *old(self)),
            old(self).preset_ui matches Some(p) ==> ((!p.filter_mode && key.code == KeyCode::Esc) ==> (r is Ok && final(self).preset_ui is None && final(self).confirmation is None && final(self).input_prompt is None && final(self).config_repo == old(self).config_repo)),
            old(self).preset_ui matches Some(p) ==> ((!p.filter_mode && (key.code == KeyCode::Char('j') || key.code == KeyCode::Down)) ==> (r is Ok && final(self).config_repo == old(self).config_repo && (final(self).preset_ui matches Some(q) && q.items == p.items && q.visible_indices == p.visible_indices && q.mode == p.mode && (p.visible_indices@.len() == 0 ==> q.selection == p.selection) && (p.visible_indices@.len() > 0 ==> q.selection as int == spec_clamp(p.selection as int + 1, p.visible_indices@.len() as int))))),
            old(self).preset_ui matches Some(p) ==> ((!p.filter_mode && (key.code == KeyCode::Char('k') || key.code == KeyCode::Up)) ==> (r is Ok && final(self).config_repo == old(self).config_repo && (final(self).preset_ui matches Some(q) && q.items == p.items && q.visible_indices == p.visible_indices && q.mode == p.mode && (p.visible_indices@.len() == 0 ==> q.selection == p.selection) && (p.visible_indices@.len() > 0 ==> q.selection as int == spec_clamp(p.selection as int - 1, p.visible_indices@.len() as int))))),
            old(self).preset_ui matches Some(p) ==> (crate::preset_ui::spec_popup_selected(p) matches Some(nm) ==> ((!p.filter_mode && key.code == KeyCode::Enter && p.mode is Load) ==> (r is Ok && ({
                ||| (old(self).config_repo.presets().contains_key(nm) && final(self).config_repo.data() == spec_migrate_data((DataView { targets: old(self).config_repo.presets()[nm], legacy: None })) && final(self).config_repo.presets() == old(self).config_repo.presets() && final(self).preset_ui is None && (final(self).status matches Some(st) && !st.is_error))
                ||| ((final(self).status matches Some(st) && st.is_error) && final(self).config_repo.presets() == old(self).config_repo.presets())
            })))),
            old(self).preset_ui matches Some(p) ==> (crate::preset_ui::spec_popup_selected(p) matches Some(nm) ==> ((!p.filter_mode && key.code == KeyCode::Enter && p.mode is Save) ==> (r is Ok && final(self).config_repo == old(self).config_repo && (if nm == crate::preset_ui::spec_create_new_label() {
                final(self).input_prompt is Some
            } else {
                final(self).confirmation matches Some(c) && (c matches Confirmation::PresetOverwrite { name } && name@ == nm)
            })))),
            old(self).preset_ui matches Some(p) ==> (crate::preset_ui::spec_popup_selected(p) matches Some(nm) ==> ((!p.filter_mode && (key.code == KeyCode::Char('D') || key.code == KeyCode::Char('x')) && nm != crate::preset_ui::spec_create_new_label()) ==> (r is Ok && final(self).config_repo == old(self).config_repo && (final(self).confirmation matches Some(c) && (c matches Confirmation::PresetDelete { name } && name@ == nm))))),
    {
        let (popup_present, filter_mode_active) = match &self.preset_ui {
            Some(p) => (true, p.filter_mode),
            None => (false, false),
        };
        if !popup_present {
            return Ok(KeyOutcome::Stay);
        }
        if filter_mode_active {
            match key.code {
                KeyCode::Esc => {
                    match &mut self.preset_ui {
                        Some(p) => {
                            p.filter_mode = false;
                            p.filter_input = String::new();
                            p.rebuild_visible();
                        },
                        None => {},
                    }
                },
                KeyCode::Enter => {
                    match &mut self.preset_ui {
                        Some(p) => {
                            p.filter_mode = false;
                        },
                        None => {},
                    }
                },
                KeyCode::Backspace => {
                    match &mut self.preset_ui {
                        Some(p) => {
                            let nf = drop_last_char(p.filter_input.as_str());
                            p.filter_input = nf;
                            p.rebuild_visible();
                        },
                        None => {},
                    }
                },
                KeyCode::Char(ch) => {
                    if !key.ctrl {
                        match &mut self.preset_ui {
                            Some(p) => {
                                push_char(&mut p.filter_input, ch);
                                p.rebuild_visible();
                            },
                            None => {},
                        }
                    }
                },
                _ => {},
            }
            return Ok(KeyOutcome::Stay);
        }
        match key.code {
            KeyCode::Char('/') => {
                match &mut self.preset_ui {
                    Some(p) => {
                        p.filter_mode = true;
                        p.filter_input = String::new();
                    },
                    None => {},
                }
            },
            KeyCode::Char('j') | KeyCode::Down => {
                match &mut self.preset_ui {
                    Some(p) => p.move_selection(1),
                    None => {},
                }
            },
            KeyCode::Char('k') | KeyCode::Up => {
                match &mut self.preset_ui {
                    Some(p) => p.move_selection(-1),
                    None => {},
                }
            },
            KeyCode::Esc => {
                self.close_preset_ui();
            },
            KeyCode::Enter => {
                let item_opt = match &self.preset_ui {
                    Some(p) => p.selected_item(),
                    None => None,
                };
                let is_save = match &self.preset_ui {
                    Some(p) => match p.mode {
                        PresetUiMode::Save => true,
                        PresetUiMode::Load => false,
                    },
                    None => false,
                };
                match item_opt {
                    Some(item) => {
                        let is_create = match &self.preset_ui {
                            Some(p) => p.is_create_new(item.as_str()),
                            None => false,
                        };
                        if is_save {
                            if is_create {
                                self.input_prompt = Some(
                                    InputPromptState::new(InputPromptKind::NewPreset),
                                );
                            } else {
                                self.confirmation = Some(
                                    Confirmation::PresetOverwrite { name: item },
                                );
                            }
                        } else {
                            match self.trigger_preset_load(item.as_str()) {
                                Ok(()) => {},
                                Err(e) => {
                                    return Err(e);
                                },
                            }
                        }
                    },
                    None => {},
                }
            },
            KeyCode::Char('D') | KeyCode::Char('x') => {
                let item_opt = match &self.preset_ui {
                    Some(p) => p.selected_item(),
                    None => None,
                };
                match item_opt {
                    Some(item) => {
                        let is_create = match &self.preset_ui {
                            Some(p) => p.is_create_new(item.as_str()),
                            None => false,
                        };
                        if !is_create {
                            self.confirmation = Some(Confirmation::PresetDelete { name: item });
                        }
                    },
                    None => {},
                }
            },
            _ => {},
        }
        Ok(KeyOutcome::Stay)
    }

    /// Load a preset into the popup's session: success closes the popup
    /// and reports the new count; failure stays open with an error status.
    pub fn trigger_preset_load(&mut self, name: &str) -> (r: FugaResult<()>)
        ensures
            r is Ok,
            ({
                ||| (old(self).config_repo.presets().contains_key(name@) && final(self).config_repo.data() == spec_migrate_data(
                    (DataView { targets: old(self).config_repo.presets()[name@], legacy: None }),
                ) && seq_views(final(self).marks@) == spec_migrated_marks(
                    (DataView { targets: old(self).config_repo.presets()[name@], legacy: None }),
                ) && final(self).config_repo.presets() == old(self).config_repo.presets() && final(self).preset_ui is None && (final(self).status matches Some(st) && !st.is_error))
                ||| ((final(self).status matches Some(st) && st.is_error) && final(self).preset_ui == old(self).preset_ui && final(self).config_repo.presets() == old(self).config_repo.presets())
            }),
    {
        match self.load_preset_by_name(name) {
            Ok(count) => {
                self.close_preset_ui();
                let mut text = String::from_str("Loaded preset '");
                text.append(name);
                text.append("' (");
                text.append(decimal_string(count).as_str());
                text.append(" target(s))");
                self.set_status(text, false);
            },
            Err(err) => {
                self.set_status(err.message().as_str().to_owned(), true);
            },
        }
        Ok(())
    }

    /// Replace the mark list with the named preset's contents.
    pub fn load_preset_by_name(&mut self, name: &str) -> (r: FugaResult<usize>)
        ensures
            r is Ok ==> old(self).config_repo.presets().contains_key(name@),
            r matches Ok(n) ==> n == old(self).config_repo.presets()[name@].len() && final(self).config_repo.data() == spec_migrate_data(
                DataView { targets: old(self).config_repo.presets()[name@], legacy: None },
            ) && final(self).config_repo.presets() == old(self).config_repo.presets() && seq_views(final(self).marks@) == spec_migrated_marks(
                DataView { targets: old(self).config_repo.presets()[name@], legacy: None },
            ),
            !old(self).config_repo.presets().contains_key(name@) ==> !(r is Ok),
            !(r is Ok) ==> final(self).config_repo.presets() == old(self).config_repo.presets(),
            *final(self) == (DashboardApp {
                config_repo: final(self).config_repo,
                marks: final(self).marks,
                ..*old(self)
            }),
    {
        let preset = match self.config_repo.get_preset(name) {
            Ok(Some(p)) => p,
            Ok(None) => {
                let mut m = String::from_str("Preset '");
                m.append(name);
                m.append("' not found.");
                return Err(FugaError::OperationFailed(m));
            },
            Err(e) => {
                return Err(e);
            },
        };
        match self.config_repo.set_marked_targets(preset.as_slice()) {
            Ok(()) => {},
            Err(e) => {
                return Err(e);
            },
        }
        match self.refresh_marks() {
            Ok(()) => {},
            Err(e) => {
                return Err(e);
            },
        }
        Ok(preset.len())
    }

    /// Save the live mark list under the name and refresh the popup.
    pub fn save_current_marks_to_preset(&mut self, name: &str) -> (r: FugaResult<usize>)
        ensures
            r is Ok ==> final(self).config_repo.presets() == old(self).config_repo.presets().insert(
                name@,
                spec_migrated_marks(old(self).config_repo.data()),
            ),
            !(r is Ok) ==> final(self).config_repo.presets() == old(self).config_repo.presets() || final(self).config_repo.presets() == old(self).config_repo.presets().insert(
                name@,
                spec_migrated_marks(old(self).config_repo.data()),
            ),
            *final(self) == (DashboardApp {
                config_repo: final(self).config_repo,
                marks: final(self).marks,
                preset_ui: final(self).preset_ui,
                ..*old(self)
            }),
    {
        match self.refresh_marks() {
            Ok(()) => {},
            Err(e) => {
                return Err(e);
            },
        }
        match self.config_repo.save_preset(name, self.marks.as_slice()) {
            Ok(()) => {},
            Err(e) => {
                return Err(e);
            },
        }
        match self.reload_preset_items() {
            Ok(()) => {},
            Err(e) => {
                return Err(e);
            },
        }
        self.select_preset(name);
        Ok(self.marks.len())
    }

    /// Delete the named preset and refresh the popup when it was there.
    pub fn delete_preset_by_name(&mut self, name: &str) -> (r: FugaResult<bool>)
        ensures
            r matches Ok(b) ==> b == old(self).config_repo.presets().contains_key(name@),
            r is Ok ==> final(self).config_repo.presets() == old(self).config_repo.presets().remove(
                name@,
            ) && final(self).config_repo.data() == old(self).config_repo.data(),
    {
        let deleted = match self.config_repo.delete_preset(name) {
            Ok(b) => b,
            Err(e) => {
                return Err(e);
            },
        };
        if deleted {
            match self.reload_preset_items() {
                Ok(()) => {},
                Err(e) => {
                    return Err(e);
                },
            }
        }
        Ok(deleted)
    }

    /// One key press while the free-text prompt is open.
    pub fn handle_input_prompt_key(&mut self, key: &KeyInput) -> (r: FugaResult<()>)
        ensures
            old(self).input_prompt is None ==> *final(self) == *old(self) && r is Ok,
            (old(self).input_prompt is Some && key.code is Esc) ==> final(self).input_prompt is None
                && final(self).config_repo == old(self).config_repo && r is Ok,
            old(self).input_prompt matches Some(ip) ==> (key.code matches KeyCode::Char(ch) ==> (!key.ctrl ==> (r is Ok && (final(self).input_prompt matches Some(q) && q.buffer@ == ip.buffer@.push(ch)) && final(self).config_repo == old(self).config_repo))),
            old(self).input_prompt matches Some(ip) ==> (key.code == KeyCode::Backspace ==> (r is Ok && (final(self).input_prompt matches Some(q) && q.buffer@ == (if ip.buffer@.len() > 0 {
                ip.buffer@.drop_last()
            } else {
                ip.buffer@
            })) && final(self).config_repo == old(self).config_repo)),
            old(self).input_prompt matches Some(ip) ==> ((key.code == KeyCode::Enter && crate::ui::spec_trim(ip.buffer@).len() == 0) ==> (r is Ok && final(self).input_prompt == old(self).input_prompt && final(self).config_repo == old(self).config_repo && (final(self).status matches Some(st) && st.is_error && st.text@ == "Preset name cannot be empty."@))),
            old(self).input_prompt matches Some(ip) ==> ((key.code == KeyCode::Enter && crate::ui::spec_trim(ip.buffer@).len() > 0) ==> (r is Ok && ({
                ||| (final(self).config_repo.presets() == old(self).config_repo.presets().insert(crate::ui::spec_trim(ip.buffer@), spec_migrated_marks(old(self).config_repo.data())) && final(self).input_prompt is None && (final(self).status matches Some(st) && !st.is_error))
                ||| ((final(self).status matches Some(st) && st.is_error) && final(self).input_prompt == old(self).input_prompt)
            }))),
    {
        let buffer = match &self.input_prompt {
            Some(p) => p.buffer.clone(),
            None => {
                return Ok(());
            },
        };
        match key.code {
            KeyCode::Esc => {
                self.input_prompt = None;
            },
            KeyCode::Enter => {
                let name = trim_spaces(buffer.as_str());
                if name.as_str().unicode_len() == 0 {
                    self.set_status(String::from_str("Preset name cannot be empty."), true);
                    return Ok(());
                }
                match self.save_current_marks_to_preset(name.as_str()) {
                    Ok(count) => {
                        let mut text = String::from_str("Preset '");
                        text.append(name.as_str());
                        text.append("' saved with ");
                        text.append(decimal_string(count).as_str());
                        text.append(" target(s).");
                        self.set_status(text, false);
                        self.input_prompt = None;
                    },
                    Err(err) => {
                        self.set_status(err.message().as_str().to_owned(), true);
                    },
                }
            },
            KeyCode::Backspace => {
                match &mut self.input_prompt {
                    Some(p) => {
                        let nb = drop_last_char(p.buffer.as_str());
                        p.buffer = nb;
                    },
                    None => {},
                }
            },
            KeyCode::Char(ch) => {
                if !key.ctrl {
                    match &mut self.input_prompt {
                        Some(p) => {
                            push_char(&mut p.buffer, ch);
                        },
                        None => {},
                    }
                }
            },
            _ => {},
        }
        Ok(())
    }

    /// One key press while a confirmation is pending: y runs the pending
    /// action, n or Escape cancels with a notice and touches nothing.
    pub fn handle_confirmation_key(&mut self, key: &KeyInput) -> (r: FugaResult<()>)
        ensures
            old(self).confirmation is None ==> *final(self) == *old(self) && r is Ok,
            (old(self).confirmation is Some && spec_is_no_key(key.code)) ==> final(self).confirmation is None && final(self).config_repo == old(self).config_repo && r is Ok,
            (old(self).confirmation is Some && !spec_is_yes_key(key.code) && !spec_is_no_key(key.code)) ==> *final(self) == *old(self) && r is Ok,
            (old(self).confirmation matches Some(c) && c is ResetMarks && spec_is_yes_key(key.code))
                ==> (r is Ok ==> final(self).confirmation is None && final(self).config_repo.data().targets.len() == 0 && final(self).config_repo.data().legacy is None && final(self).config_repo.presets() == old(self).config_repo.presets()),
            old(self).confirmation matches Some(c) ==> ((c is ResetMarks && spec_is_no_key(key.code)) ==> (final(self).status matches Some(st) && !st.is_error && st.text@ == "Reset cancelled"@)),
            old(self).confirmation matches Some(c) ==> (c matches Confirmation::PresetOverwrite { name } ==> (spec_is_yes_key(key.code) ==> (r is Ok && final(self).confirmation is None && ({
                ||| (final(self).config_repo.presets() == old(self).config_repo.presets().insert(name@, spec_migrated_marks(old(self).config_repo.data())) && (final(self).status matches Some(st) && !st.is_error))
                ||| (final(self).status matches Some(st) && st.is_error)
            })))),
            old(self).confirmation matches Some(c) ==> (c matches Confirmation::PresetDelete { name } ==> (spec_is_yes_key(key.code) ==> (r is Ok && final(self).confirmation is None && ({
                ||| (final(self).config_repo.presets() == old(self).config_repo.presets().remove(name@) && final(self).config_repo.data() == old(self).config_repo.data())
                ||| (final(self).status matches Some(st) && st.is_error)
            })))),
    {
        let current: Confirmation = match &self.confirmation {
            Some(Confirmation::ResetMarks) => Confirmation::ResetMarks,
            Some(Confirmation::PresetOverwrite { name }) => Confirmation::PresetOverwrite {
                name: name.clone(),
            },
            Some(Confirmation::PresetDelete { name }) => Confirmation::PresetDelete {
                name: name.clone(),
            },
            None => {
                return Ok(());
            },
        };
        match current {
            Confirmation::ResetMarks => {
                match key.code {
                    KeyCode::Char('y') | KeyCode::Char('Y') => {
                        match self.execute_reset_marks() {
                            Ok(()) => {},
                            Err(e) => {
                                return Err(e);
                            },
                        }
                        self.confirmation = None;
                    },
                    KeyCode::Esc | KeyCode::Char('n') | KeyCode::Char('N') => {
                        self.set_status(String::from_str("Reset cancelled"), false);
                        self.confirmation = None;
                    },
                    _ => {},
                }
            },
            Confirmation::PresetOverwrite { name } => {
                match key.code {
                    KeyCode::Char('y') | KeyCode::Char('Y') => {
                        match self.save_current_marks_to_preset(name.as_str()) {
                            Ok(count) => {
                                let mut text = String::from_str("Preset '");
                                text.append(name.as_str());
                                text.append("' overwritten with ");
                                text.append(decimal_string(count).as_str());
                                text.append(" target(s).");
                                self.set_status(text, false);
                                self.confirmation = None;
                            },
                            Err(err) => {
                                self.set_status(err.message().as_str().to_owned(), true);
                                self.confirmation = None;
                            },
                        }
                    },
                    KeyCode::Esc | KeyCode::Char('n') | KeyCode::Char('N') => {
                        let mut text = String::from_str("Overwrite of '");
                        text.append(name.as_str());
                        text.append("' cancelled");
                        self.set_status(text, false);
                        self.confirmation = None;
                    },
                    _ => {},
                }
            },
            Confirmation::PresetDelete { name } => {
                match key.code {
                    KeyCode::Char('y') | KeyCode::Char('Y') => {
                        match self.delete_preset_by_name(name.as_str()) {
                            Ok(true) => {
                                let mut text = String::from_str("Preset '");
                                text.append(name.as_str());
                                text.append("' deleted");
                                self.set_status(text, false);
                                self.confirmation = None;
                            },
                            Ok(false) => {
                                let mut text = String::from_str("Preset '");
                                text.append(name.as_str());
                                text.append("' not found");
                                self.set_status(text, true);
                                self.confirmation = None;
                            },
                            Err(err) => {
                                self.set_status(err.message().as_str().to_owned(), true);
                                self.confirmation = None;
                            },
                        }
                    },
                    KeyCode::Esc | KeyCode::Char('n') | KeyCode::Char('N') => {
                        let mut text = String::from_str("Delete of '");
                        text.append(name.as_str());
                        text.append("' cancelled");
                        self.set_status(text, false);
                        self.confirmation = None;
                    },
                    _ => {},
                }
            },
        }
        Ok(())
    }

    /// Consume one key press, in strict overlay precedence: help, then the
    /// text prompt, then a pending confirmation, then the preset popup,
    /// then the filter, then the browse bindings. In browse, q and Escape
    /// quit, and c, v and s end the session asking for copy, move or link
    /// into the current directory.
    pub fn on_key(&mut self, key: KeyInput) -> (r: FugaResult<KeyOutcome>)
        ensures
            old(self).help_open ==> (r matches Ok(o) && o is Stay && final(self).config_repo == old(self).config_repo && final(self).help_open == !(key.code == KeyCode::Char('?') || key.code == KeyCode::F(1) || key.code == KeyCode::Esc) && *final(self) == (DashboardApp { help_open: final(self).help_open, ..*old(self) })),
            (!old(self).help_open && old(self).input_prompt is Some) ==> (r matches Ok(o) ==> o is Stay),
            (!old(self).help_open && old(self).input_prompt is None && old(self).confirmation is Some) ==> (r matches Ok(o) ==> o is Stay),
            (!old(self).help_open && old(self).input_prompt is None && old(self).confirmation is None && old(self).preset_ui is Some) ==> (r matches Ok(o) ==> !(o is Exit) && !(o is LoadDirectory)),
            (!old(self).help_open && old(self).input_prompt is None && old(self).confirmation is None && old(self).preset_ui is None && old(self).filter_mode) ==> (r matches Ok(o) ==> o is Stay),
            (spec_in_browse(*old(self)) && !key.ctrl && key.code == KeyCode::Char('q')) ==> (r matches Ok(o) && o matches KeyOutcome::Exit(e) && e is Quit),
            (spec_in_browse(*old(self)) && !key.ctrl && key.code == KeyCode::Esc) ==> (r matches Ok(o) && o matches KeyOutcome::Exit(e) && e is Quit),
            (spec_in_browse(*old(self)) && !key.ctrl && key.code == KeyCode::Char('c')) ==> (r matches Ok(o) && o matches KeyOutcome::Exit(e) && (e matches DashboardExit::Copy(d) && d@ == old(self).current_dir@)),
            (spec_in_browse(*old(self)) && !key.ctrl && key.code == KeyCode::Char('v')) ==> (r matches Ok(o) && o matches KeyOutcome::Exit(e) && (e matches DashboardExit::Move(d) && d@ == old(self).current_dir@)),
            (spec_in_browse(*old(self)) && !key.ctrl && key.code == KeyCode::Char('s')) ==> (r matches Ok(o) && o matches KeyOutcome::Exit(e) && (e matches DashboardExit::Link(d) && d@ == old(self).current_dir@)),
            (spec_in_browse(*old(self)) && key.ctrl && key.code == KeyCode::Char('c')) ==> (r matches Ok(o) && o matches KeyOutcome::Exit(e) && e is Quit),
            (spec_in_browse(*old(self)) && !key.ctrl && !(key.code == KeyCode::Char('q') || key.code == KeyCode::Char('c') || key.code == KeyCode::Char('v') || key.code == KeyCode::Char('s') || key.code == KeyCode::Esc)) ==> (r matches Ok(o) ==> !(o is Exit)),
            (spec_in_browse(*old(self)) && !key.ctrl && (key.code == KeyCode::Char('j') || key.code == KeyCode::Down)) ==> (r matches Ok(o) && o is Stay && (old(self).visible_indices@.len() == 0 ==> final(self).selection == old(self).selection) && (old(self).visible_indices@.len() > 0 ==> final(self).selection as int == spec_clamp(old(self).selection as int + 1, old(self).visible_indices@.len() as int)) && *final(self) == (DashboardApp { selection: final(self).selection, ..*old(self) })),
            (spec_in_browse(*old(self)) && !key.ctrl && (key.code == KeyCode::Char('k') || key.code == KeyCode::Up)) ==> (r matches Ok(o) && o is Stay && (old(self).visible_indices@.len() == 0 ==> final(self).selection == old(self).selection) && (old(self).visible_indices@.len() > 0 ==> final(self).selection as int == spec_clamp(old(self).selection as int - 1, old(self).visible_indices@.len() as int)) && *final(self) == (DashboardApp { selection: final(self).selection, ..*old(self) })),
            ((spec_in_browse(*old(self)) && !key.ctrl && key.code == KeyCode::Char('.')) || (spec_in_browse(*old(self)) && key.ctrl && key.code == KeyCode::Char('h'))) ==> (r matches Ok(o) && o is Stay && final(self).show_hidden == !old(self).show_hidden && indices_as_int(final(self).visible_indices@) == spec_visible_indices(old(self).entries@, !old(self).show_hidden, old(self).filter_input@)),
            (spec_in_browse(*old(self)) && !key.ctrl && key.code == KeyCode::Char('/')) ==> (r matches Ok(o) && o is Stay && final(self).filter_mode && final(self).filter_input@.len() == 0),
            (spec_in_browse(*old(self)) && !key.ctrl && (key.code == KeyCode::Char('m') || key.code == KeyCode::Char(' '))) ==> (r matches Ok(o) ==> o is Stay && spec_toggle_outcome(*old(self), *final(self))),
            (spec_in_browse(*old(self)) && !key.ctrl && key.code == KeyCode::Char('P')) ==> (r matches Ok(o) ==> o is Stay && (final(self).preset_ui matches Some(p) && p.mode is Load)),
            (spec_in_browse(*old(self)) && !key.ctrl && key.code == KeyCode::Char('S')) ==> (r matches Ok(o) ==> o is Stay && (final(self).preset_ui matches Some(p) && p.mode is Save)),
            ((spec_in_browse(*old(self)) && !key.ctrl && key.code == KeyCode::Char('R')) || (spec_in_browse(*old(self)) && key.ctrl && key.code == KeyCode::Char('r'))) ==> (r matches Ok(o) && o is Stay && (final(self).confirmation matches Some(c) && c is ResetMarks)),
            (spec_in_browse(*old(self)) && !key.ctrl && (key.code == KeyCode::Char('l') || key.code == KeyCode::Right || key.code == KeyCode::Enter)) ==> (r matches Ok(o) && (o is LoadDirectory == (spec_selected_entry(*old(self)) matches Some(e) && e.is_dir))),
            (spec_in_browse(*old(self)) && !key.ctrl && (key.code == KeyCode::Char('h') || key.code == KeyCode::Left || key.code == KeyCode::Backspace)) ==> (r matches Ok(o) && (o is LoadDirectory == (crate::paths::spec_parent(old(self).current_dir@) is Some))),
            spec_in_filter(*old(self)) ==> (key.code matches KeyCode::Char(ch) ==> (!key.ctrl ==> (r matches Ok(o) && o is Stay && final(self).filter_input@ == old(self).filter_input@.push(ch) && indices_as_int(final(self).visible_indices@) == spec_visible_indices(old(self).entries@, old(self).show_hidden, final(self).filter_input@)))),
            (spec_in_filter(*old(self)) && key.code == KeyCode::Backspace) ==> (r matches Ok(o) && o is Stay && final(self).filter_input@ == (if old(self).filter_input@.len() > 0 { old(self).filter_input@.drop_last() } else { old(self).filter_input@ }) && indices_as_int(final(self).visible_indices@) == spec_visible_indices(old(self).entries@, old(self).show_hidden, final(self).filter_input@)),
            (spec_in_filter(*old(self)) && key.code == KeyCode::Esc) ==> (r matches Ok(o) && o is Stay && !final(self).filter_mode && final(self).filter_input@.len() == 0 && indices_as_int(final(self).visible_indices@) == spec_visible_indices(old(self).entries@, old(self).show_hidden, final(self).filter_input@)),
            (spec_in_filter(*old(self)) && key.code == KeyCode::Enter) ==> (r matches Ok(o) && o is Stay && *final(self) == (DashboardApp { filter_mode: false, ..*old(self) })),
    {
        if self.help_open {
            match key.code {
                KeyCode::Char('?') | KeyCode::F(1) | KeyCode::Esc => {
                    self.help_open = false;
                },
                _ => {},
            }
            return Ok(KeyOutcome::Stay);
        }
        if self.input_prompt.is_some() {
            match self.handle_input_prompt_key(&key) {
                Ok(()) => {},
                Err(e) => {
                    return Err(e);
                },
            }
            return Ok(KeyOutcome::Stay);
        }
        if self.confirmation.is_some() {
            match self.handle_confirmation_key(&key) {
                Ok(()) => {},
                Err(e) => {
                    return Err(e);
                },
            }
            return Ok(KeyOutcome::Stay);
        }
        if self.preset_ui.is_some() {
            return self.handle_preset_key(&key);
        }
        if self.filter_mode {
            match key.code {
                KeyCode::Esc => {
                    self.filter_mode = false;
                    self.filter_input = String::new();
                    self.rebuild_visible();
                },
                KeyCode::Enter => {
                    self.filter_mode = false;
                },
                KeyCode::Backspace => {
                    let nf = drop_last_char(self.filter_input.as_str());
                    self.filter_input = nf;
                    self.rebuild_visible();
                },
                KeyCode::Char(ch) => {
                    if !key.ctrl {
                        push_char(&mut self.filter_input, ch);
                        self.rebuild_visible();
                    }
                },
                _ => {},
            }
            return Ok(KeyOutcome::Stay);
        }
        if key.ctrl {
            match key.code {
                KeyCode::Char('c') => {
                    return Ok(KeyOutcome::Exit(DashboardExit::Quit));
                },
                KeyCode::Char('h') => {
                    self.toggle_hidden();
                    return Ok(KeyOutcome::Stay);
                },
                KeyCode::Char('r') => {
                    self.request_reset();
                    return Ok(KeyOutcome::Stay);
                },
                KeyCode::Char('l') => {
                    self.clear_filter();
                    return Ok(KeyOutcome::Stay);
                },
                _ => {},
            }
        }
        match key.code {
            KeyCode::Char('q') => Ok(KeyOutcome::Exit(DashboardExit::Quit)),
            KeyCode::Char('c') => Ok(
                KeyOutcome::Exit(DashboardExit::Copy(self.current_dir.clone())),
            ),
            KeyCode::Char('v') => Ok(
                KeyOutcome::Exit(DashboardExit::Move(self.current_dir.clone())),
            ),
            KeyCode::Char('s') => Ok(
                KeyOutcome::Exit(DashboardExit::Link(self.current_dir.clone())),
            ),
            KeyCode::Char('P') => {
                match self.open_preset_loader() {
                    Ok(()) => Ok(KeyOutcome::Stay),
                    Err(e) => Err(e),
                }
            },
            KeyCode::Char('S') => {
                match self.open_preset_saver() {
                    Ok(()) => Ok(KeyOutcome::Stay),
                    Err(e) => Err(e),
                }
            },
            KeyCode::Char('?') | KeyCode::F(1) => {
                self.help_open = true;
                Ok(KeyOutcome::Stay)
            },
            KeyCode::Esc => Ok(KeyOutcome::Exit(DashboardExit::Quit)),
            KeyCode::Char('/') => {
                self.filter_mode = true;
                self.filter_input = String::new();
                Ok(KeyOutcome::Stay)
            },
            KeyCode::Char('.') => {
                self.toggle_hidden();
                Ok(KeyOutcome::Stay)
            },
            KeyCode::Char('m') | KeyCode::Char(' ') => {
                match self.toggle_mark() {
                    Ok(()) => Ok(KeyOutcome::Stay),
                    Err(e) => Err(e),
                }
            },
            KeyCode::Char('j') | KeyCode::Down => {
                self.move_selection(1);
                Ok(KeyOutcome::Stay)
            },
            KeyCode::Char('k') | KeyCode::Up => {
                self.move_selection(-1);
                Ok(KeyOutcome::Stay)
            },
            KeyCode::Char('l') | KeyCode::Right | KeyCode::Enter => Ok(self.enter_directory()),
            KeyCode::Char('h') | KeyCode::Left | KeyCode::Backspace => Ok(self.go_parent()),
            KeyCode::Char('R') => {
                self.request_reset();
                Ok(KeyOutcome::Stay)
            },
            _ => Ok(KeyOutcome::Stay),
        }
    }

    /// The one-line prompt text under the view, per the active mode, with
    /// the last status appended.
    pub fn status_line_text(&self) -> (r: String) {
        let mut base = if self.filter_mode {
            let mut s = String::from_str("Filter: ");
            s.append(self.filter_input.as_str());
            s.append("_");
            s
        } else {
            match &self.input_prompt {
                Some(prompt) => {
                    let mut s = String::from_str("New preset name: ");
                    s.append(prompt.buffer.as_str());
                    s.append("_");
                    s
                },
                None => {
                    match &self.confirmation {
                        Some(Confirmation::ResetMarks) => String::from_str("Reset marks? [y/N]"),
                        Some(Confirmation::PresetOverwrite { name }) => {
                            let mut s = String::from_str("Preset '");
                            s.append(name.as_str());
                            s.append("' already exists. Overwrite? [y/N]");
                            s
                        },
                        Some(Confirmation::PresetDelete { name }) => {
                            let mut s = String::from_str("Delete preset '");
                            s.append(name.as_str());
                            s.append("' ? [y/N]");
                            s
                        },
                        None => {
                            match &self.preset_ui {
                                Some(p) => {
                                    match p.mode {
                                        PresetUiMode::Load => String::from_str(
                                            "Preset loader: [j]/[k] move  [Enter] load  [/] search  [D]/[x] delete  [Esc] cancel",
                                        ),
                                        PresetUiMode::Save => String::from_str(
                                            "Preset saver: [j]/[k] move  [Enter] select  [/] search  [D]/[x] delete  [Esc] cancel",
                                        ),
                                    }
                                },
                                None => String::from_str(
                                    "[q] quit  [m]/[space] mark  [c] copy  [v] move  [s] link  [P] presets  [S] save preset  [/] filter  [Ctrl+l] clear filter  [.] hidden  [?] help",
                                ),
                            }
                        },
                    }
                },
            }
        };
        match &self.status {
            Some(status) => {
                base.append("  |  ");
                base.append(status.text.as_str());
            },
            None => {},
        }
        base
    }
}


/// The yes keys of a confirmation.
pub open spec fn spec_is_yes_key(code: KeyCode) -> bool {
    code == KeyCode::Char('y') || code == KeyCode::Char('Y')
}

/// The no keys of a confirmation.
pub open spec fn spec_is_no_key(code: KeyCode) -> bool {
    code == KeyCode::Esc || code == KeyCode::Char('n') || code == KeyCode::Char('N')
}

/// The first position holding the given string.
fn find_string_index(v: &Vec<String>, x: &str) -> (r: Option<usize>)
    ensures
        match r {
            Some(i) => (i as int) < v@.len() && v@[i as int]@ == x@,
            None => forall|t: int| 0 <= t < v@.len() ==> v@[t]@ != x@,
        },
{
    let mut k: usize = 0;
    while k < v.len()
        invariant
            k <= v@.len(),
            forall|t: int| 0 <= t < k ==> v@[t]@ != x@,
        decreases v@.len() - k,
    {
        if crate::paths::str_eq(v[k].as_str(), x) {
            return Some(k);
        }
        k = k + 1;
    }
    None
}

/// The first position holding the given index.
fn find_usize_index(v: &Vec<usize>, x: usize) -> (r: Option<usize>)
    ensures
        match r {
            Some(i) => (i as int) < v@.len() && v@[i as int] == x,
            None => forall|t: int| 0 <= t < v@.len() ==> v@[t] != x,
        },
{
    let mut k: usize = 0;
    while k < v.len()
        invariant
            k <= v@.len(),
            forall|t: int| 0 <= t < k ==> v@[t] != x,
        decreases v@.len() - k,
    {
        if v[k] == x {
            return Some(k);
        }
        k = k + 1;
    }
    None
}

} // verus!
