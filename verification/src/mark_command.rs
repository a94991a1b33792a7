//! The mark command: set, extend, list or reset the persisted mark list.

use vstd::prelude::*;
use crate::config::{spec_migrate_data, spec_migrated_marks, DataView};
use crate::errors::FugaResult;
use crate::fuga::{FileInfo, TargetType};
use crate::resolver::{
    contains_str, dedupe_preserving_order, lemma_dedupe_no_dup, seq_views, spec_dedupe,
    strings_to_vec, validate_target, views_no_dup,
};
use crate::traits::{Command, ConfigRepository, FileSystemService, UIService};
use crate::ui::{decimal_string, emit_line};

verus! {

/// What the mark command is asked to do.
#[derive(Debug)]
pub enum MarkAction {
    Replace(Vec<String>),
    Add(Vec<String>),
    List,
    Reset,
}

/// Manages the marked paths through the configuration repository, resolving
/// and validating each input through the filesystem service.
pub struct MarkCommand<C: ConfigRepository, F: FileSystemService, U: UIService> {
    pub config_repo: C,
    pub fs_service: F,
    pub ui_service: U,
    pub action: MarkAction,
}

impl<C: ConfigRepository, F: FileSystemService, U: UIService> MarkCommand<C, F, U> {
    pub fn new(config_repo: C, fs_service: F, ui_service: U, action: MarkAction) -> (r: Self)
        ensures
            r.config_repo == config_repo,
            r.action == action,
    {
        MarkCommand { config_repo, fs_service, ui_service, action }
    }

    /// Resolve each raw input in order and validate that it exists; the
    /// first missing one aborts the whole resolution, so every returned
    /// descriptor reports an existing path, one per input.
    fn prepare_targets(&self, paths: &Vec<String>) -> (r: FugaResult<Vec<(String, FileInfo)>>)
        ensures
            r matches Ok(v) ==> v@.len() == paths@.len() && (forall|i: int|
                0 <= i < v@.len() ==> v@[i].1.exists),
    {
        let mut resolved: Vec<(String, FileInfo)> = Vec::new();
        let mut k: usize = 0;
        while k < paths.len()
            invariant
                k <= paths@.len(),
                resolved@.len() == k,
                forall|i: int| 0 <= i < k ==> resolved@[i].1.exists,
            decreases paths@.len() - k,
        {
            let abs_path = match self.fs_service.get_abs_path(paths[k].as_str()) {
                Ok(p) => p,
                Err(e) => {
                    return Err(e);
                },
            };
            let info = match self.fs_service.get_file_info(abs_path.as_str()) {
                Ok(i) => i,
                Err(e) => {
                    return Err(e);
                },
            };
            let pair = match validate_target(abs_path, info) {
                Ok(p) => p,
                Err(e) => {
                    return Err(e);
                },
            };
            resolved.push(pair);
            k = k + 1;
        }
        Ok(resolved)
    }

    fn target_type_from_info(info: &FileInfo) -> (t: TargetType)
        ensures
            t == (if info.is_file {
                TargetType::File
            } else {
                TargetType::Dir
            }),
    {
        if info.is_file {
            TargetType::File
        } else {
            TargetType::Dir
        }
    }

    fn print_list_summary(&self, count: usize) {
        let mut line = self.ui_service.get_icon_information();
        line.append(" : Mark list now tracks ");
        line.append(decimal_string(count).as_str());
        line.append(" target(s).");
        emit_line(line.as_str());
    }

    /// Replace the mark list with the resolved inputs, deduplicated and in
    /// input order; a failure leaves the stored state as it was.
    fn set_targets(&mut self, paths: &Vec<String>) -> (r: FugaResult<()>)
        ensures
            r is Ok ==> views_no_dup(final(self).config_repo.data().targets) && final(self).config_repo.data().legacy is None && final(self).config_repo.presets() == old(self).config_repo.presets(),
            r is Ok ==> exists|resolved_paths: Seq<Seq<char>>|
                resolved_paths.len() == paths@.len() && final(self).config_repo.data() == (
                DataView { targets: #[trigger] spec_dedupe(resolved_paths), legacy: None }),
            r is Err ==> final(self).config_repo.data() == old(self).config_repo.data() && final(self).config_repo.presets() == old(self).config_repo.presets(),
    {
        let resolved = match self.prepare_targets(paths) {
            Ok(v) => v,
            Err(e) => {
                return Err(e);
            },
        };
        let mut unique: Vec<String> = Vec::new();
        let mut k: usize = 0;
        while k < resolved.len()
            invariant
                k <= resolved@.len(),
                unique@.len() == k,
            decreases resolved@.len() - k,
        {
            unique.push(resolved[k].0.clone());
            k = k + 1;
        }
        let ghost pre_unique = seq_views(unique@);
        dedupe_preserving_order(&mut unique);
        proof {
            lemma_dedupe_no_dup(pre_unique);
            assert(pre_unique.len() == paths@.len());
        }
        match self.config_repo.set_marked_targets(unique.as_slice()) {
            Ok(()) => {},
            Err(e) => {
                return Err(e);
            },
        }
        proof {
            assert(self.config_repo.data() == (DataView {
                targets: spec_dedupe(pre_unique),
                legacy: None,
            }));
        }
        let mut i: usize = 0;
        while i < unique.len()
            invariant
                i <= unique@.len(),
            decreases unique@.len() - i,
        {
            let mut j: usize = 0;
            while j < resolved.len()
                invariant
                    i < unique@.len(),
                    j <= resolved@.len(),
                decreases resolved@.len() - j,
            {
                if resolved[j].0 == unique[i] {
                    let target_type = Self::target_type_from_info(&resolved[j].1);
                    let mut line = String::from_str("\u{2705} : ");
                    line.append(self.ui_service.get_icon_for_target_type(target_type).as_str());
                    line.append(" ");
                    line.append(
                        self.ui_service.get_colorized_text(unique[i].as_str(), true).as_str(),
                    );
                    line.append(" marked.");
                    emit_line(line.as_str());
                    break ;
                }
                j = j + 1;
            }
            i = i + 1;
        }
        self.print_list_summary(unique.len());
        Ok(())
    }

    /// Append the resolved inputs to the deduplicated current list, keeping
    /// first occurrences: the stored result is exactly the old list with
    /// the resolved paths appended, deduplicated in order; a failure leaves
    /// the stored state as it was, or merely migrated.
    fn add_targets(&mut self, paths: &Vec<String>) -> (r: FugaResult<()>)
        ensures
            r is Ok ==> views_no_dup(final(self).config_repo.data().targets) && spec_dedupe(
                spec_migrated_marks(old(self).config_repo.data()),
            ).is_prefix_of(final(self).config_repo.data().targets) && final(self).config_repo.data().legacy is None && final(self).config_repo.presets() == old(self).config_repo.presets(),
            r is Ok ==> exists|resolved_paths: Seq<Seq<char>>|
                resolved_paths.len() == paths@.len() && final(self).config_repo.data() == (
                DataView {
                    targets: #[trigger] spec_dedupe(
                        spec_migrated_marks(old(self).config_repo.data()) + resolved_paths,
                    ),
                    legacy: None,
                }),
            r is Err ==> final(self).config_repo.presets() == old(self).config_repo.presets() && (
            final(self).config_repo.data() == old(self).config_repo.data() || final(self).config_repo.data() == spec_migrate_data(old(self).config_repo.data())),
    {
        let resolved = match self.prepare_targets(paths) {
            Ok(v) => v,
            Err(e) => {
                return Err(e);
            },
        };
        let mut current = match self.config_repo.get_marked_targets() {
            Ok(t) => t,
            Err(e) => {
                return Err(e);
            },
        };
        let ghost migrated_seq = spec_migrated_marks(old(self).config_repo.data());
        dedupe_preserving_order(&mut current);
        let ghost base = seq_views(current@);
        let ghost repo_mid = self.config_repo;
        let ghost mut processed: Seq<Seq<char>> = Seq::empty();
        proof {
            lemma_dedupe_no_dup(migrated_seq);
            assert(base.is_prefix_of(base));
            assert(migrated_seq + processed =~= migrated_seq);
        }
        let mut added: Vec<(String, FileInfo)> = Vec::new();
        let mut k: usize = 0;
        while k < resolved.len()
            invariant
                k <= resolved@.len(),
                views_no_dup(seq_views(current@)),
                base.is_prefix_of(seq_views(current@)),
                self.config_repo == repo_mid,
                processed.len() == k,
                seq_views(current@) == spec_dedupe(migrated_seq + processed),
            decreases resolved@.len() - k,
        {
            let abs = resolved[k].0.clone();
            proof {
                let mp = migrated_seq + processed;
                let mp_next = migrated_seq + processed.push(abs@);
                assert(mp_next.drop_last() =~= mp);
                assert(mp_next.last() == abs@);
            }
            if !contains_str(&current, &abs) {
                let ghost pre = seq_views(current@);
                current.push(abs.clone());
                proof {
                    assert(seq_views(current@) =~= pre.push(abs@));
                    assert(views_no_dup(seq_views(current@))) by {
                        assert(forall|i: int|
                            0 <= i < pre.len() ==> seq_views(current@)[i] == pre[i]);
                    }
                    assert(base.is_prefix_of(seq_views(current@)));
                }
                let info = resolved[k].1.clone();
                added.push((abs, info));
            }
            proof {
                processed = processed.push(abs@);
            }
            k = k + 1;
        }
        match self.config_repo.set_marked_targets(current.as_slice()) {
            Ok(()) => {},
            Err(e) => {
                return Err(e);
            },
        }
        proof {
            assert(processed.len() == paths@.len());
            assert(self.config_repo.data() == (DataView {
                targets: spec_dedupe(migrated_seq + processed),
                legacy: None,
            }));
        }
        if added.len() == 0 {
            let mut line = self.ui_service.get_icon_information();
            line.append(" : All provided paths were already marked.");
            emit_line(line.as_str());
        } else {
            let mut i: usize = 0;
            while i < added.len()
                decreases added@.len() - i,
            {
                let target_type = Self::target_type_from_info(&added[i].1);
                let mut line = String::from_str("\u{2705} : ");
                line.append(self.ui_service.get_icon_for_target_type(target_type).as_str());
                line.append(" ");
                line.append(
                    self.ui_service.get_colorized_text(added[i].0.as_str(), true).as_str(),
                );
                line.append(" added.");
                emit_line(line.as_str());
                i = i + 1;
            }
        }
        self.print_list_summary(current.len());
        Ok(())
    }

    /// Print the mark list, migrating legacy state on the way.
    fn list_targets(&mut self) -> (r: FugaResult<()>)
        ensures
            r is Ok ==> final(self).config_repo.data() == spec_migrate_data(
                old(self).config_repo.data(),
            ) && final(self).config_repo.presets() == old(self).config_repo.presets(),
            r is Err ==> final(self).config_repo.data() == old(self).config_repo.data() && final(self).config_repo.presets() == old(self).config_repo.presets(),
    {
        let targets = match self.config_repo.get_marked_targets() {
            Ok(t) => t,
            Err(e) => {
                return Err(e);
            },
        };
        if targets.len() == 0 {
            let mut line = self.ui_service.get_icon_information();
            line.append(" : No targets marked.");
            emit_line(line.as_str());
            return Ok(());
        }
        let mut line = self.ui_service.get_icon_information();
        line.append(" : Marked targets:");
        emit_line(line.as_str());
        let mut i: usize = 0;
        while i < targets.len()
            decreases targets@.len() - i,
        {
            let t = self.fs_service.get_file_type(targets[i].as_str());
            let mut row = self.ui_service.get_icon_for_target_type(t);
            row.append(" ");
            row.append(targets[i].as_str());
            emit_line(row.as_str());
            i = i + 1;
        }
        Ok(())
    }

    /// Clear the mark list.
    fn reset_targets(&mut self) -> (r: FugaResult<()>)
        ensures
            r is Ok ==> final(self).config_repo.data().targets.len() == 0 && final(self).config_repo.data().legacy is None && final(self).config_repo.presets() == old(self).config_repo.presets(),
            r is Err ==> final(self).config_repo.data() == old(self).config_repo.data() && final(self).config_repo.presets() == old(self).config_repo.presets(),
    {
        match self.config_repo.reset_marks() {
            Ok(()) => {},
            Err(e) => {
                return Err(e);
            },
        }
        emit_line("\u{2705} : Marked targets cleared.");
        self.print_list_summary(0);
        Ok(())
    }
}

impl<C: ConfigRepository, F: FileSystemService, U: UIService> Command for MarkCommand<C, F, U> {
    /// Dispatch on the requested action. A successful run leaves the mark
    /// list deduplicated (set/add), migrated (list) or empty (reset), with
    /// the legacy mark cleared on every mutation and the presets untouched.
    fn execute(&mut self) -> (r: FugaResult<()>)
        ensures
            (r is Ok && old(self).action is Replace) ==> views_no_dup(
                final(self).config_repo.data().targets,
            ) && final(self).config_repo.data().legacy is None,
            (r is Ok && old(self).action is Add) ==> views_no_dup(
                final(self).config_repo.data().targets,
            ) && spec_dedupe(spec_migrated_marks(old(self).config_repo.data())).is_prefix_of(
                final(self).config_repo.data().targets,
            ) && final(self).config_repo.data().legacy is None,
            (r is Ok && old(self).action is List) ==> final(self).config_repo.data()
                == spec_migrate_data(old(self).config_repo.data()),
            (r is Ok && old(self).action is Reset) ==> final(self).config_repo.data().targets.len()
                == 0 && final(self).config_repo.data().legacy is None,
            old(self).action matches MarkAction::Replace(ps) ==> (r is Ok ==> exists|resolved_paths: Seq<Seq<char>>| resolved_paths.len() == ps@.len() && final(self).config_repo.data() == (DataView { targets: #[trigger] spec_dedupe(resolved_paths), legacy: None })),
            old(self).action matches MarkAction::Add(ps) ==> (r is Ok ==> exists|resolved_paths: Seq<Seq<char>>| resolved_paths.len() == ps@.len() && final(self).config_repo.data() == (DataView { targets: #[trigger] spec_dedupe(spec_migrated_marks(old(self).config_repo.data()) + resolved_paths), legacy: None })),
            r is Err ==> final(self).config_repo.presets() == old(self).config_repo.presets() && (final(self).config_repo.data() == old(self).config_repo.data() || final(self).config_repo.data() == spec_migrate_data(old(self).config_repo.data())),
            r is Ok ==> final(self).config_repo.presets() == old(self).config_repo.presets(),
    {
        match &self.action {
            MarkAction::Replace(paths) => {
                let p = strings_to_vec(paths.as_slice());
                let ghost ps_view = paths@;
                proof {
                    assert(seq_views(p@).len() == p@.len());
                    assert(seq_views(ps_view).len() == ps_view.len());
                }
                let r = self.set_targets(&p);
                proof {
                    if r is Ok {
                        let w = choose|w: Seq<Seq<char>>|
                            w.len() == p@.len() && self.config_repo.data() == (DataView {
                                targets: #[trigger] spec_dedupe(w),
                                legacy: None,
                            });
                        assert(w.len() == ps_view.len());
                    }
                }
                r
            },
            MarkAction::Add(paths) => {
                let p = strings_to_vec(paths.as_slice());
                let ghost ps_view = paths@;
                proof {
                    assert(seq_views(p@).len() == p@.len());
                    assert(seq_views(ps_view).len() == ps_view.len());
                }
                let ghost pre_data = self.config_repo.data();
                let r = self.add_targets(&p);
                proof {
                    if r is Ok {
                        let w = choose|w: Seq<Seq<char>>|
                            w.len() == p@.len() && self.config_repo.data() == (DataView {
                                targets: #[trigger] spec_dedupe(spec_migrated_marks(pre_data) + w),
                                legacy: None,
                            });
                        assert(w.len() == ps_view.len());
                    }
                }
                r
            },
            MarkAction::List => self.list_targets(),
            MarkAction::Reset => self.reset_targets(),
        }
    }
}

} // verus!
