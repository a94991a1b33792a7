//! Capability interfaces for the external collaborators: configuration
//! persistence, filesystem access, presentation and path planning. Commands
//! and the dashboard hold such instances rather than concrete services, so
//! in-memory substitutes can stand in for the real ones.

use vstd::prelude::*;
use crate::config::{spec_migrate_data, spec_migrated_marks, AppConfig, DataView};
use crate::errors::FugaResult;
use crate::fuga::{FileInfo, TargetType};
use crate::resolver::seq_views;

verus! {

/// Configuration persistence. An implementation's abstract state is the
/// persisted mark data and the preset table; the configuration is
/// read-modify-written as a whole, so a successful call pins the new state
/// while a failed one promises nothing.
pub trait ConfigRepository: Sized {
    /// The persisted mark data.
    spec fn data(&self) -> DataView;

    /// The persisted presets, name to ordered path list.
    spec fn presets(&self) -> Map<Seq<char>, Seq<Seq<char>>>;

    /// Load the application configuration. Reading never changes the
    /// abstract state.
    fn load_config(&mut self) -> (r: FugaResult<AppConfig>)
        ensures
            final(self).data() == old(self).data() && final(self).presets() == old(self).presets(),
            r matches Ok(c) ==> c@.data == old(self).data(),
    ;

    /// Store the configuration's settings and mark data, leaving the preset
    /// table as it is.
    fn store_config(&mut self, config: &AppConfig) -> (r: FugaResult<()>)
        ensures
            r is Ok ==> final(self).data() == config@.data && final(self).presets() == old(self).presets(),
            !(r is Ok) ==> final(self).data() == old(self).data() && final(self).presets() == old(self).presets(),
    ;

    /// Persist the full list of marked targets, clearing the legacy mark.
    fn set_marked_targets(&mut self, targets: &[String]) -> (r: FugaResult<()>)
        ensures
            r is Ok ==> final(self).data() == (DataView {
                targets: seq_views(targets@),
                legacy: None,
            }) && final(self).presets() == old(self).presets(),
            !(r is Ok) ==> final(self).data() == old(self).data() && final(self).presets() == old(self).presets(),
    ;

    /// Retrieve the list of marked targets, migrating legacy state if
    /// required. A failed call leaves the whole state as it was.
    fn get_marked_targets(&mut self) -> (r: FugaResult<Vec<String>>)
        ensures
            r matches Ok(v) ==> seq_views(v@) == spec_migrated_marks(old(self).data()) && final(self).data() == spec_migrate_data(old(self).data()) && final(self).presets() == old(self).presets(),
            !(r is Ok) ==> final(self).data() == old(self).data() && final(self).presets() == old(self).presets(),
    ;

    /// Reset the marked targets to an empty list.
    fn reset_marks(&mut self) -> (r: FugaResult<()>)
        ensures
            r is Ok ==> final(self).data() == (DataView {
                targets: Seq::<Seq<char>>::empty(),
                legacy: None,
            }) && final(self).presets() == old(self).presets(),
            !(r is Ok) ==> final(self).data() == old(self).data() && final(self).presets() == old(self).presets(),
    ;

    /// The names of the saved presets, each exactly once. Reading never
    /// changes the abstract state.
    fn list_presets(&mut self) -> (r: FugaResult<Vec<String>>)
        ensures
            final(self).data() == old(self).data() && final(self).presets() == old(self).presets(),
            r matches Ok(v) ==> seq_views(v@).to_set() == old(self).presets().dom(),
    ;

    /// The contents of one preset, if it is saved. Reading never changes
    /// the abstract state.
    fn get_preset(&mut self, name: &str) -> (r: FugaResult<Option<Vec<String>>>)
        ensures
            final(self).data() == old(self).data() && final(self).presets() == old(self).presets(),
            r matches Ok(o) ==> match o {
                Some(v) => old(self).presets().contains_key(name@) && seq_views(v@) == old(self).presets()[name@],
                None => !old(self).presets().contains_key(name@),
            },
    ;

    /// Create or overwrite a preset with the given path list.
    fn save_preset(&mut self, name: &str, targets: &[String]) -> (r: FugaResult<()>)
        ensures
            r is Ok ==> final(self).presets() == old(self).presets().insert(
                name@,
                seq_views(targets@),
            ) && final(self).data() == old(self).data(),
            !(r is Ok) ==> final(self).data() == old(self).data() && final(self).presets() == old(self).presets(),
    ;

    /// Delete a preset, reporting whether it was saved.
    fn delete_preset(&mut self, name: &str) -> (r: FugaResult<bool>)
        ensures
            r matches Ok(b) ==> b == old(self).presets().contains_key(name@) && final(self).presets() == old(self).presets().remove(name@) && final(self).data() == old(self).data(),
            !(r is Ok) ==> final(self).data() == old(self).data() && final(self).presets() == old(self).presets(),
    ;
}

/// Filesystem access. What these calls return depends on the world outside,
/// so nothing is promised of their outcomes; callers state what holds
/// whatever came back.
pub trait FileSystemService {
    /// Get comprehensive file information.
    fn get_file_info(&self, path: &str) -> (r: FugaResult<FileInfo>);

    /// Get the absolute path of a file or directory.
    fn get_abs_path(&self, path: &str) -> (r: FugaResult<String>);

    /// Get the kind of the target file or directory.
    fn get_file_type(&self, path: &str) -> (r: TargetType);

    /// Copy files or directories.
    fn copy_items(&self, src: &str, dst: &str) -> (r: FugaResult<()>);

    /// Move files or directories.
    fn move_items(&self, src: &str, dst: &str) -> (r: FugaResult<()>);

    /// Create symbolic links.
    fn link_items(&self, src: &str, dst: &str) -> (r: FugaResult<()>);
}

/// Presentation: colorized text and icons.
pub trait UIService {
    /// Get colorized text.
    fn get_colorized_text(&self, text: &str, is_bold: bool) -> (r: String);

    /// Get the information icon.
    fn get_icon_information(&self) -> (r: String);

    /// Get the icon for a target kind.
    fn get_icon_for_target_type(&self, target_type: TargetType) -> (r: String);
}

/// Destination planning for file operations: the planned path always
/// follows the destination rule, with the directory question answered by
/// the filesystem; without a destination argument no filesystem answer is
/// involved at all.
pub trait PathService {
    /// Get the destination name for one source, with pre-fetched file
    /// information for the source and the destination argument's kind
    /// queried through the filesystem service.
    fn get_destination_name_with_info<F: FileSystemService>(
        &self,
        target: &str,
        target_info: &FileInfo,
        name: Option<&str>,
        fs_service: &F,
    ) -> (r: FugaResult<String>)
        ensures
            r matches Ok(p) ==> exists|dest_is_dir: bool|
                p@ == #[trigger] crate::planner::spec_plan_destination(
                    target@,
                    crate::planner::opt_view(target_info.name),
                    crate::planner::opt_ref_view(name),
                    dest_is_dir,
                ),
            name is None ==> (r matches Ok(p) && p@ == crate::planner::spec_plan_destination(
                target@,
                crate::planner::opt_view(target_info.name),
                None,
                false,
            )),
    ;
}

/// One executable command invocation.
pub trait Command {
    /// Execute the command.
    fn execute(&mut self) -> (r: FugaResult<()>);
}

} // verus!
