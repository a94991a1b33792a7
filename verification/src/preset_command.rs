//! The preset command: save, load, list, show or delete named snapshots of
//! the mark list. Loading a preset replaces the live marks wholesale.

use vstd::prelude::*;
use crate::config::{spec_migrate_data, spec_migrated_marks, DataView};
use crate::errors::{FugaError, FugaResult};
use crate::resolver::seq_views;
use crate::traits::{Command, ConfigRepository, FileSystemService, UIService};
use crate::ui::{decimal_string, emit_line};

verus! {

/// Actions supported by the preset command.
#[derive(Debug, PartialEq, Eq)]
pub enum PresetAction {
    Save { name: String },
    Load { name: String },
    List,
    Show { name: String },
    Delete { name: String },
}

/// Manages named presets through the configuration repository.
pub struct PresetCommand<C: ConfigRepository, F: FileSystemService, U: UIService> {
    pub config_repo: C,
    pub fs_service: F,
    pub ui_service: U,
    pub action: PresetAction,
}

impl<C: ConfigRepository, F: FileSystemService, U: UIService> PresetCommand<C, F, U> {
    pub fn new(config_repo: C, fs_service: F, ui_service: U, action: PresetAction) -> (r: Self)
        ensures
            r.config_repo == config_repo,
            r.action == action,
    {
        PresetCommand { config_repo, fs_service, ui_service, action }
    }

    fn not_found_error(name: &str) -> (r: FugaError)
        ensures
            r matches FugaError::OperationFailed(m) && m@ == "Preset '"@ + name@ + "' not found."@,
    {
        let mut m = String::from_str("Preset '");
        m.append(name);
        m.append("' not found.");
        FugaError::OperationFailed(m)
    }

    /// Save the current (migrated) mark list under the name, creating or
    /// overwriting the preset.
    fn save(&mut self, name: &str) -> (r: FugaResult<()>)
        ensures
            r is Ok ==> final(self).config_repo.presets() == old(self).config_repo.presets().insert(
                name@,
                spec_migrated_marks(old(self).config_repo.data()),
            ),
            r is Ok ==> final(self).config_repo.data() == spec_migrate_data(
                old(self).config_repo.data(),
            ),
    {
        let targets = match self.config_repo.get_marked_targets() {
            Ok(t) => t,
            Err(e) => {
                return Err(e);
            },
        };
        match self.config_repo.save_preset(name, targets.as_slice()) {
            Ok(()) => {},
            Err(e) => {
                return Err(e);
            },
        }
        let mut line = String::from_str("\u{2705} : Preset '");
        line.append(name);
        line.append("' saved with ");
        line.append(decimal_string(targets.len()).as_str());
        line.append(" target(s).");
        emit_line(line.as_str());
        Ok(())
    }

    /// Load the named preset, replacing the whole mark list with it.
    fn load(&mut self, name: &str) -> (r: FugaResult<()>)
        ensures
            r is Ok ==> old(self).config_repo.presets().contains_key(name@),
            r is Ok ==> final(self).config_repo.data() == (DataView {
                targets: old(self).config_repo.presets()[name@],
                legacy: None,
            }),
            r is Ok ==> final(self).config_repo.presets() == old(self).config_repo.presets(),
            !old(self).config_repo.presets().contains_key(name@) ==> !(r is Ok),
    {
        let preset = match self.config_repo.get_preset(name) {
            Ok(Some(p)) => p,
            Ok(None) => {
                return Err(Self::not_found_error(name));
            },
            Err(e) => {
                return Err(e);
            },
        };
        match self.config_repo.set_marked_targets(preset.as_slice()) {
            Ok(()) => {},
            Err(e) => {
                return Err(e);
            },
        }
        let mut line = String::from_str("\u{2705} : Preset '");
        line.append(name);
        line.append("' loaded. Mark list now tracks ");
        line.append(decimal_string(preset.len()).as_str());
        line.append(" target(s).");
        emit_line(line.as_str());
        Ok(())
    }

    /// Print the saved preset names.
    fn list(&mut self) -> (r: FugaResult<()>)
        ensures
            r is Ok ==> final(self).config_repo.data() == old(self).config_repo.data() && final(self).config_repo.presets() == old(self).config_repo.presets(),
    {
        let presets = match self.config_repo.list_presets() {
            Ok(p) => p,
            Err(e) => {
                return Err(e);
            },
        };
        if presets.len() == 0 {
            let mut line = self.ui_service.get_icon_information();
            line.append(" : No presets saved.");
            emit_line(line.as_str());
            return Ok(());
        }
        let mut line = self.ui_service.get_icon_information();
        line.append(" : Saved presets:");
        emit_line(line.as_str());
        let mut i: usize = 0;
        while i < presets.len()
            invariant
                i <= presets@.len(),
            decreases presets@.len() - i,
        {
            let mut row = String::from_str("- ");
            row.append(presets[i].as_str());
            emit_line(row.as_str());
            i = i + 1;
        }
        Ok(())
    }

    /// Print the contents of the named preset.
    fn show(&mut self, name: &str) -> (r: FugaResult<()>)
        ensures
            r is Ok ==> old(self).config_repo.presets().contains_key(name@),
            r is Ok ==> final(self).config_repo.data() == old(self).config_repo.data() && final(self).config_repo.presets() == old(self).config_repo.presets(),
            !old(self).config_repo.presets().contains_key(name@) ==> !(r is Ok),
    {
        let preset = match self.config_repo.get_preset(name) {
            Ok(Some(p)) => p,
            Ok(None) => {
                return Err(Self::not_found_error(name));
            },
            Err(e) => {
                return Err(e);
            },
        };
        let mut line = self.ui_service.get_icon_information();
        line.append(" : Preset '");
        line.append(name);
        line.append("':");
        emit_line(line.as_str());
        let mut i: usize = 0;
        while i < preset.len()
            invariant
                i <= preset@.len(),
            decreases preset@.len() - i,
        {
            let t = self.fs_service.get_file_type(preset[i].as_str());
            let mut row = self.ui_service.get_icon_for_target_type(t);
            row.append(" ");
            row.append(preset[i].as_str());
            emit_line(row.as_str());
            i = i + 1;
        }
        Ok(())
    }

    /// Delete the named preset; an unknown name is an error.
    fn delete(&mut self, name: &str) -> (r: FugaResult<()>)
        ensures
            r is Ok ==> old(self).config_repo.presets().contains_key(name@),
            r is Ok ==> final(self).config_repo.presets() == old(self).config_repo.presets().remove(
                name@,
            ) && final(self).config_repo.data() == old(self).config_repo.data(),
            old(self).config_repo.presets().contains_key(name@) == false ==> !(r is Ok),
    {
        let deleted = match self.config_repo.delete_preset(name) {
            Ok(b) => b,
            Err(e) => {
                return Err(e);
            },
        };
        if !deleted {
            return Err(Self::not_found_error(name));
        }
        let mut line = String::from_str("\u{2705} : Preset '");
        line.append(name);
        line.append("' deleted.");
        emit_line(line.as_str());
        Ok(())
    }
}

impl<C: ConfigRepository, F: FileSystemService, U: UIService> Command for PresetCommand<C, F, U> {
    /// Dispatch on the requested action. Saving installs the migrated mark
    /// list under the name; loading requires the preset and replaces the
    /// mark list with it; deleting requires the preset and removes it;
    /// listing and showing change nothing.
    fn execute(&mut self) -> (r: FugaResult<()>)
        ensures
            old(self).action matches PresetAction::Save { name } ==> (r is Ok ==> final(self).config_repo.presets() == old(self).config_repo.presets().insert(name@, spec_migrated_marks(old(self).config_repo.data())) && final(self).config_repo.data() == spec_migrate_data(old(self).config_repo.data())),
            old(self).action matches PresetAction::Load { name } ==> (r is Ok ==> old(self).config_repo.presets().contains_key(name@) && final(self).config_repo.data() == (DataView { targets: old(self).config_repo.presets()[name@], legacy: None }) && final(self).config_repo.presets() == old(self).config_repo.presets()),
            old(self).action matches PresetAction::Load { name } ==> (!old(self).config_repo.presets().contains_key(name@) ==> !(r is Ok)),
            old(self).action matches PresetAction::Delete { name } ==> (r is Ok ==> old(self).config_repo.presets().contains_key(name@) && final(self).config_repo.presets() == old(self).config_repo.presets().remove(name@) && final(self).config_repo.data() == old(self).config_repo.data()),
            old(self).action matches PresetAction::Delete { name } ==> (!old(self).config_repo.presets().contains_key(name@) ==> !(r is Ok)),
            (r is Ok && (old(self).action is List || old(self).action is Show)) ==> final(self).config_repo.data() == old(self).config_repo.data() && final(self).config_repo.presets() == old(self).config_repo.presets(),
            old(self).action matches PresetAction::Show { name } ==> (r is Ok ==> old(self).config_repo.presets().contains_key(name@)),
    {
        match &self.action {
            PresetAction::Save { name } => {
                let n = name.clone();
                self.save(n.as_str())
            },
            PresetAction::Load { name } => {
                let n = name.clone();
                self.load(n.as_str())
            },
            PresetAction::List => self.list(),
            PresetAction::Show { name } => {
                let n = name.clone();
                self.show(n.as_str())
            },
            PresetAction::Delete { name } => {
                let n = name.clone();
                self.delete(n.as_str())
            },
        }
    }
}

} // verus!
