//! The move command: move every marked target into the planned
//! destination, then clear the mark list.

use vstd::prelude::*;
use crate::config::spec_migrated_marks;
use crate::errors::FugaResult;
use crate::ops::run_marked_operation;
use crate::planner::OpKind;
use crate::traits::{Command, ConfigRepository, FileSystemService, PathService, UIService};

verus! {

/// Moves the marked files or directories.
pub struct MoveCommand<C: ConfigRepository, F: FileSystemService, U: UIService, P: PathService> {
    pub config_repo: C,
    pub fs_service: F,
    pub ui_service: U,
    pub path_service: P,
    pub name: Option<String>,
}

impl<C: ConfigRepository, F: FileSystemService, U: UIService, P: PathService> MoveCommand<
    C,
    F,
    U,
    P,
> {
    pub fn new(
        config_repo: C,
        fs_service: F,
        ui_service: U,
        path_service: P,
        name: Option<String>,
    ) -> (r: Self)
        ensures
            r.config_repo == config_repo,
            r.name == name,
    {
        MoveCommand { config_repo, fs_service, ui_service, path_service, name }
    }
}

impl<C: ConfigRepository, F: FileSystemService, U: UIService, P: PathService> Command
    for MoveCommand<C, F, U, P> {
    /// Move each marked target in mark order. Success needs a non-empty
    /// mark list and clears it as its side effect; the presets stay
    /// untouched.
    fn execute(&mut self) -> (r: FugaResult<()>)
        ensures
            spec_migrated_marks(old(self).config_repo.data()).len() == 0 ==> r is Err,
            r is Ok ==> spec_migrated_marks(old(self).config_repo.data()).len() > 0,
            r is Ok ==> final(self).config_repo.data().targets.len() == 0 && final(self).config_repo.data().legacy is None,
            r is Ok ==> final(self).config_repo.presets() == old(self).config_repo.presets(),
    {
        let destination = match &self.name {
            Some(d) => Some(d.as_str()),
            None => None,
        };
        run_marked_operation(
            OpKind::Move,
            &mut self.config_repo,
            &self.fs_service,
            &self.ui_service,
            &self.path_service,
            destination,
        )
    }
}

} // verus!
