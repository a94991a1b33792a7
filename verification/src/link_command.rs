//! The link command: create a symbolic link to every marked target at the
//! planned destination, leaving the mark list as it was.

use vstd::prelude::*;
use crate::config::{spec_migrate_data, spec_migrated_marks};
use crate::errors::FugaResult;
use crate::ops::run_marked_operation;
use crate::planner::OpKind;
use crate::traits::{Command, ConfigRepository, FileSystemService, PathService, UIService};

verus! {

/// Creates symbolic links to the marked files or directories.
pub struct LinkCommand<C: ConfigRepository, F: FileSystemService, U: UIService, P: PathService> {
    pub config_repo: C,
    pub fs_service: F,
    pub ui_service: U,
    pub path_service: P,
    pub name: Option<String>,
}

impl<C: ConfigRepository, F: FileSystemService, U: UIService, P: PathService> LinkCommand<
    C,
    F,
    U,
    P,
> {
    pub fn new(
        config_repo: C,
        fs_service: F,
        ui_service: U,
        path_service: P,
        name: Option<String>,
    ) -> (r: Self)
        ensures
            r.config_repo == config_repo,
            r.name == name,
    {
        LinkCommand { config_repo, fs_service, ui_service, path_service, name }
    }
}

impl<C: ConfigRepository, F: FileSystemService, U: UIService, P: PathService> Command
    for LinkCommand<C, F, U, P> {
    /// Link each marked target in mark order. Success needs a non-empty
    /// mark list and, like copy, leaves the marks exactly as the migration
    /// read them; the presets stay untouched.
    fn execute(&mut self) -> (r: FugaResult<()>)
        ensures
            spec_migrated_marks(old(self).config_repo.data()).len() == 0 ==> r is Err,
            r is Ok ==> spec_migrated_marks(old(self).config_repo.data()).len() > 0,
            r is Ok ==> final(self).config_repo.data() == spec_migrate_data(
                old(self).config_repo.data(),
            ),
            r is Ok ==> final(self).config_repo.data().targets == spec_migrated_marks(
                old(self).config_repo.data(),
            ),
            r is Ok ==> final(self).config_repo.presets() == old(self).config_repo.presets(),
    {
        let destination = match &self.name {
            Some(d) => Some(d.as_str()),
            None => None,
        };
        let r = run_marked_operation(
            OpKind::Link,
            &mut self.config_repo,
            &self.fs_service,
            &self.ui_service,
            &self.path_service,
            destination,
        );
        proof {
            if r is Ok {
                crate::config::lemma_migrate_targets(old(self).config_repo.data());
            }
        }
        r
    }
}

} // verus!
