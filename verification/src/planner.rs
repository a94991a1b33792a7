//! Destination planning: how one resolved source, its file kind and an
//! optional destination argument combine into the concrete destination
//! path, and the guard that refuses several sources aimed at one
//! non-directory destination.

use vstd::prelude::*;
use crate::errors::{FugaError, FugaResult};
use crate::fuga::FileInfo;
use crate::paths::{join_path, spec_join};
use crate::traits::{FileSystemService, PathService};

verus! {

/// The view of an optional owned string.
pub open spec fn opt_view(o: Option<String>) -> Option<Seq<char>> {
    match o {
        Some(s) => Some(s@),
        None => None,
    }
}

/// The view of an optional borrowed string.
pub open spec fn opt_ref_view(o: Option<&str>) -> Option<Seq<char>> {
    match o {
        Some(s) => Some(s@),
        None => None,
    }
}

/// The planned destination. Without an argument the source's own name is
/// used (the source path itself when it has no name); an argument naming an
/// existing directory receives the source's name appended; any other
/// argument is taken verbatim.
pub open spec fn spec_plan_destination(
    target: Seq<char>,
    target_name: Option<Seq<char>>,
    destination: Option<Seq<char>>,
    destination_is_dir: bool,
) -> Seq<char> {
    match destination {
        Some(d) => if destination_is_dir {
            match target_name {
                Some(n) => spec_join(d, n),
                None => d,
            }
        } else {
            d
        },
        None => match target_name {
            Some(n) => n,
            None => target,
        },
    }
}

/// Compute the destination path for one source, given whether the
/// destination argument names an existing directory.
pub fn plan_destination(
    target: &str,
    target_info: &FileInfo,
    name: Option<&str>,
    destination_is_dir: bool,
) -> (r: String)
    ensures
        r@ == spec_plan_destination(
            target@,
            opt_view(target_info.name),
            opt_ref_view(name),
            destination_is_dir,
        ),
{
    match name {
        Some(dest) => {
            if destination_is_dir {
                match &target_info.name {
                    Some(n) => join_path(dest, n.as_str()),
                    None => String::from_str(dest),
                }
            } else {
                String::from_str(dest)
            }
        },
        None => {
            match &target_info.name {
                Some(n) => n.clone(),
                None => String::from_str(target),
            }
        },
    }
}

/// The standard destination planner.
#[derive(Debug, Default)]
pub struct StandardPathService;

impl StandardPathService {
    pub fn new() -> (r: Self) {
        StandardPathService
    }
}

impl PathService for StandardPathService {
    /// Queries the destination argument's kind once, then plans as
    /// `plan_destination` does.
    fn get_destination_name_with_info<F: FileSystemService>(
        &self,
        target: &str,
        target_info: &FileInfo,
        name: Option<&str>,
        fs_service: &F,
    ) -> (r: FugaResult<String>) {
        match name {
            Some(dest) => {
                let info = match fs_service.get_file_info(dest) {
                    Ok(i) => i,
                    Err(e) => {
                        return Err(e);
                    },
                };
                let is_dir = info.exists && info.is_dir;
                let planned = plan_destination(target, target_info, Some(dest), is_dir);
                proof {
                    assert(planned@ == spec_plan_destination(
                        target@,
                        opt_view(target_info.name),
                        opt_ref_view(name),
                        is_dir,
                    ));
                }
                Ok(planned)
            },
            None => {
                let planned = plan_destination(target, target_info, None, false);
                proof {
                    assert(planned@ == spec_plan_destination(
                        target@,
                        opt_view(target_info.name),
                        opt_ref_view(name),
                        false,
                    ));
                }
                Ok(planned)
            },
        }
    }
}

/// The operations that consume the mark list.
#[derive(Debug, Clone, Copy, PartialEq, Eq, Structural)]
pub enum OpKind {
    Copy,
    Move,
    Link,
}

/// The operation's verb, as the guard message spells it.
pub open spec fn spec_op_verb(k: OpKind) -> Seq<char> {
    match k {
        OpKind::Copy => "copy"@,
        OpKind::Move => "move"@,
        OpKind::Link => "link"@,
    }
}

/// The message refusing several sources aimed at one non-directory path.
pub open spec fn spec_multi_guard_message(k: OpKind) -> Seq<char> {
    "Cannot "@ + spec_op_verb(k) + " multiple items to a single file path."@
}

/// More than one marked target combined with a destination argument that is
/// not an existing directory is ambiguous and refused before anything is
/// touched; every other combination passes.
pub fn multi_target_guard(
    kind: OpKind,
    target_count: usize,
    destination_supplied: bool,
    destination_accepts_many: bool,
) -> (r: FugaResult<()>)
    ensures
        (target_count > 1 && destination_supplied && !destination_accepts_many) <==> (
        r is Err),
        r matches Err(e) ==> (e matches FugaError::OperationFailed(m) && m@
            == spec_multi_guard_message(kind)),
{
    if target_count > 1 && destination_supplied && !destination_accepts_many {
        let mut m = String::from_str("Cannot ");
        match kind {
            OpKind::Copy => m.append("copy"),
            OpKind::Move => m.append("move"),
            OpKind::Link => m.append("link"),
        }
        m.append(" multiple items to a single file path.");
        Err(FugaError::OperationFailed(m))
    } else {
        Ok(())
    }
}

} // verus!
