//! The shared algorithm behind copy, move and link: load the marks, apply
//! the multi-target destination guard, then process each marked target in
//! mark order, aborting on the first failure. Only a successful move
//! clears the mark list.

use vstd::prelude::*;
use crate::config::{spec_migrate_data, spec_migrated_marks};
use crate::errors::{FugaError, FugaResult};
use crate::fuga::TargetType;
use crate::planner::{multi_target_guard, OpKind};
use crate::resolver::validate_target;
use crate::traits::{ConfigRepository, FileSystemService, PathService, UIService};
use crate::ui::emit_line;

verus! {

/// An operation needs a non-empty mark list; an empty one is refused with
/// exactly this message.
pub fn require_marked_targets(count: usize) -> (r: FugaResult<()>)
    ensures
        (count == 0) == (r is Err),
        r matches Err(e) ==> (e matches FugaError::OperationFailed(m) && m@
            == "No targets marked."@),
{
    if count == 0 {
        Err(FugaError::OperationFailed(String::from_str("No targets marked.")))
    } else {
        Ok(())
    }
}

/// Run one operation over every marked target: read the marks (refusing an
/// empty list), apply the destination guard, then per target validate
/// existence, plan the destination and perform the operation, stopping at
/// the first failure. A successful move clears the marks; copy and link
/// leave them for the next invocation.
pub(crate) fn run_marked_operation<
    C: ConfigRepository,
    F: FileSystemService,
    U: UIService,
    P: PathService,
>(
    kind: OpKind,
    config_repo: &mut C,
    fs_service: &F,
    ui_service: &U,
    path_service: &P,
    destination: Option<&str>,
) -> (r: FugaResult<()>)
    ensures
        spec_migrated_marks(old(config_repo).data()).len() == 0 ==> r is Err,
        r is Ok ==> spec_migrated_marks(old(config_repo).data()).len() > 0,
        (r is Ok && !(kind is Move)) ==> final(config_repo).data() == spec_migrate_data(old(config_repo).data()),
        (r is Ok && kind is Move) ==> final(config_repo).data().targets.len() == 0 && final(config_repo).data().legacy is None,
        r is Ok ==> final(config_repo).presets() == old(config_repo).presets(),
{
    let targets = match config_repo.get_marked_targets() {
        Ok(t) => t,
        Err(e) => {
            return Err(e);
        },
    };
    match require_marked_targets(targets.len()) {
        Ok(()) => {},
        Err(e) => {
            return Err(e);
        },
    }
    let destination_accepts_many = match destination {
        Some(dest) => {
            let info = match fs_service.get_file_info(dest) {
                Ok(i) => i,
                Err(e) => {
                    return Err(e);
                },
            };
            info.exists && info.is_dir
        },
        None => false,
    };
    match multi_target_guard(kind, targets.len(), destination.is_some(), destination_accepts_many) {
        Ok(()) => {},
        Err(e) => {
            return Err(e);
        },
    }
    let ghost repo_mid = *config_repo;
    let mut k: usize = 0;
    while k < targets.len()
        invariant
            k <= targets@.len(),
            *config_repo == repo_mid,
        decreases targets@.len() - k,
    {
        let target = &targets[k];
        let queried = match fs_service.get_file_info(target.as_str()) {
            Ok(i) => i,
            Err(e) => {
                return Err(e);
            },
        };
        let (_, info) = match validate_target(target.clone(), queried) {
            Ok(pair) => pair,
            Err(e) => {
                return Err(e);
            },
        };
        let target_type = if info.is_file {
            TargetType::File
        } else {
            TargetType::Dir
        };
        let dst_name = match path_service.get_destination_name_with_info(
            target.as_str(),
            &info,
            destination,
            fs_service,
        ) {
            Ok(d) => d,
            Err(e) => {
                return Err(e);
            },
        };
        let mut line = ui_service.get_icon_information();
        match kind {
            OpKind::Copy => {
                line.append(" : Copying ");
                line.append(ui_service.get_icon_for_target_type(target_type).as_str());
                line.append(" ");
                line.append(ui_service.get_colorized_text(target.as_str(), true).as_str());
                line.append(" -> ");
                line.append(ui_service.get_colorized_text(dst_name.as_str(), true).as_str());
            },
            OpKind::Move => {
                line.append(" : Start moving ");
                line.append(ui_service.get_icon_for_target_type(target_type).as_str());
                line.append(" ");
                line.append(ui_service.get_colorized_text(dst_name.as_str(), true).as_str());
                line.append(" from ");
                line.append(target.as_str());
            },
            OpKind::Link => {
                line.append(" : Start making symbolic link ");
                line.append(ui_service.get_icon_for_target_type(target_type).as_str());
                line.append(" ");
                line.append(ui_service.get_colorized_text(dst_name.as_str(), true).as_str());
                line.append(" from ");
                line.append(target.as_str());
            },
        }
        emit_line(line.as_str());
        let op_result = match kind {
            OpKind::Copy => fs_service.copy_items(target.as_str(), dst_name.as_str()),
            OpKind::Move => fs_service.move_items(target.as_str(), dst_name.as_str()),
            OpKind::Link => fs_service.link_items(target.as_str(), dst_name.as_str()),
        };
        match op_result {
            Ok(()) => {},
            Err(e) => {
                return Err(e);
            },
        }
        let dst_type = fs_service.get_file_type(dst_name.as_str());
        let mut done = String::from_str("\u{2705} : ");
        done.append(ui_service.get_icon_for_target_type(dst_type).as_str());
        done.append(" ");
        done.append(ui_service.get_colorized_text(dst_name.as_str(), true).as_str());
        match kind {
            OpKind::Copy => done.append(" copied."),
            OpKind::Move => done.append(" has been moved."),
            OpKind::Link => done.append(" has been made."),
        }
        emit_line(done.as_str());
        k = k + 1;
    }
    match kind {
        OpKind::Move => {
            match config_repo.reset_marks() {
                Ok(()) => {},
                Err(e) => {
                    return Err(e);
                },
            }
        },
        _ => {},
    }
    Ok(())
}

} // verus!
