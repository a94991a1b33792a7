//! A two-step file operation library: mark paths first, then copy, move or
//! link every marked target into a destination, with named presets and an
//! interactive dashboard state machine. Filesystem access, configuration
//! persistence and terminal drawing stay behind capability interfaces.

pub mod config;
pub mod copy_command;
pub mod dashboard;
pub mod errors;
pub mod fuga;
pub mod fuzzy;
pub mod link_command;
pub mod listing;
pub mod mark_command;
pub mod move_command;
pub mod ops;
pub mod paths;
pub mod planner;
pub mod preset_command;
pub mod preset_ui;
pub mod repository;
pub mod resolver;
pub mod traits;
pub mod ui;

pub use config::{AppConfig, Data, UserConfig};
pub use copy_command::CopyCommand;
pub use dashboard::{DashboardApp, DashboardExit, KeyCode, KeyInput, KeyOutcome};
pub use errors::{FugaError, FugaResult};
pub use fuga::{get_file_type, get_version, spec_file_type, FileInfo, TargetType, APP_NAME, VERSION};
pub use fuzzy::fuzzy_match;
pub use link_command::LinkCommand;
pub use mark_command::{MarkAction, MarkCommand};
pub use move_command::MoveCommand;
pub use paths::get_name;
pub use planner::StandardPathService;
pub use preset_command::{PresetAction, PresetCommand};
pub use repository::MemoryConfigRepository;
pub use resolver::dedupe_preserving_order;
pub use traits::{Command, ConfigRepository, FileSystemService, PathService, UIService};
pub use ui::{get_icon, TerminalUIService};
