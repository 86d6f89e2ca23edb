//! An interactive hierarchical command menu: nested menus of named commands,
//! navigated through a stack-based context, with a verified dispatch engine,
//! bounded command history, an error taxonomy, and path/size validators.

pub mod command;
pub mod commands;
pub mod context;
pub mod disp;
pub mod dispatch;
pub mod error;
pub mod laws;
pub mod security;
pub mod text;

pub use command::ArgumentValidator;
pub use command::Command;
pub use command::CommandCategory;
pub use command::CommandRegistry;
pub use command::CommandResult;
pub use command::ResultModel;
pub use commands::MenuCommand;
pub use context::CliContext;
pub use context::CliPreferences;
pub use dispatch::handle_input;
pub use dispatch::DispatchNote;
pub use disp::DisplayManager;
pub use disp::TerminalUtils;
pub use error::CliError;
pub use error::CliResult;
pub use error::ErrorModel;
pub use error::ErrorSeverity;
pub use error::IoFailureKind;
pub use security::sanitize_for_display;
pub use security::validate_file_path;
pub use security::validate_file_size;
pub use security::PathLookup;
pub use security::MAX_FILE_SIZE;
