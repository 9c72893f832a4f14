//! Command-line construction and dispatch decisions for the Python binding
//! of the xvc data version control engine.
//!
//! Keyword arguments are translated into flag and value tokens through static
//! option tables, prefixed with the session's global options and the
//! sub-command names. The dispatch module holds the decisions that surround a
//! run of the engine: log level, output filtering and the order of the steps.

pub mod options;
pub mod session;
pub mod file;
pub mod storage;
pub mod pipeline;
pub mod output;
pub mod dispatch;

pub use dispatch::{split_command, CommandHeader, CommandKind, Dispatch, Event};
pub use file::XvcFile;
pub use options::{update_cli_flag, update_cli_opt, update_targets, OptValue, Options, TranslateError};
pub use output::PyCommandOutput;
pub use pipeline::{XvcPipeline, XvcPipelineStep};
pub use session::Xvc;
pub use storage::XvcStorage;
