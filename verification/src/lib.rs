//! Core of a small directory-listing command-line tool: resolving the
//! command-line options, deciding which directory entries are shown, and
//! rendering each entry as colorized text. All decisions and formatting are
//! verified; the surrounding process (filesystem access, printing, exit
//! codes) lives outside this crate and hands plain values in and out.

pub mod entry;
pub mod options;
pub mod parse;
pub mod render;
pub mod text;

pub use parse::CliError;
pub use parse::MetaCommand;
pub use parse::ParsedCommand;
pub use parse::help_text;
pub use parse::meta_command;
pub use parse::parse_arguments;
pub use render::format_entry;
pub use render::format_single_entry;
pub use render::header_line;
pub use render::run;

pub use options::DisplayOptions;
pub use options::FilteringOptions;
