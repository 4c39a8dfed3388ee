//! Process-wide logging setup: a filter-spec parser, a sink-configuration
//! builder, a one-shot initialization model, and the decision rule for
//! signal-driven log rotation.

pub mod latch;
pub mod level;
pub mod parse;
pub mod plan;
pub mod rotate;
pub mod setup;

pub use level::Level;
pub use level::level_from_str;
pub use parse::Directive;
pub use parse::EntryOutcome;
pub use parse::parse_env;
pub use parse::parse_env_outcomes;
pub use setup::{InitConfigOutcome, InstallOutcome, LogFavour, init, init_config, init_console,
    silent};
