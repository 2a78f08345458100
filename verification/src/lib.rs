//! Command-line configuration for an HTTP test runner and its formatter:
//! flag resolution, variable merging, glob expansion and the formatter's
//! run plan, each with a proved contract.

pub mod args;
pub mod error;
pub mod format;
pub mod globs;
pub mod laws;
pub mod lines;
pub mod options;
pub mod sources;
pub mod terminal;
pub mod text;
pub mod variables;
