//! Building blocks of a small command-line front end to git: reading the
//! repository's configuration and deciding which git invocations a command
//! amounts to.

pub mod text;
pub mod pattern;
pub mod line;
pub mod config;
pub mod reader_laws;
pub mod utils;
pub mod status;
pub mod report;
pub mod task;
pub mod git;
pub mod command_laws;
