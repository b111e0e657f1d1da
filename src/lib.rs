//! Decisions behind logged filesystem and process helpers: the lines logged
//! before each action, where a copy or a link lands, when an existing link
//! may be replaced, how a command line is built, and how a run of a command
//! proceeds from logging to its outcome.

pub mod command;
pub mod exec;
pub mod fs_ops;
pub mod log;
pub mod paths;
