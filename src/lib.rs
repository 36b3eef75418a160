//! Declarative, idempotent jobs for one host: the decisions of command and file jobs,
//! and the scheduler that runs them in order of their needs.

pub mod command;
pub mod file;
pub mod jobs;
pub mod runner;
pub mod schedule;
pub mod text;
