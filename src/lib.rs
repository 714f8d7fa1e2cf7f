//! Backup staging and archive construction for a self-hosted password manager:
//! run identifiers and workspace paths, database dump planning, exclusion of
//! files, the entries of the archive, and the order of the stages of a run.

pub mod archive;
pub mod config;
pub mod database;
pub mod error;
pub mod exclusion;
pub mod pipeline;
pub mod run_id;
pub mod staging;
pub mod text;
pub mod workspace;
