//! Runs configured shell checks over the staged contents of a repository,
//! a bounded number of files at a time, and reports which of them failed.
//!
//! This crate holds the decisions: how a command line is read, how a
//! command template is expanded, how the outcome of one command is judged,
//! how files are admitted to the pool and how their results add up. Starting
//! processes and reading the repository is left to the caller.
//!
//! The pool bounds the files that are worked on at once. Every command of
//! a file that has a slot runs at once, so the processes alive at one time
//! can number the slots times the commands.

pub mod arguments;
pub mod check;
pub mod errors;
pub mod pool;
pub mod repo;
pub mod run;
pub mod world;

pub use arguments::parse_args;
pub use arguments::CommandKind;
pub use errors::Error;
pub use run::run;
pub use world::WriterWorld;
