//! Archives the league's MySQL tables into an SQLite database.
//!
//! This crate holds what such an archive run decides and computes, and
//! touches no database itself:
//!
//! - [`decode`] repairs the legacy text of the league database, in which
//!   bytes were written as octal escapes, with [`windows_1252`] for the code
//!   page;
//! - [`value`] turns the values of a source row into the parameters of an
//!   insert;
//! - [`copy`] is the copy of one table, a state machine that is told how each
//!   database call went and says which one to make next, and [`copy_runs`]
//!   proves what holds of its runs;
//! - [`archive`] is the run over all [`tables`], and [`archive_runs`] proves
//!   what holds of it.

pub mod archive;
pub mod archive_runs;
pub mod copy;
pub mod copy_runs;
pub mod decode;
pub mod error;
pub mod tables;
pub mod value;
pub mod windows_1252;
