//! The archive run: the tables one after the other, and the sum of their rows.
//!
//! Like the copy of one table, the run is a state machine that touches no
//! database. It names the table to copy next, is told how many rows were
//! copied or why the copy was given up, and stops at the first failure.

use crate::error::Error;
use crate::tables::Table;
use vstd::prelude::*;

verus! {

/// What to do next in an archive run.
#[derive(Debug, PartialEq, Eq)]
pub enum Step {
    /// Copy this table.
    Copy(Table),
    /// All tables are copied; holds the number of rows of all of them.
    Finish(u64),
    /// Give the run up and report the error. The tables copied before stay
    /// in the sink.
    Abort(Error),
}

/// An archive run in progress.
#[derive(Debug)]
pub struct Archiver {
    /// The tables to copy, in this order.
    pub tables: Vec<Table>,
    /// How many of them are copied.
    pub copied: usize,
    /// The rows copied so far.
    pub rows: u64,
    /// Whether the run was given up.
    pub aborted: bool,
}

impl Archiver {
    /// The run over `tables` before anything was copied.
    pub open spec fn initial(tables: Vec<Table>) -> Archiver {
        Archiver { tables, copied: 0, rows: 0, aborted: false }
    }

    /// Whether the run waits for the outcome of a copy.
    pub open spec fn waits(self) -> bool {
        !self.aborted && self.copied < self.tables@.len()
    }

    /// What a run that was not given up asks for: the copy of the first table
    /// that is not copied yet, or nothing more.
    pub open spec fn pending(self) -> Step {
        if self.copied < self.tables@.len() {
            Step::Copy(self.tables@[self.copied as int])
        } else {
            Step::Finish(self.rows)
        }
    }

    /// Whether `outcome` can be recorded: the run waits for one, and the row
    /// counter has room for the rows of the table.
    pub open spec fn accepts(self, outcome: Result<u64, Error>) -> bool {
        &&& self.waits()
        &&& outcome matches Ok(rows) ==> self.rows + rows <= u64::MAX
    }

    /// The run after the copy that it waited for ended with `outcome`, and
    /// the step that follows.
    pub open spec fn next(self, outcome: Result<u64, Error>) -> (Archiver, Step)
        recommends
            self.accepts(outcome),
    {
        match outcome {
            Ok(rows) => {
                let run = Archiver {
                    copied: (self.copied + 1) as usize,
                    rows: (self.rows + rows) as u64,
                    ..self
                };
                (run, run.pending())
            },
            Err(error) => (Archiver { aborted: true, ..self }, Step::Abort(error)),
        }
    }

    /// Sets up a run over `tables`.
    pub fn new(tables: Vec<Table>) -> (run: Archiver)
        ensures
            run == Archiver::initial(tables),
    {
        Archiver { tables, copied: 0, rows: 0, aborted: false }
    }

    /// What the run asks for as it stands. On a new run this is the first
    /// step: the copy of the first table, or the end where there is no table.
    /// The steps after it are what `record` returns.
    pub fn start(&self) -> (step: Step)
        ensures
            step == self.pending(),
    {
        if self.copied < self.tables.len() {
            Step::Copy(self.tables[self.copied])
        } else {
            Step::Finish(self.rows)
        }
    }

    /// Whether `outcome` can be recorded now.
    pub fn takes(&self, outcome: &Result<u64, Error>) -> (accepted: bool)
        ensures
            accepted == self.accepts(*outcome),
    {
        if self.aborted || self.copied >= self.tables.len() {
            return false;
        }
        match outcome {
            Ok(rows) => *rows <= u64::MAX - self.rows,
            Err(_) => true,
        }
    }

    /// Records how the copy of the table asked for ended, and gives the next
    /// step: the next table, the end with the sum of all rows, or the
    /// failure, unchanged.
    pub fn record(&mut self, outcome: Result<u64, Error>) -> (step: Step)
        requires
            old(self).accepts(outcome),
        ensures
            *final(self) == old(self).next(outcome).0,
            step == old(self).next(outcome).1,
    {
        match outcome {
            Ok(rows) => {
                assert(self.copied < self.tables.len());
                self.copied = self.copied + 1;
                self.rows = self.rows + rows;
                self.start()
            },
            Err(error) => {
                self.aborted = true;
                Step::Abort(error)
            },
        }
    }
}

} // verus!
