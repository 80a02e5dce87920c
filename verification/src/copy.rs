//! The copy of one table, as a state machine.
//!
//! The machine talks to no database. It says what to do next, a
//! [`Command`], and is told how that went, a [`Reply`]. Whoever holds the
//! connections carries the commands out in the order in which they are given:
//!
//! 1. begin a transaction on the sink,
//! 2. create the table there,
//! 3. prepare the insert statement,
//! 4. run the select statement on the source,
//! 5. fetch row after row, and insert each with its values adapted,
//! 6. commit when the rows are exhausted.
//!
//! The first failure ends the copy: the machine answers it with
//! [`Command::Abort`] and takes no further reply, so nothing is committed.

use crate::error::Error;
use crate::tables::Table;
use crate::value::{adapt_row, adapted_row, params_view, SinkParam, SinkParamView, SourceValue};
use vstd::prelude::*;

verus! {

/// How a command went.
#[derive(Debug, PartialEq, Eq)]
pub enum Reply {
    /// It was carried out and gave nothing back.
    Done,
    /// The fetch gave the next row of the source.
    Row(Vec<SourceValue>),
    /// The fetch found the rows exhausted.
    End,
    /// It failed.
    Failed(Error),
}

/// What to do next.
#[derive(Debug, PartialEq, Eq)]
pub enum Command {
    /// Begin a transaction on the sink.
    Begin,
    /// Execute this statement on the sink: it creates the table.
    Define(&'static str),
    /// Prepare this insert statement on the sink, once for all rows.
    Prepare(&'static str),
    /// Run this select statement on the source.
    Select(&'static str),
    /// Fetch the next row of the select.
    Fetch,
    /// Bind these parameters, in order, to the prepared insert and execute it.
    Insert(Vec<SinkParam>),
    /// Commit the transaction.
    Commit,
    /// The table is copied; holds the number of its rows.
    Finish(u64),
    /// Give the copy up: let go of the transaction without committing it and
    /// report the error.
    Abort(Error),
}

/// A command as a mathematical value.
pub enum CommandView {
    Begin,
    Define(&'static str),
    Prepare(&'static str),
    Select(&'static str),
    Fetch,
    Insert(Seq<SinkParamView>),
    Commit,
    Finish(u64),
    Abort(Error),
}

impl View for Command {
    type V = CommandView;

    open spec fn view(&self) -> CommandView {
        match *self {
            Command::Begin => CommandView::Begin,
            Command::Define(sql) => CommandView::Define(sql),
            Command::Prepare(sql) => CommandView::Prepare(sql),
            Command::Select(sql) => CommandView::Select(sql),
            Command::Fetch => CommandView::Fetch,
            Command::Insert(params) => CommandView::Insert(params_view(params@)),
            Command::Commit => CommandView::Commit,
            Command::Finish(rows) => CommandView::Finish(rows),
            Command::Abort(error) => CommandView::Abort(error),
        }
    }
}

/// The command whose reply the machine waits for, or how the copy ended.
#[derive(Debug, Clone, Copy, PartialEq, Eq, Structural)]
pub enum Phase {
    /// Waits for the transaction to begin.
    Beginning,
    /// Waits for the table to be created.
    Defining,
    /// Waits for the insert statement to be prepared.
    Preparing,
    /// Waits for the select statement to run.
    Selecting,
    /// Waits for the next row.
    Fetching,
    /// Waits for the insert of a row.
    Inserting,
    /// Waits for the commit.
    Committing,
    /// The table is copied and the transaction committed.
    Finished,
    /// The copy was given up.
    Aborted,
}

/// The copy of one table in progress.
#[derive(Debug, Clone, Copy)]
pub struct TableCopy {
    /// The table that is copied.
    pub table: Table,
    /// Where the copy stands.
    pub phase: Phase,
    /// The rows inserted so far.
    pub rows: u64,
}

impl TableCopy {
    /// The copy of `table` before anything was done but to ask for a
    /// transaction.
    pub open spec fn initial(table: Table) -> TableCopy {
        TableCopy { table, phase: Phase::Beginning, rows: 0 }
    }

    /// The same copy in another phase.
    pub open spec fn moved(self, phase: Phase) -> TableCopy {
        TableCopy { phase, ..self }
    }

    /// Whether `reply` can be the answer to the command that the machine
    /// waits on. A row has as many values as the table has columns, and the
    /// row counter has room for one more. A copy that has ended takes no reply.
    pub open spec fn accepts(self, reply: Reply) -> bool {
        match self.phase {
            Phase::Beginning | Phase::Defining | Phase::Preparing | Phase::Selecting
            | Phase::Committing => reply is Done || reply is Failed,
            Phase::Fetching => match reply {
                Reply::Row(row) => row@.len() == self.table.columns,
                Reply::End => true,
                Reply::Failed(_) => true,
                Reply::Done => false,
            },
            Phase::Inserting => reply is Failed || (reply is Done && self.rows < u64::MAX),
            Phase::Finished | Phase::Aborted => false,
        }
    }

    /// The machine after `reply`, and the command that it answers with. Of a
    /// reply that the machine does not accept this says nothing of use.
    pub open spec fn next(self, reply: Reply) -> (TableCopy, CommandView)
        recommends
            self.accepts(reply),
    {
        match reply {
            Reply::Failed(error) => (self.moved(Phase::Aborted), CommandView::Abort(error)),
            _ => match self.phase {
                Phase::Beginning => (
                    self.moved(Phase::Defining),
                    CommandView::Define(self.table.definition),
                ),
                Phase::Defining => (
                    self.moved(Phase::Preparing),
                    CommandView::Prepare(self.table.insert_sql),
                ),
                Phase::Preparing => (
                    self.moved(Phase::Selecting),
                    CommandView::Select(self.table.select_sql),
                ),
                Phase::Selecting => (self.moved(Phase::Fetching), CommandView::Fetch),
                Phase::Fetching => match reply {
                    Reply::Row(row) => match adapted_row(row@) {
                        Ok(params) => (self.moved(Phase::Inserting), CommandView::Insert(params)),
                        Err(error) => (self.moved(Phase::Aborted), CommandView::Abort(error)),
                    },
                    _ => (self.moved(Phase::Committing), CommandView::Commit),
                },
                Phase::Inserting => (
                    TableCopy { phase: Phase::Fetching, rows: (self.rows + 1) as u64, ..self },
                    CommandView::Fetch,
                ),
                Phase::Committing => (
                    self.moved(Phase::Finished),
                    CommandView::Finish(self.rows),
                ),
                Phase::Finished | Phase::Aborted => (self, arbitrary()),
            },
        }
    }

    /// Starts the copy of `table`: the first command asks for a transaction.
    pub fn begin(table: Table) -> (started: (TableCopy, Command))
        ensures
            started.0 == TableCopy::initial(table),
            started.1@ == CommandView::Begin,
    {
        (TableCopy { table, phase: Phase::Beginning, rows: 0 }, Command::Begin)
    }

    /// Whether `reply` can be the answer to the command that the machine
    /// waits on.
    pub fn takes(&self, reply: &Reply) -> (accepted: bool)
        ensures
            accepted == self.accepts(*reply),
    {
        match self.phase {
            Phase::Beginning | Phase::Defining | Phase::Preparing | Phase::Selecting
            | Phase::Committing => match reply {
                Reply::Done => true,
                Reply::Failed(_) => true,
                _ => false,
            },
            Phase::Fetching => match reply {
                Reply::Row(row) => row.len() == self.table.columns,
                Reply::End => true,
                Reply::Failed(_) => true,
                Reply::Done => false,
            },
            Phase::Inserting => match reply {
                Reply::Done => self.rows < u64::MAX,
                Reply::Failed(_) => true,
                _ => false,
            },
            Phase::Finished | Phase::Aborted => false,
        }
    }

    /// Takes the reply to the last command and gives the next one.
    pub fn step(&mut self, reply: Reply) -> (command: Command)
        requires
            old(self).accepts(reply),
        ensures
            *final(self) == old(self).next(reply).0,
            command@ == old(self).next(reply).1,
            command matches Command::Insert(params) ==> params@.len() == old(self).table.columns,
    {
        match reply {
            Reply::Failed(error) => {
                self.phase = Phase::Aborted;
                Command::Abort(error)
            },
            Reply::Row(row) => {
                match adapt_row(&row) {
                    Ok(params) => {
                        self.phase = Phase::Inserting;
                        Command::Insert(params)
                    },
                    Err(error) => {
                        self.phase = Phase::Aborted;
                        Command::Abort(error)
                    },
                }
            },
            Reply::End => {
                self.phase = Phase::Committing;
                Command::Commit
            },
            Reply::Done => {
                match self.phase {
                    Phase::Beginning => {
                        self.phase = Phase::Defining;
                        Command::Define(self.table.definition)
                    },
                    Phase::Defining => {
                        self.phase = Phase::Preparing;
                        Command::Prepare(self.table.insert_sql)
                    },
                    Phase::Preparing => {
                        self.phase = Phase::Selecting;
                        Command::Select(self.table.select_sql)
                    },
                    Phase::Selecting => {
                        self.phase = Phase::Fetching;
                        Command::Fetch
                    },
                    Phase::Inserting => {
                        self.rows = self.rows + 1;
                        self.phase = Phase::Fetching;
                        Command::Fetch
                    },
                    _ => {
                        self.phase = Phase::Finished;
                        Command::Finish(self.rows)
                    },
                }
            },
        }
    }
}

} // verus!
