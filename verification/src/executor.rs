//! The transactional executor: the steps of running one migration together
//! with its bookkeeping, as one unit.
//!
//! The executor performs nothing itself. It names the next action; the owner
//! of the connection performs it and reports how it went; the executor then
//! names the next one, or says that the run is over.

use crate::migration::Direction;
use crate::statement::{Statement, StatementKind};
use vstd::prelude::*;

verus! {

/// The statement that records `version` as applied in `metadata_table`.
pub fn record_version(version: i64, metadata_table: &'static str) -> (statement: Statement)
    ensures
        statement == (Statement { table: metadata_table, kind: StatementKind::Insert(version) }),
{
    Statement { table: metadata_table, kind: StatementKind::Insert(version) }
}

/// The statement that removes the record of `version` from `metadata_table`.
pub fn erase_version(version: i64, metadata_table: &'static str) -> (statement: Statement)
    ensures
        statement == (Statement { table: metadata_table, kind: StatementKind::Delete(version) }),
{
    Statement { table: metadata_table, kind: StatementKind::Delete(version) }
}

/// How far a run has come: the action whose result the executor waits for.
#[derive(Clone, Copy, Debug, PartialEq, Eq, Structural)]
pub enum Phase {
    /// Opening the transaction.
    Opening,
    /// Running the migration's own logic.
    Migrating,
    /// Updating the metadata table.
    Recording,
    /// Committing the transaction.
    Committing,
}

impl Phase {
    /// The number of actions that are still to succeed before the run is over.
    pub open spec fn remaining(self) -> nat {
        match self {
            Phase::Opening => 4,
            Phase::Migrating => 3,
            Phase::Recording => 2,
            Phase::Committing => 1,
        }
    }
}

/// What the owner of the connection is to do next.
#[derive(Clone, Copy, Debug, PartialEq, Eq)]
pub enum Action {
    /// Open a transaction.
    Begin,
    /// Run the migration's logic in this direction, inside the transaction.
    Migrate(Direction),
    /// Execute this statement inside the transaction.
    Execute(Statement),
    /// Commit the transaction.
    Commit,
}

/// Where a run stands after an action has been reported.
#[derive(Debug, PartialEq, Eq)]
pub enum Step<E> {
    /// The run goes on: perform the action of this executor.
    Continue(Executor),
    /// The transaction has been committed: the run succeeded.
    Committed,
    /// The reported action failed with this error. Nothing more is to be done
    /// but to drop the transaction, if one is open, without committing it.
    Failed(E),
}

/// One run of one migration, in one direction.
#[derive(Debug, PartialEq, Eq)]
pub struct Executor {
    /// The name of the metadata table.
    pub table: &'static str,
    /// The version of the migration.
    pub version: i64,
    /// Whether the migration is applied or reversed.
    pub direction: Direction,
    /// The action that is due.
    pub phase: Phase,
}

impl Executor {
    /// A run that has not yet opened its transaction.
    pub open spec fn spec_start(
        table: &'static str,
        version: i64,
        direction: Direction,
    ) -> Executor {
        Executor { table, version, direction, phase: Phase::Opening }
    }

    /// The change to the metadata table that belongs to this run: applying
    /// records the version, reversing removes the record.
    pub open spec fn bookkeeping(self) -> Statement {
        match self.direction {
            Direction::Up => Statement {
                table: self.table,
                kind: StatementKind::Insert(self.version),
            },
            Direction::Down => Statement {
                table: self.table,
                kind: StatementKind::Delete(self.version),
            },
        }
    }

    /// The action that is due in the current phase.
    pub open spec fn spec_action(self) -> Action {
        match self.phase {
            Phase::Opening => Action::Begin,
            Phase::Migrating => Action::Migrate(self.direction),
            Phase::Recording => Action::Execute(self.bookkeeping()),
            Phase::Committing => Action::Commit,
        }
    }

    /// Where the run stands once the due action has ended with `event`.
    ///
    /// A failure ends the run at once, with the error as it came. A success
    /// leads to the next phase, and after the commit to the end.
    pub open spec fn spec_step<E>(self, event: Result<(), E>) -> Step<E> {
        match event {
            Err(error) => Step::Failed(error),
            Ok(_) => match self.phase {
                Phase::Opening => Step::Continue(Executor { phase: Phase::Migrating, ..self }),
                Phase::Migrating => Step::Continue(Executor { phase: Phase::Recording, ..self }),
                Phase::Recording => Step::Continue(Executor { phase: Phase::Committing, ..self }),
                Phase::Committing => Step::Committed,
            },
        }
    }

    /// Starts a run of the migration with this version against this metadata
    /// table. The first action is to open a transaction.
    pub fn start(table: &'static str, version: i64, direction: Direction) -> (executor: Executor)
        ensures
            executor == Executor::spec_start(table, version, direction),
    {
        Executor { table, version, direction, phase: Phase::Opening }
    }

    /// The action to perform now.
    pub fn action(&self) -> (action: Action)
        ensures
            action == self.spec_action(),
    {
        match self.phase {
            Phase::Opening => Action::Begin,
            Phase::Migrating => Action::Migrate(self.direction),
            Phase::Recording => match self.direction {
                Direction::Up => Action::Execute(record_version(self.version, self.table)),
                Direction::Down => Action::Execute(erase_version(self.version, self.table)),
            },
            Phase::Committing => Action::Commit,
        }
    }

    /// Takes the result of the action that was due and says how the run goes
    /// on.
    pub fn step<E>(self, event: Result<(), E>) -> (step: Step<E>)
        ensures
            step == self.spec_step(event),
    {
        match event {
            Err(error) => Step::Failed(error),
            Ok(_) => match self.phase {
                Phase::Opening => Step::Continue(
                    Executor {
                        table: self.table,
                        version: self.version,
                        direction: self.direction,
                        phase: Phase::Migrating,
                    },
                ),
                Phase::Migrating => Step::Continue(
                    Executor {
                        table: self.table,
                        version: self.version,
                        direction: self.direction,
                        phase: Phase::Recording,
                    },
                ),
                Phase::Recording => Step::Continue(
                    Executor {
                        table: self.table,
                        version: self.version,
                        direction: self.direction,
                        phase: Phase::Committing,
                    },
                ),
                Phase::Committing => Step::Committed,
            },
        }
    }
}

} // verus!
