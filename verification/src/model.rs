//! A model of the database, for stating what the adapter achieves.
//!
//! Nothing here is executable. The model says what the database is taken to
//! do with each statement and with a transaction; the laws of this crate are
//! proved of the executor run against it.

use crate::executor::{Action, Executor, Step};
use crate::migration::Direction;
use crate::statement::{Statement, StatementKind};
use vstd::prelude::*;

verus! {

/// What a database holds, as far as the adapter and its migrations go.
pub struct Database {
    /// The metadata tables that exist, by name, each with the versions it
    /// records.
    pub tables: Map<Seq<char>, Set<i64>>,
    /// The relations that migrations have created, by name.
    pub relations: Set<Seq<char>>,
}

/// Why an action failed.
pub enum Failure {
    /// The database could not be reached.
    Connection,
    /// The migration's own logic failed.
    Migration,
    /// The statement names a table that does not exist.
    UndefinedTable,
    /// The statement would record a version that is recorded already.
    UniqueViolation,
    /// The transaction could not be committed.
    Commit,
}

/// Whether `version` is in `versions` and none in it is greater.
pub open spec fn is_greatest(versions: Set<i64>, version: i64) -> bool {
    &&& versions.contains(version)
    &&& forall|other: i64| #[trigger] versions.contains(other) ==> other <= version
}

impl Database {
    /// Whether a metadata table of this name exists.
    pub open spec fn has_table(self, table: Seq<char>) -> bool {
        self.tables.dom().contains(table)
    }

    /// The versions that the metadata table of this name records: none if
    /// there is no such table.
    pub open spec fn versions(self, table: Seq<char>) -> Set<i64> {
        if self.has_table(table) {
            self.tables[table]
        } else {
            Set::empty()
        }
    }

    /// The database with the records of one metadata table replaced.
    pub open spec fn with_versions(self, table: Seq<char>, versions: Set<i64>) -> Database {
        Database { tables: self.tables.insert(table, versions), ..self }
    }

    /// What a statement does to the database.
    ///
    /// Creating a table that exists changes nothing and is no failure.
    /// Every other statement needs its table. Recording a version that is
    /// recorded already is refused; removing one that is not recorded is not.
    pub open spec fn execute(self, statement: Statement) -> Result<Database, Failure> {
        let table = statement.table@;
        let recorded = self.versions(table);
        match statement.kind {
            StatementKind::CreateTable => if self.has_table(table) {
                Ok(self)
            } else {
                Ok(self.with_versions(table, Set::empty()))
            },
            StatementKind::SelectLatest | StatementKind::SelectAll => if self.has_table(table) {
                Ok(self)
            } else {
                Err(Failure::UndefinedTable)
            },
            StatementKind::Insert(version) => if !self.has_table(table) {
                Err(Failure::UndefinedTable)
            } else if recorded.contains(version) {
                Err(Failure::UniqueViolation)
            } else {
                Ok(self.with_versions(table, recorded.insert(version)))
            },
            StatementKind::Delete(version) => if !self.has_table(table) {
                Err(Failure::UndefinedTable)
            } else {
                Ok(self.with_versions(table, recorded.remove(version)))
            },
        }
    }

    /// Whether `rows` may be the reply to a statement that succeeds.
    ///
    /// The query for all versions returns each recorded version once, in any
    /// order. The query for the latest returns the greatest recorded version,
    /// or no row where none is recorded. The other statements return no rows.
    pub open spec fn answers(self, statement: Statement, rows: Seq<i64>) -> bool {
        let recorded = self.versions(statement.table@);
        self.execute(statement) is Ok && match statement.kind {
            StatementKind::SelectAll => rows.no_duplicates() && rows.to_set() == recorded,
            StatementKind::SelectLatest => if recorded == Set::<i64>::empty() {
                rows.len() == 0
            } else {
                rows.len() == 1 && is_greatest(recorded, rows[0])
            },
            _ => rows.len() == 0,
        }
    }
}

/// What the logic of a migration does to the database inside a transaction,
/// in each direction: the database as it leaves it, or nothing where it
/// fails.
pub struct Logic {
    /// The logic that applies the migration.
    pub up: spec_fn(Database) -> Option<Database>,
    /// The logic that reverses the migration.
    pub down: spec_fn(Database) -> Option<Database>,
}

impl Logic {
    /// The logic for one direction.
    pub open spec fn toward(self, direction: Direction) -> spec_fn(Database) -> Option<Database> {
        match direction {
            Direction::Up => self.up,
            Direction::Down => self.down,
        }
    }

    /// Whether the logic, run in this direction on this database, leaves the
    /// metadata table of this name as it found it, if it succeeds.
    pub open spec fn leaves(
        self,
        direction: Direction,
        database: Database,
        table: Seq<char>,
    ) -> bool {
        (self.toward(direction))(database) matches Some(after) ==> {
            &&& after.has_table(table) == database.has_table(table)
            &&& after.versions(table) == database.versions(table)
        }
    }
}

/// Which of the actions that do not depend on the migration can be performed.
pub struct Faults {
    /// Whether a transaction can be opened.
    pub connects: bool,
    /// Whether a statement reaches the database.
    pub delivers: bool,
    /// Whether a transaction can be committed.
    pub commits: bool,
}

/// A database with a transaction on it.
pub struct Session {
    /// What the database holds for every observer.
    pub committed: Database,
    /// What the database holds inside the transaction.
    pub working: Database,
}

/// What a run leaves behind.
pub struct Outcome {
    /// What the database holds for every observer after the run.
    pub database: Database,
    /// How the run ended.
    pub result: Result<(), Failure>,
}

impl Session {
    /// A database on which no transaction has changed anything yet.
    pub open spec fn idle(database: Database) -> Session {
        Session { committed: database, working: database }
    }

    /// What performing an action does to the session, and the result that is
    /// reported for it.
    ///
    /// A new transaction starts from what is committed. The migration's logic
    /// and the statements change only what the transaction sees. A commit
    /// makes that visible to everyone. An action that fails changes nothing.
    pub open spec fn respond(self, action: Action, logic: Logic, faults: Faults) -> (
        Session,
        Result<(), Failure>,
    ) {
        match action {
            Action::Begin => if faults.connects {
                (Session { working: self.committed, ..self }, Ok(()))
            } else {
                (self, Err(Failure::Connection))
            },
            Action::Migrate(direction) => match (logic.toward(direction))(self.working) {
                Some(after) => (Session { working: after, ..self }, Ok(())),
                None => (self, Err(Failure::Migration)),
            },
            Action::Execute(statement) => if !faults.delivers {
                (self, Err(Failure::Connection))
            } else {
                match self.working.execute(statement) {
                    Ok(after) => (Session { working: after, ..self }, Ok(())),
                    Err(failure) => (self, Err(failure)),
                }
            },
            Action::Commit => if faults.commits {
                (Session { committed: self.working, ..self }, Ok(()))
            } else {
                (self, Err(Failure::Commit))
            },
        }
    }
}

/// Runs an executor to its end: each action it names is performed on the
/// session, and the result is handed back to it.
///
/// A run that fails leaves the transaction uncommitted, so what it leaves
/// behind is what was committed before.
pub open spec fn run(executor: Executor, session: Session, logic: Logic, faults: Faults) -> Outcome
    decreases executor.phase.remaining(),
{
    let (after, event) = session.respond(executor.spec_action(), logic, faults);
    match executor.spec_step(event) {
        Step::Continue(next) => run(next, after, logic, faults),
        Step::Committed => Outcome { database: after.committed, result: Ok(()) },
        Step::Failed(failure) => Outcome { database: after.committed, result: Err(failure) },
    }
}

} // verus!
