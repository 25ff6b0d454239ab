//! The adapter: what a migration engine asks of a PostgreSQL database, as
//! statements to send and runs to perform.

use crate::executor::Executor;
use crate::migration::Direction;
use crate::statement::{Statement, StatementKind};
use vstd::prelude::*;

verus! {

/// An adapter that keeps the record of applied migrations in one table of a
/// PostgreSQL database.
///
/// The name of that table is fixed when the adapter is made and is written
/// into every statement as it is. The adapter does not check it: whoever
/// chooses the name answers for its being a safe identifier.
#[derive(Clone, Copy, Debug, PartialEq, Eq)]
pub struct PostgresAdapter {
    metadata_table: &'static str,
}

impl PostgresAdapter {
    /// The name of the metadata table.
    pub closed spec fn table(self) -> &'static str {
        self.metadata_table
    }

    /// The statement that creates the metadata table.
    pub open spec fn spec_setup_schema(self) -> Statement {
        Statement { table: self.table(), kind: StatementKind::CreateTable }
    }

    /// The query for the latest applied version.
    pub open spec fn spec_current_version(self) -> Statement {
        Statement { table: self.table(), kind: StatementKind::SelectLatest }
    }

    /// The query for all applied versions.
    pub open spec fn spec_migrated_versions(self) -> Statement {
        Statement { table: self.table(), kind: StatementKind::SelectAll }
    }

    /// The run that applies the migration with this version.
    pub open spec fn spec_apply_migration(self, version: i64) -> Executor {
        Executor::spec_start(self.table(), version, Direction::Up)
    }

    /// The run that reverses the migration with this version.
    pub open spec fn spec_revert_migration(self, version: i64) -> Executor {
        Executor::spec_start(self.table(), version, Direction::Down)
    }

    /// Creates an adapter that uses the metadata table `schemamama`.
    pub fn new() -> (adapter: PostgresAdapter)
        ensures
            adapter.table()@ == "schemamama"@,
    {
        Self::with_metadata_table("schemamama")
    }

    /// Creates an adapter with a metadata table of the caller's choice.
    pub fn with_metadata_table(metadata_table: &'static str) -> (adapter: PostgresAdapter)
        ensures
            adapter.table() == metadata_table,
    {
        PostgresAdapter { metadata_table }
    }

    /// The name of the metadata table.
    pub fn metadata_table(&self) -> (name: &'static str)
        ensures
            name == self.table(),
    {
        self.metadata_table
    }

    /// The statement that creates the metadata table. Where the table exists
    /// already the statement changes nothing, so it may be sent any number of
    /// times. It is never sent unasked: the caller decides when.
    pub fn setup_schema(&self) -> (statement: Statement)
        ensures
            statement == self.spec_setup_schema(),
    {
        Statement { table: self.metadata_table, kind: StatementKind::CreateTable }
    }

    /// The query for the latest applied version. Its reply is read by
    /// [`latest_version`](crate::reply::latest_version).
    pub fn current_version(&self) -> (statement: Statement)
        ensures
            statement == self.spec_current_version(),
    {
        Statement { table: self.metadata_table, kind: StatementKind::SelectLatest }
    }

    /// The query for all applied versions. Its reply is read by
    /// [`all_versions`](crate::reply::all_versions).
    pub fn migrated_versions(&self) -> (statement: Statement)
        ensures
            statement == self.spec_migrated_versions(),
    {
        Statement { table: self.metadata_table, kind: StatementKind::SelectAll }
    }

    /// The run that applies the migration with this version and records it.
    pub fn apply_migration(&self, version: i64) -> (executor: Executor)
        ensures
            executor == self.spec_apply_migration(version),
    {
        Executor::start(self.metadata_table, version, Direction::Up)
    }

    /// The run that reverses the migration with this version and removes its
    /// record.
    pub fn revert_migration(&self, version: i64) -> (executor: Executor)
        ensures
            executor == self.spec_revert_migration(version),
    {
        Executor::start(self.metadata_table, version, Direction::Down)
    }
}

} // verus!
