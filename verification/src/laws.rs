//! What the adapter achieves, proved of the executor run against the model
//! of the database.

use crate::adapter::PostgresAdapter;
use crate::executor::{Action, Executor, Step};
use crate::migration::Direction;
use crate::model::{is_greatest, run, Database, Failure, Faults, Logic, Outcome, Session};
use crate::reply::spec_latest_version;
use crate::statement::Statement;
use vstd::prelude::*;

verus! {

/// What applying the migration with this version through the adapter leaves
/// behind.
pub open spec fn applied(
    adapter: PostgresAdapter,
    version: i64,
    database: Database,
    logic: Logic,
    faults: Faults,
) -> Outcome {
    run(adapter.spec_apply_migration(version), Session::idle(database), logic, faults)
}

/// What reversing the migration with this version through the adapter leaves
/// behind.
pub open spec fn reverted(
    adapter: PostgresAdapter,
    version: i64,
    database: Database,
    logic: Logic,
    faults: Faults,
) -> Outcome {
    run(adapter.spec_revert_migration(version), Session::idle(database), logic, faults)
}

/// A run that failed: the database is as it was.
pub open spec fn failed(database: Database, failure: Failure) -> Outcome {
    Outcome { database, result: Err(failure) }
}

/// The outcome of a whole run, said at once: the first action that fails
/// decides the error and leaves the database as it was; where none fails, the
/// database holds what the migration's logic made of it, with the bookkeeping
/// done on top.
pub open spec fn all_or_nothing(
    executor: Executor,
    database: Database,
    logic: Logic,
    faults: Faults,
) -> Outcome {
    if !faults.connects {
        failed(database, Failure::Connection)
    } else {
        match (logic.toward(executor.direction))(database) {
            None => failed(database, Failure::Migration),
            Some(migrated) => if !faults.delivers {
                failed(database, Failure::Connection)
            } else {
                match migrated.execute(executor.bookkeeping()) {
                    Err(failure) => failed(database, failure),
                    Ok(recorded) => if faults.commits {
                        Outcome { database: recorded, result: Ok(()) }
                    } else {
                        failed(database, Failure::Commit)
                    },
                }
            },
        }
    }
}

/// The steps of a run follow each other in one order: the transaction is
/// opened, the migration's logic runs in it, the bookkeeping statement is
/// executed in it, and it is committed. Each step is taken only after the one
/// before it has succeeded, and nothing follows the commit.
pub proof fn steps_follow_in_order<E>(table: &'static str, version: i64, direction: Direction)
    ensures
        ({
            let done = Ok::<(), E>(());
            let opening = Executor::spec_start(table, version, direction);
            &&& opening.spec_action() == Action::Begin
            &&& opening.spec_step(done) matches Step::Continue(migrating) && {
                &&& migrating.spec_action() == Action::Migrate(direction)
                &&& migrating.spec_step(done) matches Step::Continue(recording) && {
                    &&& recording.spec_action() == Action::Execute(opening.bookkeeping())
                    &&& recording.spec_step(done) matches Step::Continue(committing) && {
                        &&& committing.spec_action() == Action::Commit
                        &&& committing.spec_step(done) == Step::<E>::Committed
                    }
                }
            }
        }),
{
}

/// A step that fails is the last one: the run ends with the error as it
/// came, so that nothing is executed or committed after it.
pub proof fn failure_ends_the_run<E>(executor: Executor, error: E)
    ensures
        executor.spec_step(Err::<(), E>(error)) == Step::Failed(error),
{
}

/// A run is atomic: the migration's logic and the bookkeeping become visible
/// together, or neither does. Whatever fails, and wherever, the database is
/// left as it was before the run.
pub proof fn run_is_atomic(
    table: &'static str,
    version: i64,
    direction: Direction,
    database: Database,
    logic: Logic,
    faults: Faults,
)
    ensures
        ({
            let executor = Executor::spec_start(table, version, direction);
            let outcome = run(executor, Session::idle(database), logic, faults);
            &&& outcome == all_or_nothing(executor, database, logic, faults)
            &&& outcome.result is Err ==> outcome.database == database
        }),
{
    reveal_with_fuel(run, 5);
}

/// Setting up the schema twice is the same as doing it once: the statement
/// succeeds each time, the table exists afterwards, it records what it
/// recorded before (nothing, where it is new), and nothing else changes.
pub proof fn setup_is_idempotent(adapter: PostgresAdapter, database: Database)
    ensures
        database.execute(adapter.spec_setup_schema()) matches Ok(once) && {
            &&& once.execute(adapter.spec_setup_schema()) == Ok::<Database, Failure>(once)
            &&& once.has_table(adapter.table()@)
            &&& once.versions(adapter.table()@) == database.versions(adapter.table()@)
            &&& once.relations == database.relations
            &&& forall|other: Seq<char>|
                other != adapter.table()@ ==> {
                    &&& once.has_table(other) == database.has_table(other)
                    &&& #[trigger] once.versions(other) == database.versions(other)
                }
            &&& database.has_table(adapter.table()@) ==> once == database
        },
{
}

/// Where the logic that applies a migration fails, the run fails with that
/// failure, and the database is as if the run had never been: the run has not
/// recorded the version, and nothing that the logic did before it failed can
/// be seen.
pub proof fn failed_apply_leaves_no_trace(
    adapter: PostgresAdapter,
    version: i64,
    database: Database,
    logic: Logic,
    faults: Faults,
)
    requires
        (logic.up)(database) is None,
    ensures
        ({
            let table = adapter.table()@;
            let outcome = applied(adapter, version, database, logic, faults);
            &&& outcome.result is Err
            &&& faults.connects ==> outcome.result == Err::<(), Failure>(Failure::Migration)
            &&& outcome.database == database
            &&& !database.versions(table).contains(version) ==> !outcome.database.versions(
                table,
            ).contains(version)
        }),
{
    run_is_atomic(adapter.table(), version, Direction::Up, database, logic, faults);
}

/// Where the logic that reverses a migration fails, the run fails with that
/// failure, and the database is as if the run had never been: a version that
/// was recorded stays recorded.
pub proof fn failed_revert_keeps_the_record(
    adapter: PostgresAdapter,
    version: i64,
    database: Database,
    logic: Logic,
    faults: Faults,
)
    requires
        (logic.down)(database) is None,
    ensures
        ({
            let table = adapter.table()@;
            let outcome = reverted(adapter, version, database, logic, faults);
            &&& outcome.result is Err
            &&& faults.connects ==> outcome.result == Err::<(), Failure>(Failure::Migration)
            &&& outcome.database == database
            &&& database.versions(table).contains(version) ==> outcome.database.versions(
                table,
            ).contains(version)
        }),
{
    run_is_atomic(adapter.table(), version, Direction::Down, database, logic, faults);
}

/// A successful apply records exactly its version: the version was not
/// recorded before, and afterwards the table records it beside what it
/// recorded before. This holds where the migration's logic leaves the
/// metadata table alone.
pub proof fn apply_records_the_version(
    adapter: PostgresAdapter,
    version: i64,
    database: Database,
    logic: Logic,
    faults: Faults,
)
    requires
        logic.leaves(Direction::Up, database, adapter.table()@),
        applied(adapter, version, database, logic, faults).result is Ok,
    ensures
        ({
            let table = adapter.table()@;
            let outcome = applied(adapter, version, database, logic, faults);
            &&& database.has_table(table)
            &&& !database.versions(table).contains(version)
            &&& outcome.database.has_table(table)
            &&& outcome.database.versions(table) == database.versions(table).insert(version)
        }),
{
    run_is_atomic(adapter.table(), version, Direction::Up, database, logic, faults);
}

/// A successful revert erases exactly its version: afterwards the table
/// records what it recorded before, without that version. Reverting a version
/// that is not recorded is no failure. This holds where the migration's logic
/// leaves the metadata table alone.
pub proof fn revert_erases_the_version(
    adapter: PostgresAdapter,
    version: i64,
    database: Database,
    logic: Logic,
    faults: Faults,
)
    requires
        logic.leaves(Direction::Down, database, adapter.table()@),
        reverted(adapter, version, database, logic, faults).result is Ok,
    ensures
        ({
            let table = adapter.table()@;
            let outcome = reverted(adapter, version, database, logic, faults);
            &&& database.has_table(table)
            &&& outcome.database.has_table(table)
            &&& outcome.database.versions(table) == database.versions(table).remove(version)
        }),
{
    run_is_atomic(adapter.table(), version, Direction::Down, database, logic, faults);
}

/// Applying the same version twice in a row fails the second time and leaves
/// the one record that the first apply made. Where nothing else goes wrong
/// the second time, the failure is the database's refusal to record a version
/// twice. This holds where the migration's logic, run the second time, does
/// not itself remove the record.
pub proof fn second_apply_is_rejected(
    adapter: PostgresAdapter,
    version: i64,
    database: Database,
    logic: Logic,
    first: Faults,
    second: Faults,
)
    requires
        applied(adapter, version, database, logic, first).result is Ok,
        (logic.up)(applied(adapter, version, database, logic, first).database) matches Some(again)
            ==> again.versions(adapter.table()@).contains(version),
    ensures
        ({
            let table = adapter.table()@;
            let once = applied(adapter, version, database, logic, first).database;
            let twice = applied(adapter, version, once, logic, second);
            &&& once.versions(table).contains(version)
            &&& twice.result is Err
            &&& twice.database == once
            &&& second.connects && (logic.up)(once) is Some && second.delivers ==> twice.result
                == Err::<(), Failure>(Failure::UniqueViolation)
        }),
{
    let once = applied(adapter, version, database, logic, first).database;
    run_is_atomic(adapter.table(), version, Direction::Up, database, logic, first);
    run_is_atomic(adapter.table(), version, Direction::Up, once, logic, second);
}

/// A recorded version is listed once among the migrated versions: a reply to
/// the adapter's query holds it in one row and in no other.
pub proof fn recorded_version_is_listed_once(
    adapter: PostgresAdapter,
    version: i64,
    database: Database,
    rows: Seq<i64>,
)
    requires
        database.versions(adapter.table()@).contains(version),
        database.answers(adapter.spec_migrated_versions(), rows),
    ensures
        exists|row: int| 0 <= row < rows.len() && rows[row] == version,
        forall|row: int, other: int|
            0 <= row < rows.len() && 0 <= other < rows.len() && rows[row] == version && rows[other]
                == version ==> row == other,
{
    assert(rows.to_set().contains(version));
}

/// Adapters with different metadata tables keep apart: whatever one of them
/// does, setting up, applying or reverting, the table of the other exists or
/// not as before and records what it recorded before. A run that fails leaves
/// it so in any case; one that succeeds leaves it so where the migration's
/// logic leaves the other's table alone.
pub proof fn adapters_keep_apart(
    adapter: PostgresAdapter,
    other: PostgresAdapter,
    version: i64,
    database: Database,
    logic: Logic,
    faults: Faults,
)
    requires
        adapter.table()@ != other.table()@,
    ensures
        ({
            let table = other.table()@;
            let up = applied(adapter, version, database, logic, faults);
            let down = reverted(adapter, version, database, logic, faults);
            &&& database.execute(adapter.spec_setup_schema()) matches Ok(prepared) && {
                &&& prepared.has_table(table) == database.has_table(table)
                &&& prepared.versions(table) == database.versions(table)
            }
            &&& up.result is Err || logic.leaves(Direction::Up, database, table) ==> {
                &&& up.database.has_table(table) == database.has_table(table)
                &&& up.database.versions(table) == database.versions(table)
            }
            &&& down.result is Err || logic.leaves(Direction::Down, database, table) ==> {
                &&& down.database.has_table(table) == database.has_table(table)
                &&& down.database.versions(table) == database.versions(table)
            }
        }),
{
    run_is_atomic(adapter.table(), version, Direction::Up, database, logic, faults);
    run_is_atomic(adapter.table(), version, Direction::Down, database, logic, faults);
}

/// Statements of one kind against different tables differ in their text: the
/// text alone tells the database which table is meant.
pub proof fn text_names_the_table(first: Statement, second: Statement)
    requires
        first.kind == second.kind,
        first.spec_text() == second.spec_text(),
    ensures
        first.table@ == second.table@,
{
    let (head, tail) = crate::statement::frame(first.kind);
    let one = first.table@;
    let two = second.table@;
    assert(first.spec_text() == head + one + tail);
    assert(second.spec_text() == head + two + tail);
    assert((head + one + tail).len() == (head + two + tail).len());
    assert(one.len() == two.len());
    assert forall|index: int| 0 <= index < one.len() implies one[index] == two[index] by {
        assert((head + one + tail)[head.len() + index] == one[index]);
        assert((head + two + tail)[head.len() + index] == two[index]);
    }
    assert(one =~= two);
}

/// The current version is the greatest recorded one: read from a reply to
/// the adapter's query, it is nothing exactly where the table records
/// nothing, and otherwise a recorded version that none exceeds.
pub proof fn current_version_is_the_greatest(
    adapter: PostgresAdapter,
    database: Database,
    rows: Seq<i64>,
)
    requires
        database.answers(adapter.spec_current_version(), rows),
    ensures
        match spec_latest_version(rows) {
            None => database.versions(adapter.table()@) == Set::<i64>::empty(),
            Some(version) => is_greatest(database.versions(adapter.table()@), version),
        },
{
}

/// The migrated versions are the recorded ones: a reply to the adapter's
/// query, read as a set, is what the table records.
pub proof fn migrated_versions_are_the_recorded(
    adapter: PostgresAdapter,
    database: Database,
    rows: Seq<i64>,
)
    requires
        database.answers(adapter.spec_migrated_versions(), rows),
    ensures
        rows.to_set() == database.versions(adapter.table()@),
{
}

/// Applying in ascending order moves the current version along: after a
/// successful apply of a version greater than all recorded ones, that version
/// is the current one. This holds where the migration's logic leaves the
/// metadata table alone.
pub proof fn ascending_apply_sets_current_version(
    adapter: PostgresAdapter,
    version: i64,
    database: Database,
    logic: Logic,
    faults: Faults,
    rows: Seq<i64>,
)
    requires
        logic.leaves(Direction::Up, database, adapter.table()@),
        forall|recorded: i64| #[trigger]
            database.versions(adapter.table()@).contains(recorded) ==> recorded < version,
        applied(adapter, version, database, logic, faults).result is Ok,
        applied(adapter, version, database, logic, faults).database.answers(
            adapter.spec_current_version(),
            rows,
        ),
    ensures
        spec_latest_version(rows) == Some(version),
{
    apply_records_the_version(adapter, version, database, logic, faults);
    let recorded = applied(adapter, version, database, logic, faults).database.versions(
        adapter.table()@,
    );
    assert(recorded.contains(version));
    assert(recorded != Set::<i64>::empty());
}

/// Reverting the current version makes the greatest of the others current:
/// after a successful revert, the current version is nothing where no other
/// version was recorded, and otherwise the greatest of those that were
/// recorded beside the reverted one. This holds where the migration's logic
/// leaves the metadata table alone.
pub proof fn revert_restores_previous_version(
    adapter: PostgresAdapter,
    version: i64,
    database: Database,
    logic: Logic,
    faults: Faults,
    rows: Seq<i64>,
)
    requires
        logic.leaves(Direction::Down, database, adapter.table()@),
        reverted(adapter, version, database, logic, faults).result is Ok,
        reverted(adapter, version, database, logic, faults).database.answers(
            adapter.spec_current_version(),
            rows,
        ),
    ensures
        match spec_latest_version(rows) {
            None => database.versions(adapter.table()@).remove(version) == Set::<i64>::empty(),
            Some(previous) => is_greatest(
                database.versions(adapter.table()@).remove(version),
                previous,
            ),
        },
{
    revert_erases_the_version(adapter, version, database, logic, faults);
}

} // verus!
