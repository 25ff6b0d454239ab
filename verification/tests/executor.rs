//! The steps of a transactional run.

use schemamama_postgres::PostgresAdapter;
use schemamama_postgres::executor::{Action, Executor, Phase, Step};
use schemamama_postgres::migration::Direction;
use schemamama_postgres::statement::{Statement, StatementKind};

fn proceed(executor: Executor) -> Executor {
    match executor.step::<&'static str>(Ok(())) {
        Step::Continue(next) => next,
        other => panic!("the run should go on: {:?}", other),
    }
}

#[test]
fn apply_begins_migrates_records_and_commits() {
    let executor = PostgresAdapter::new().apply_migration(10);
    assert_eq!(
        executor,
        Executor {
            table: "schemamama",
            version: 10,
            direction: Direction::Up,
            phase: Phase::Opening
        }
    );
    assert_eq!(executor.action(), Action::Begin);

    let executor = proceed(executor);
    assert_eq!(executor.phase, Phase::Migrating);
    assert_eq!(executor.action(), Action::Migrate(Direction::Up));

    let executor = proceed(executor);
    assert_eq!(executor.phase, Phase::Recording);
    assert_eq!(
        executor.action(),
        Action::Execute(Statement { table: "schemamama", kind: StatementKind::Insert(10) })
    );

    let executor = proceed(executor);
    assert_eq!(executor.phase, Phase::Committing);
    assert_eq!(executor.action(), Action::Commit);

    assert_eq!(executor.step::<&'static str>(Ok(())), Step::Committed);
}

#[test]
fn revert_begins_migrates_erases_and_commits() {
    let executor = PostgresAdapter::with_metadata_table("__custom__").revert_migration(20);
    assert_eq!(
        executor,
        Executor {
            table: "__custom__",
            version: 20,
            direction: Direction::Down,
            phase: Phase::Opening
        }
    );
    assert_eq!(executor.action(), Action::Begin);

    let executor = proceed(executor);
    assert_eq!(executor.action(), Action::Migrate(Direction::Down));

    let executor = proceed(executor);
    assert_eq!(
        executor.action(),
        Action::Execute(Statement { table: "__custom__", kind: StatementKind::Delete(20) })
    );

    let executor = proceed(executor);
    assert_eq!(executor.action(), Action::Commit);

    assert_eq!(executor.step::<&'static str>(Ok(())), Step::Committed);
}

#[test]
fn start_is_what_the_adapter_hands_out() {
    assert_eq!(
        Executor::start("schemamama", 7, Direction::Up),
        PostgresAdapter::new().apply_migration(7)
    );
    assert_eq!(
        Executor::start("schemamama", 7, Direction::Down),
        PostgresAdapter::new().revert_migration(7)
    );
}

#[test]
fn failure_to_open_ends_the_run_with_the_error() {
    let executor = PostgresAdapter::new().apply_migration(10);
    assert_eq!(executor.step(Err("no connection")), Step::Failed("no connection"));
}

#[test]
fn failure_of_the_logic_ends_the_run_before_any_bookkeeping() {
    let executor = proceed(PostgresAdapter::new().apply_migration(10));
    assert_eq!(executor.action(), Action::Migrate(Direction::Up));
    assert_eq!(executor.step(Err("up failed")), Step::Failed("up failed"));

    let executor = proceed(PostgresAdapter::new().revert_migration(10));
    assert_eq!(executor.action(), Action::Migrate(Direction::Down));
    assert_eq!(executor.step(Err("down failed")), Step::Failed("down failed"));
}

#[test]
fn failure_of_the_bookkeeping_ends_the_run_before_the_commit() {
    let executor = proceed(proceed(PostgresAdapter::new().apply_migration(10)));
    assert_eq!(executor.phase, Phase::Recording);
    assert_eq!(executor.step(Err("duplicate key")), Step::Failed("duplicate key"));
}

#[test]
fn failure_of_the_commit_ends_the_run_with_the_error() {
    let executor = proceed(proceed(proceed(PostgresAdapter::new().apply_migration(10))));
    assert_eq!(executor.action(), Action::Commit);
    assert_eq!(executor.step(Err("commit failed")), Step::Failed("commit failed"));
}

#[test]
fn step_keeps_table_version_and_direction() {
    let executor = proceed(Executor::start("__custom__", -5, Direction::Down));
    assert_eq!(
        executor,
        Executor {
            table: "__custom__",
            version: -5,
            direction: Direction::Down,
            phase: Phase::Migrating
        }
    );
}
