//! The statements and their SQL text.

use schemamama_postgres::PostgresAdapter;
use schemamama_postgres::executor::{erase_version, record_version};
use schemamama_postgres::statement::{Statement, StatementKind};

#[test]
fn new_adapter_uses_the_default_table() {
    assert_eq!(PostgresAdapter::new().metadata_table(), "schemamama");
    assert_eq!(PostgresAdapter::new(), PostgresAdapter::with_metadata_table("schemamama"));
}

#[test]
fn adapter_keeps_the_table_it_was_given() {
    assert_eq!(PostgresAdapter::with_metadata_table("__custom__").metadata_table(), "__custom__");
}

#[test]
fn setup_schema_creates_the_table_if_absent() {
    let statement = PostgresAdapter::new().setup_schema();
    assert_eq!(statement, Statement { table: "schemamama", kind: StatementKind::CreateTable });
    assert_eq!(
        statement.text(),
        "CREATE TABLE IF NOT EXISTS schemamama (version BIGINT PRIMARY KEY);"
    );
    assert_eq!(statement.parameters(), Vec::<i64>::new());
}

#[test]
fn current_version_selects_the_greatest_version() {
    let statement = PostgresAdapter::new().current_version();
    assert_eq!(statement, Statement { table: "schemamama", kind: StatementKind::SelectLatest });
    assert_eq!(statement.text(), "SELECT version FROM schemamama ORDER BY version DESC LIMIT 1;");
    assert_eq!(statement.parameters(), Vec::<i64>::new());
}

#[test]
fn migrated_versions_selects_every_version() {
    let statement = PostgresAdapter::new().migrated_versions();
    assert_eq!(statement, Statement { table: "schemamama", kind: StatementKind::SelectAll });
    assert_eq!(statement.text(), "SELECT version FROM schemamama;");
    assert_eq!(statement.parameters(), Vec::<i64>::new());
}

#[test]
fn record_version_inserts_with_a_bound_version() {
    let statement = record_version(10, "schemamama");
    assert_eq!(statement, Statement { table: "schemamama", kind: StatementKind::Insert(10) });
    assert_eq!(statement.text(), "INSERT INTO schemamama (version) VALUES ($1);");
    assert_eq!(statement.parameters(), vec![10]);
}

#[test]
fn erase_version_deletes_with_a_bound_version() {
    let statement = erase_version(20, "schemamama");
    assert_eq!(statement, Statement { table: "schemamama", kind: StatementKind::Delete(20) });
    assert_eq!(statement.text(), "DELETE FROM schemamama WHERE version = $1;");
    assert_eq!(statement.parameters(), vec![20]);
}

#[test]
fn custom_table_name_goes_into_every_statement() {
    let adapter = PostgresAdapter::with_metadata_table("__custom__");
    assert_eq!(
        adapter.setup_schema().text(),
        "CREATE TABLE IF NOT EXISTS __custom__ (version BIGINT PRIMARY KEY);"
    );
    assert_eq!(
        adapter.current_version().text(),
        "SELECT version FROM __custom__ ORDER BY version DESC LIMIT 1;"
    );
    assert_eq!(adapter.migrated_versions().text(), "SELECT version FROM __custom__;");
    assert_eq!(
        record_version(1, "__custom__").text(),
        "INSERT INTO __custom__ (version) VALUES ($1);"
    );
    assert_eq!(erase_version(1, "__custom__").text(), "DELETE FROM __custom__ WHERE version = $1;");
}

#[test]
fn table_name_is_not_sanitized() {
    let statement = PostgresAdapter::with_metadata_table("a b; c").migrated_versions();
    assert_eq!(statement.text(), "SELECT version FROM a b; c;");
}

#[test]
fn extreme_versions_are_bound_unchanged() {
    assert_eq!(record_version(i64::MIN, "schemamama").parameters(), vec![i64::MIN]);
    assert_eq!(erase_version(i64::MAX, "schemamama").parameters(), vec![i64::MAX]);
}
