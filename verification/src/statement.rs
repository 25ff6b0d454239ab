//! The statements that the adapter sends to the database.

use vstd::prelude::*;

verus! {

/// What a statement does to the metadata table.
#[derive(Clone, Copy, Debug, PartialEq, Eq)]
pub enum StatementKind {
    /// Create the table unless it exists.
    CreateTable,
    /// Read the greatest recorded version.
    SelectLatest,
    /// Read every recorded version.
    SelectAll,
    /// Record a version.
    Insert(i64),
    /// Remove the record of a version.
    Delete(i64),
}

/// One statement against one metadata table.
#[derive(Clone, Copy, Debug, PartialEq, Eq)]
pub struct Statement {
    /// The name of the metadata table, written into the text as it is.
    pub table: &'static str,
    /// What the statement does.
    pub kind: StatementKind,
}

/// The text of a statement of this kind before and after the table's name.
pub open spec fn frame(kind: StatementKind) -> (Seq<char>, Seq<char>) {
    match kind {
        StatementKind::CreateTable => (
            "CREATE TABLE IF NOT EXISTS "@,
            " (version BIGINT PRIMARY KEY);"@,
        ),
        StatementKind::SelectLatest => (
            "SELECT version FROM "@,
            " ORDER BY version DESC LIMIT 1;"@,
        ),
        StatementKind::SelectAll => ("SELECT version FROM "@, ";"@),
        StatementKind::Insert(_) => ("INSERT INTO "@, " (version) VALUES ($1);"@),
        StatementKind::Delete(_) => ("DELETE FROM "@, " WHERE version = $1;"@),
    }
}

impl Statement {
    /// The SQL text of the statement: the table's name between the two parts
    /// that the kind of the statement fixes.
    pub open spec fn spec_text(self) -> Seq<char> {
        frame(self.kind).0 + self.table@ + frame(self.kind).1
    }

    /// The values bound to the placeholders of the text, in order.
    pub open spec fn spec_parameters(self) -> Seq<i64> {
        match self.kind {
            StatementKind::Insert(version) => seq![version],
            StatementKind::Delete(version) => seq![version],
            _ => Seq::empty(),
        }
    }

    /// Renders the SQL text. A version is never written into the text: it is
    /// bound to the placeholder `$1`.
    pub fn text(&self) -> (sql: String)
        ensures
            sql@ == self.spec_text(),
    {
        match self.kind {
            StatementKind::CreateTable => String::from_str("CREATE TABLE IF NOT EXISTS ").concat(
                self.table,
            ).concat(" (version BIGINT PRIMARY KEY);"),
            StatementKind::SelectLatest => String::from_str("SELECT version FROM ").concat(
                self.table,
            ).concat(" ORDER BY version DESC LIMIT 1;"),
            StatementKind::SelectAll => String::from_str("SELECT version FROM ").concat(
                self.table,
            ).concat(";"),
            StatementKind::Insert(_) => String::from_str("INSERT INTO ").concat(self.table).concat(
                " (version) VALUES ($1);",
            ),
            StatementKind::Delete(_) => String::from_str("DELETE FROM ").concat(self.table).concat(
                " WHERE version = $1;",
            ),
        }
    }

    /// The values to bind to the placeholders of the text, in order.
    pub fn parameters(&self) -> (values: Vec<i64>)
        ensures
            values@ == self.spec_parameters(),
    {
        match self.kind {
            StatementKind::Insert(version) => vec![version],
            StatementKind::Delete(version) => vec![version],
            _ => Vec::new(),
        }
    }
}

} // verus!
