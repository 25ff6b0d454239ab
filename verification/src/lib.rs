//! The decisions of a migration adapter for PostgreSQL, free of I/O.
//!
//! The adapter records which migration versions have been applied in a table
//! of the target database, and runs each migration together with its
//! bookkeeping inside one transaction. This crate holds everything the adapter
//! decides: the statements it sends, how it reads the replies, and the order of
//! the steps of a transactional run. Whoever owns the connection performs the
//! steps and reports their results.
//!
//! - [`statement`]: the statements and their SQL text.
//! - [`reply`]: reading the rows that come back.
//! - [`migration`]: what a migration supplies.
//! - [`executor`]: the steps of one transactional run.
//! - [`adapter`]: the adapter that a migration engine talks to.
//! - [`model`]: what the database is taken to do, for the proofs.
//! - [`laws`]: what the adapter achieves, proved.

pub mod adapter;
pub mod executor;
pub mod laws;
pub mod migration;
pub mod model;
pub mod reply;
pub mod statement;

pub use crate::adapter::PostgresAdapter;
pub use crate::migration::PostgresMigration;
