//! What a migration supplies beyond its version: the logic to run inside the
//! transaction.

use vstd::prelude::*;

verus! {

/// The direction in which a migration is run.
#[derive(Clone, Copy, Debug, PartialEq, Eq, Structural)]
pub enum Direction {
    /// Apply the migration.
    Up,
    /// Reverse the migration.
    Down,
}

/// A migration to be run inside a PostgreSQL transaction.
///
/// `T` is the handle of the open transaction and `E` the error of the
/// database client. Both methods succeed without doing anything unless the
/// migration overrides them, so a migration that only marks a version needs
/// neither. What a method does where a migration overrides it is the
/// migration's own business: nothing is promised of it here.
pub trait PostgresMigration<T, E> {
    /// Called when this migration is to be executed. Unless overridden, it
    /// succeeds and leaves the transaction as it found it.
    #[allow(unused_variables)]
    fn up(&self, transaction: &mut T) -> (outcome: Result<(), E>)
        default_ensures
            outcome is Ok,
            *final(transaction) == *old(transaction),
    {
        Ok(())
    }

    /// Called when this migration is to be reversed. Unless overridden, it
    /// succeeds and leaves the transaction as it found it.
    #[allow(unused_variables)]
    fn down(&self, transaction: &mut T) -> (outcome: Result<(), E>)
        default_ensures
            outcome is Ok,
            *final(transaction) == *old(transaction),
    {
        Ok(())
    }
}

} // verus!
