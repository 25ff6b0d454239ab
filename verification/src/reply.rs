//! Reading the rows that the database returns for the two queries.
//!
//! A row of either query holds one version; the owner of the connection
//! hands the rows over as the versions they hold, in the order in which they
//! came.

use std::collections::BTreeSet;
use vstd::prelude::*;

verus! {

/// The version in the first row, if there is a row.
pub open spec fn spec_latest_version(rows: Seq<i64>) -> Option<i64> {
    if rows.len() == 0 {
        None
    } else {
        Some(rows[0])
    }
}

/// Reads the reply to [`StatementKind::SelectLatest`](crate::statement::StatementKind):
/// the version in the first row, or nothing if no row came.
pub fn latest_version(rows: &[i64]) -> (latest: Option<i64>)
    ensures
        latest == spec_latest_version(rows@),
{
    if rows.len() == 0 {
        None
    } else {
        Some(rows[0])
    }
}

/// Reads the reply to [`StatementKind::SelectAll`](crate::statement::StatementKind):
/// the set of the versions in the rows, in whatever order they came.
pub fn all_versions(rows: &[i64]) -> (versions: BTreeSet<i64>)
    ensures
        versions@ == rows@.to_set(),
{
    let mut versions: BTreeSet<i64> = BTreeSet::new();
    let mut index: usize = 0;
    while index < rows.len()
        invariant
            index <= rows.len(),
            versions@ == rows@.take(index as int).to_set(),
        decreases rows.len() - index,
    {
        versions.insert(rows[index]);
        proof {
            let seen = rows@.take(index as int);
            assert(rows@.take(index + 1) == seen.push(rows@[index as int]));
            seen.lemma_push_to_set_commute(rows@[index as int]);
        }
        index += 1;
    }
    assert(rows@.take(rows@.len() as int) == rows@);
    versions
}

} // verus!
