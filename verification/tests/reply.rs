//! Reading the rows of the two queries.

use std::collections::BTreeSet;

use schemamama_postgres::reply::{all_versions, latest_version};

#[test]
fn latest_version_of_no_rows_is_nothing() {
    assert_eq!(latest_version(&Vec::new()), None);
}

#[test]
fn latest_version_is_in_the_first_row() {
    assert_eq!(latest_version(&vec![20]), Some(20));
    assert_eq!(latest_version(&vec![20, 10]), Some(20));
    assert_eq!(latest_version(&vec![-3]), Some(-3));
}

#[test]
fn all_versions_of_no_rows_is_empty() {
    assert_eq!(all_versions(&Vec::new()), BTreeSet::new());
}

#[test]
fn all_versions_collects_every_row() {
    let versions = all_versions(&vec![20, 10, 30]);
    assert_eq!(versions.into_iter().collect::<Vec<i64>>(), vec![10, 20, 30]);
}

#[test]
fn all_versions_holds_a_repeated_row_once() {
    let versions = all_versions(&vec![10, 10, 20, 10]);
    assert_eq!(versions.into_iter().collect::<Vec<i64>>(), vec![10, 20]);
}

#[test]
fn all_versions_takes_versions_that_no_migration_is_registered_for() {
    let versions = all_versions(&vec![i64::MAX, i64::MIN, 0]);
    assert_eq!(versions.into_iter().collect::<Vec<i64>>(), vec![i64::MIN, 0, i64::MAX]);
}
