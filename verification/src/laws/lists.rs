//! Lemmas on lists of records: what a listing holds, and what a selection
//! keeps.

use vstd::prelude::*;
use crate::model::same_records;

verus! {

/// A record that no row of a list equals does not occur in the list.
pub(crate) proof fn absent_counts_zero<T>(records: Seq<T>, record: T)
    requires
        forall|i: int| 0 <= i < records.len() ==> records[i] != record,
    ensures
        records.to_multiset().count(record) == 0,
{
    broadcast use vstd::seq_lib::group_to_multiset_ensures;

    if records.to_multiset().count(record) > 0 {
        assert(records.contains(record));
        let i = choose|i: int| 0 <= i < records.len() && records[i] == record;
        assert(records[i] != record);
    }
}

/// A listing of a list that ends in a record found nowhere before it holds
/// that record once.
pub(crate) proof fn pushed_record_is_listed_once<T>(listed: Seq<T>, before: Seq<T>, record: T)
    requires
        same_records(listed, before.push(record)),
        forall|i: int| 0 <= i < before.len() ==> before[i] != record,
    ensures
        listed.to_multiset().count(record) == 1,
{
    broadcast use vstd::seq_lib::group_to_multiset_ensures;

    absent_counts_zero(before, record);
    assert(before.push(record).to_multiset() =~= before.to_multiset().insert(record));
}

/// Every row that a selection keeps is a row of the table and meets the
/// condition of the selection.
pub(crate) proof fn selected_rows<T>(rows: Seq<T>, keep: spec_fn(T) -> bool, i: int)
    requires
        0 <= i < rows.filter(keep).len(),
    ensures
        keep(rows.filter(keep)[i]),
        rows.contains(rows.filter(keep)[i]),
{
    broadcast use vstd::seq_lib::group_filter_ensures;

    let row = rows.filter(keep)[i];
    assert(rows.filter(keep).contains(row));
    rows.lemma_filter_contains_rev(keep, row);
}

/// A selection from rows of which none meets its condition is empty.
pub(crate) proof fn nothing_selected<T>(rows: Seq<T>, keep: spec_fn(T) -> bool)
    requires
        forall|i: int| 0 <= i < rows.len() ==> !keep(#[trigger] rows[i]),
    ensures
        rows.filter(keep).len() == 0,
{
    if rows.filter(keep).len() > 0 {
        selected_rows(rows, keep, 0);
        let kept = rows.filter(keep)[0];
        let at = choose|at: int| 0 <= at < rows.len() && rows[at] == kept;
        assert(!keep(rows[at]));
    }
}

/// A listing of no records is empty.
pub(crate) proof fn listing_of_nothing_is_empty<T>(listed: Seq<T>, stored: Seq<T>)
    requires
        same_records(listed, stored),
        stored.len() == 0,
    ensures
        listed.len() == 0,
{
    vstd::seq_lib::to_multiset_len(listed);
    vstd::seq_lib::to_multiset_len(stored);
}

/// A record that a listing holds is one of the records listed.
pub(crate) proof fn listed_record_is_stored<T>(listed: Seq<T>, stored: Seq<T>, i: int) -> (at: int)
    requires
        same_records(listed, stored),
        0 <= i < listed.len(),
    ensures
        0 <= at < stored.len(),
        stored[at] == listed[i],
{
    broadcast use vstd::seq_lib::group_to_multiset_ensures;

    assert(listed.contains(listed[i]));
    assert(listed.to_multiset().count(listed[i]) > 0);
    assert(stored.contains(listed[i]));
    choose|at: int| 0 <= at < stored.len() && stored[at] == listed[i]
}

/// Rows that a selection keeps stay in their order: each kept row sits, in
/// the table, before the kept rows that follow it.
pub(crate) proof fn selection_keeps_order<T>(rows: Seq<T>, keep: spec_fn(T) -> bool, i: int, j: int) -> (at:
    (int, int))
    requires
        0 <= i < j < rows.filter(keep).len(),
    ensures
        0 <= at.0 < at.1 < rows.len(),
        rows[at.0] == rows.filter(keep)[i],
        rows[at.1] == rows.filter(keep)[j],
    decreases rows.len(),
{
    reveal(Seq::filter);
    let shorter = rows.drop_last();
    let kept = shorter.filter(keep);
    if keep(rows.last()) && j == kept.len() {
        selected_rows(shorter, keep, i);
        let first = choose|first: int| 0 <= first < shorter.len() && shorter[first] == kept[i];
        (first, rows.len() - 1)
    } else {
        selection_keeps_order(shorter, keep, i, j)
    }
}

} // verus!
