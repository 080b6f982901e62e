//! Keyed lookup in a sequence of records: the position of the first record
//! that meets a condition.

use vstd::prelude::*;

verus! {

/// The position of the first record that meets `wanted`, if any does.
pub open spec fn first_index<T>(rows: Seq<T>, wanted: spec_fn(T) -> bool) -> Option<int>
    decreases rows.len(),
{
    if rows.len() == 0 {
        None
    } else if wanted(rows[0]) {
        Some(0)
    } else {
        match first_index(rows.drop_first(), wanted) {
            Some(i) => Some(i + 1),
            None => None,
        }
    }
}

/// What `first_index` returns: a position in range whose record meets the
/// condition and before which none does, or nothing when no record meets it.
pub proof fn lemma_first_index<T>(rows: Seq<T>, wanted: spec_fn(T) -> bool)
    ensures
        match first_index(rows, wanted) {
            Some(i) => 0 <= i < rows.len() && wanted(rows[i]) && forall|j: int|
                0 <= j < i ==> !wanted(#[trigger] rows[j]),
            None => forall|j: int| 0 <= j < rows.len() ==> !wanted(#[trigger] rows[j]),
        },
    decreases rows.len(),
{
    if rows.len() > 0 && !wanted(rows[0]) {
        let rest = rows.drop_first();
        lemma_first_index(rest, wanted);
        match first_index(rest, wanted) {
            Some(i) => {
                assert(rest[i] == rows[i + 1]);
                assert forall|j: int| 0 <= j < i + 1 implies !wanted(#[trigger] rows[j]) by {
                    if j > 0 {
                        assert(rest[j - 1] == rows[j]);
                    }
                }
            },
            None => {
                assert forall|j: int| 0 <= j < rows.len() implies !wanted(#[trigger] rows[j]) by {
                    if j > 0 {
                        assert(rest[j - 1] == rows[j]);
                    }
                }
            },
        }
    }
}

/// A record that meets the condition, with none before it that does, is the
/// one that `first_index` finds.
pub proof fn lemma_first_index_found<T>(rows: Seq<T>, wanted: spec_fn(T) -> bool, at: int)
    requires
        0 <= at < rows.len(),
        wanted(rows[at]),
        forall|j: int| 0 <= j < at ==> !wanted(#[trigger] rows[j]),
    ensures
        first_index(rows, wanted) == Some(at),
{
    lemma_first_index(rows, wanted);
    match first_index(rows, wanted) {
        Some(i) => {
            if i < at {
                assert(!wanted(rows[i]));
            } else if at < i {
                assert(!wanted(rows[at]));
            }
        },
        None => {
            assert(!wanted(rows[at]));
        },
    }
}

/// Where no record meets the condition, `first_index` finds none.
pub proof fn lemma_first_index_absent<T>(rows: Seq<T>, wanted: spec_fn(T) -> bool)
    requires
        forall|j: int| 0 <= j < rows.len() ==> !wanted(#[trigger] rows[j]),
    ensures
        first_index(rows, wanted) is None,
{
    lemma_first_index(rows, wanted);
    match first_index(rows, wanted) {
        Some(i) => {
            assert(!wanted(rows[i]));
        },
        None => {},
    }
}

/// Two sequences whose records meet the condition at the same positions have
/// the same first such position.
pub proof fn lemma_first_index_same<T>(before: Seq<T>, after: Seq<T>, wanted: spec_fn(T) -> bool)
    requires
        before.len() == after.len(),
        forall|j: int|
            0 <= j < before.len() ==> wanted(#[trigger] before[j]) == wanted(#[trigger] after[j]),
    ensures
        first_index(before, wanted) == first_index(after, wanted),
{
    lemma_first_index(before, wanted);
    match first_index(before, wanted) {
        Some(i) => {
            assert(wanted(after[i]) == wanted(before[i]));
            assert forall|j: int| 0 <= j < i implies !wanted(#[trigger] after[j]) by {
                assert(wanted(before[j]) == wanted(after[j]));
            }
            lemma_first_index_found(after, wanted, i);
        },
        None => {
            assert forall|j: int| 0 <= j < after.len() implies !wanted(#[trigger] after[j]) by {
                assert(wanted(before[j]) == wanted(after[j]));
            }
            lemma_first_index_absent(after, wanted);
        },
    }
}

/// Appending a record keeps a position that was found, and otherwise finds
/// the new record if it meets the condition.
pub proof fn lemma_first_index_push<T>(rows: Seq<T>, added: T, wanted: spec_fn(T) -> bool)
    ensures
        first_index(rows.push(added), wanted) == match first_index(rows, wanted) {
            Some(i) => Some(i),
            None => if wanted(added) {
                Some(rows.len() as int)
            } else {
                None
            },
        },
{
    let longer = rows.push(added);
    lemma_first_index(rows, wanted);
    match first_index(rows, wanted) {
        Some(i) => {
            assert(longer[i] == rows[i]);
            assert forall|j: int| 0 <= j < i implies !wanted(#[trigger] longer[j]) by {
                assert(longer[j] == rows[j]);
            }
            lemma_first_index_found(longer, wanted, i);
        },
        None => {
            if wanted(added) {
                assert(longer[rows.len() as int] == added);
                assert forall|j: int| 0 <= j < rows.len() implies !wanted(#[trigger] longer[j]) by {
                    assert(longer[j] == rows[j]);
                }
                lemma_first_index_found(longer, wanted, rows.len() as int);
            } else {
                assert forall|j: int| 0 <= j < longer.len() implies !wanted(
                    #[trigger] longer[j],
                ) by {
                    if j < rows.len() {
                        assert(longer[j] == rows[j]);
                    }
                }
                lemma_first_index_absent(longer, wanted);
            }
        },
    }
}

} // verus!
