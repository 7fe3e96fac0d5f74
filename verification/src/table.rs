//! The rows of the result table, and their order.

use vstd::prelude::*;
use vstd::seq_lib::to_multiset_insert;
use vstd::seq_lib::to_multiset_remove;

verus! {

/// One measurement: what was measured, the size that came out, and the
/// reduction of that size against the baseline, in whole percent.
#[derive(Clone, Debug)]
pub struct TableRow {
    pub method: String,
    pub bytes: usize,
    pub reduction: i32,
}

/// Whether the reductions of `rows` never rise from one row to the next.
pub open spec fn is_descending(rows: Seq<TableRow>) -> bool {
    forall|i: int, j: int| 0 <= i <= j < rows.len() ==> rows[i].reduction >= rows[j].reduction
}

/// The rows of `rows` whose reduction is `reduction`, in the order in which
/// they stand in `rows`.
pub open spec fn rows_with(rows: Seq<TableRow>, reduction: int) -> Seq<TableRow>
    decreases rows.len(),
{
    if rows.len() == 0 {
        Seq::empty()
    } else {
        let before = rows_with(rows.drop_last(), reduction);
        if rows.last().reduction == reduction {
            before.push(rows.last())
        } else {
            before
        }
    }
}

/// Whether `sorted` holds the rows of `rows` by descending reduction, with the
/// rows of one reduction in the order that they have in `rows`.
pub open spec fn is_stable_sort_of(sorted: Seq<TableRow>, rows: Seq<TableRow>) -> bool {
    &&& sorted.len() == rows.len()
    &&& is_descending(sorted)
    &&& forall|reduction: int| #[trigger]
        rows_with(sorted, reduction) == rows_with(rows, reduction)
}

/// The rows with a given reduction in `a + b` are those in `a`, then those in
/// `b`.
pub proof fn lemma_rows_with_concat(a: Seq<TableRow>, b: Seq<TableRow>, reduction: int)
    ensures
        rows_with(a + b, reduction) == rows_with(a, reduction) + rows_with(b, reduction),
    decreases b.len(),
{
    if b.len() == 0 {
        assert(a + b == a);
        assert(rows_with(a, reduction) + rows_with(b, reduction) == rows_with(a, reduction));
    } else {
        lemma_rows_with_concat(a, b.drop_last(), reduction);
        assert((a + b).drop_last() == a + b.drop_last());
        assert((a + b).last() == b.last());
        if b.last().reduction == reduction {
            assert((rows_with(a, reduction) + rows_with(b.drop_last(), reduction)).push(b.last())
                == rows_with(a, reduction) + rows_with(b.drop_last(), reduction).push(b.last()));
        }
    }
}

/// Where no row of `rows` has the reduction, none is selected.
pub proof fn lemma_rows_with_absent(rows: Seq<TableRow>, reduction: int)
    requires
        forall|i: int| 0 <= i < rows.len() ==> rows[i].reduction != reduction,
    ensures
        rows_with(rows, reduction) == Seq::<TableRow>::empty(),
    decreases rows.len(),
{
    if rows.len() > 0 {
        lemma_rows_with_absent(rows.drop_last(), reduction);
    }
}

/// Every selected row has the reduction asked for and stands in `rows`, and
/// every row of `rows` with that reduction is selected.
pub proof fn lemma_rows_with_members(rows: Seq<TableRow>, reduction: int)
    ensures
        forall|k: int|
            0 <= k < rows_with(rows, reduction).len() ==> {
                &&& (#[trigger] rows_with(rows, reduction)[k]).reduction == reduction
                &&& rows.contains(rows_with(rows, reduction)[k])
            },
        forall|i: int|
            0 <= i < rows.len() && (#[trigger] rows[i]).reduction == reduction ==> rows_with(
                rows,
                reduction,
            ).contains(rows[i]),
        rows_with(rows, reduction).len() <= rows.len(),
    decreases rows.len(),
{
    if rows.len() > 0 {
        let front = rows.drop_last();
        lemma_rows_with_members(front, reduction);
        let group = rows_with(rows, reduction);
        let before = rows_with(front, reduction);
        assert forall|k: int| 0 <= k < group.len() implies {
            &&& (#[trigger] group[k]).reduction == reduction
            &&& rows.contains(group[k])
        } by {
            if k < before.len() {
                assert(group[k] == before[k]);
                assert(front.contains(before[k]));
                let i = choose|i: int| 0 <= i < front.len() && front[i] == before[k];
                assert(rows[i] == before[k]);
            } else {
                assert(group[k] == rows.last());
                assert(rows[rows.len() - 1] == rows.last());
            }
        }
        assert forall|i: int| 0 <= i < rows.len() && (#[trigger] rows[i]).reduction
            == reduction implies group.contains(rows[i]) by {
            if i < front.len() {
                assert(front[i] == rows[i]);
                assert(before.contains(front[i]));
                let k = choose|k: int| 0 <= k < before.len() && before[k] == front[i];
                assert(group[k] == rows[i]);
            } else {
                assert(group[group.len() - 1] == rows[i]);
            }
        }
    }
}

/// Two descending sequences of one length that agree, for every reduction, on
/// the rows with that reduction and on their order, are the same sequence.
pub proof fn lemma_descending_groups_determine(a: Seq<TableRow>, b: Seq<TableRow>)
    requires
        a.len() == b.len(),
        is_descending(a),
        is_descending(b),
        forall|reduction: int| #[trigger] rows_with(a, reduction) == rows_with(b, reduction),
    ensures
        a == b,
    decreases a.len(),
{
    if a.len() > 0 {
        let low = a.last().reduction as int;
        let other = b.last().reduction as int;
        lemma_rows_with_members(a, low);
        lemma_rows_with_members(b, low);
        lemma_rows_with_members(a, other);
        lemma_rows_with_members(b, other);
        assert(low == other) by {
            assert(a[a.len() - 1] == a.last());
            assert(rows_with(a, low).contains(a.last()));
            let k = choose|k: int| 0 <= k < rows_with(a, low).len() && rows_with(a, low)[k] == a.last();
            assert(rows_with(a, low) == rows_with(b, low));
            assert(b.contains(rows_with(b, low)[k]));
            let i = choose|i: int| 0 <= i < b.len() && b[i] == rows_with(b, low)[k];
            assert(b[i].reduction >= b[b.len() - 1].reduction);
            assert(b[b.len() - 1] == b.last());
            assert(rows_with(b, other).contains(b.last()));
            let l = choose|l: int|
                0 <= l < rows_with(b, other).len() && rows_with(b, other)[l] == b.last();
            assert(rows_with(a, other) == rows_with(b, other));
            assert(a.contains(rows_with(a, other)[l]));
            let j = choose|j: int| 0 <= j < a.len() && a[j] == rows_with(a, other)[l];
            assert(a[j].reduction >= a[a.len() - 1].reduction);
        }
        assert(a.last() == b.last()) by {
            assert(rows_with(a, low) == rows_with(b, low));
            assert(rows_with(a, low).last() == a.last());
            assert(rows_with(b, low).last() == b.last());
        }
        assert forall|reduction: int| #[trigger]
            rows_with(a.drop_last(), reduction) == rows_with(b.drop_last(), reduction) by {
            assert(rows_with(a, reduction) == rows_with(b, reduction));
            if reduction == low {
                assert(rows_with(a, low).drop_last() == rows_with(a.drop_last(), low));
                assert(rows_with(b, low).drop_last() == rows_with(b.drop_last(), low));
            }
        }
        assert(is_descending(a.drop_last()));
        assert(is_descending(b.drop_last()));
        lemma_descending_groups_determine(a.drop_last(), b.drop_last());
        assert(a == a.drop_last().push(a.last()));
        assert(b == b.drop_last().push(b.last()));
    }
}

/// A sequence of rows has one stable sort only: whatever sorts the same rows
/// twice puts them in the same order both times.
pub proof fn lemma_stable_sort_is_unique(first: Seq<TableRow>, second: Seq<TableRow>, rows: Seq<TableRow>)
    requires
        is_stable_sort_of(first, rows),
        is_stable_sort_of(second, rows),
    ensures
        first == second,
{
    assert forall|reduction: int| #[trigger]
        rows_with(first, reduction) == rows_with(second, reduction) by {
        assert(rows_with(first, reduction) == rows_with(rows, reduction));
        assert(rows_with(second, reduction) == rows_with(rows, reduction));
    }
    lemma_descending_groups_determine(first, second);
}

/// A stable sort moves rows and neither adds nor drops one: each row of the
/// input stands in the output, and each row of the output came from the input.
pub proof fn lemma_stable_sort_keeps_rows(sorted: Seq<TableRow>, rows: Seq<TableRow>)
    requires
        is_stable_sort_of(sorted, rows),
    ensures
        forall|i: int| 0 <= i < rows.len() ==> sorted.contains(#[trigger] rows[i]),
        forall|i: int| 0 <= i < sorted.len() ==> rows.contains(#[trigger] sorted[i]),
{
    assert forall|i: int| 0 <= i < rows.len() implies sorted.contains(#[trigger] rows[i]) by {
        let reduction = rows[i].reduction as int;
        lemma_rows_with_members(rows, reduction);
        lemma_rows_with_members(sorted, reduction);
        assert(rows_with(sorted, reduction) == rows_with(rows, reduction));
        let k = choose|k: int|
            0 <= k < rows_with(rows, reduction).len() && rows_with(rows, reduction)[k] == rows[i];
        assert(sorted.contains(rows_with(sorted, reduction)[k]));
    }
    assert forall|i: int| 0 <= i < sorted.len() implies rows.contains(#[trigger] sorted[i]) by {
        let reduction = sorted[i].reduction as int;
        lemma_rows_with_members(rows, reduction);
        lemma_rows_with_members(sorted, reduction);
        assert(rows_with(sorted, reduction) == rows_with(rows, reduction));
        let k = choose|k: int|
            0 <= k < rows_with(sorted, reduction).len() && rows_with(sorted, reduction)[k]
                == sorted[i];
        assert(rows.contains(rows_with(rows, reduction)[k]));
    }
}

/// Putting `row` into a descending sequence behind every row with a reduction
/// at least as large, and in front of every row with a smaller one, leaves the
/// sequence descending and adds `row` at the end of the rows that share its
/// reduction.
proof fn lemma_insert_in_order(rows: Seq<TableRow>, at: int, row: TableRow, reduction: int)
    requires
        0 <= at <= rows.len(),
        is_descending(rows),
        forall|k: int| 0 <= k < at ==> rows[k].reduction >= row.reduction,
        forall|k: int| at <= k < rows.len() ==> rows[k].reduction < row.reduction,
    ensures
        is_descending(rows.insert(at, row)),
        rows_with(rows.insert(at, row), reduction) == rows_with(rows.push(row), reduction),
{
    let front = rows.take(at);
    let back = rows.skip(at);
    let one = seq![row];
    assert(rows == front + back);
    assert(rows.insert(at, row) == front + one + back);
    assert(rows.push(row) == front + back + one);
    lemma_rows_with_concat(front, back, reduction);
    lemma_rows_with_concat(front, one, reduction);
    lemma_rows_with_concat(front + one, back, reduction);
    lemma_rows_with_concat(front + back, one, reduction);
    if row.reduction == reduction {
        lemma_rows_with_absent(back, reduction);
    } else {
        lemma_rows_with_absent(one, reduction);
    }
    assert(rows_with(front, reduction) + Seq::<TableRow>::empty() == rows_with(front, reduction));
    assert(rows_with(back, reduction) + Seq::<TableRow>::empty() == rows_with(back, reduction));
    assert(rows_with(front, reduction) + rows_with(one, reduction) + Seq::<TableRow>::empty()
        == rows_with(front, reduction) + rows_with(one, reduction));
}

/// Sorts `rows` by descending reduction, keeping rows of equal reduction in
/// the order in which they were.
pub fn sort_rows(rows: &mut Vec<TableRow>)
    ensures
        is_stable_sort_of(final(rows)@, old(rows)@),
        final(rows)@.to_multiset() == old(rows)@.to_multiset(),
{
    let ghost given = rows@;
    let mut i: usize = 0;
    assert(rows@.skip(0) == given.skip(0));
    while i < rows.len()
        invariant
            i <= rows.len(),
            rows.len() == given.len(),
            is_descending(rows@.take(i as int)),
            forall|reduction: int| #[trigger]
                rows_with(rows@.take(i as int), reduction) == rows_with(
                    given.take(i as int),
                    reduction,
                ),
            rows@.skip(i as int) == given.skip(i as int),
            rows@.to_multiset() == given.to_multiset(),
        decreases rows.len() - i,
    {
        let ghost before = rows@;
        let ghost sorted = before.take(i as int);
        let row = rows.remove(i);
        assert(row == given[i as int]) by {
            assert(before.skip(i as int)[0] == given.skip(i as int)[0]);
        }
        let mut at: usize = i;
        while at > 0 && rows[at - 1].reduction < row.reduction
            invariant
                at <= i,
                i < before.len(),
                rows@ == before.remove(i as int),
                forall|k: int| at <= k < i ==> rows[k].reduction < row.reduction,
            decreases at,
        {
            at -= 1;
        }
        rows.insert(at, row);
        proof {
            assert(before.remove(i as int).take(i as int) == sorted);
            assert forall|k: int| 0 <= k < at implies sorted[k].reduction >= row.reduction by {
                assert(sorted[k].reduction >= sorted[at - 1].reduction);
            }
            assert(rows@.take(i + 1) == sorted.insert(at as int, row));
            assert(given.take(i + 1) == given.take(i as int).push(row));
            assert forall|reduction: int| #[trigger]
                rows_with(rows@.take(i + 1), reduction) == rows_with(
                    given.take(i + 1),
                    reduction,
                ) by {
                lemma_insert_in_order(sorted, at as int, row, reduction);
                let known = given.take(i as int);
                assert(rows_with(sorted, reduction) == rows_with(known, reduction));
                assert(sorted.push(row).drop_last() == sorted);
                assert(sorted.push(row).last() == row);
                assert(known.push(row).drop_last() == known);
                assert(known.push(row).last() == row);
            }
            lemma_insert_in_order(sorted, at as int, row, 0);
            assert(rows@.skip(i + 1) == given.skip(i + 1)) by {
                assert(before.skip(i as int).skip(1) == before.skip(i + 1));
                assert(given.skip(i as int).skip(1) == given.skip(i + 1));
                assert(rows@.skip(i + 1) == before.skip(i + 1));
            }
            to_multiset_remove(before, i as int);
            to_multiset_insert(before.remove(i as int), at as int, row);
            assert(before.to_multiset().count(row) > 0) by {
                broadcast use vstd::seq_lib::to_multiset_contains;

                assert(before.contains(before[i as int]));
            }
            assert(before.to_multiset().remove(row).insert(row) == before.to_multiset());
        }
        i += 1;
    }
    assert(rows@.take(rows.len() as int) == rows@);
    assert(given.take(given.len() as int) == given);
}

} // verus!
