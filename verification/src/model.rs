use vstd::prelude::*;

verus! {

// The mathematical model of the game table: its rows in rowid order.
// Each row is (id, name, exe_path).

/// The ids of the rows are strictly increasing (the table is kept in rowid
/// order) and every id fits the store's signed 64-bit id column.
pub open spec fn db_wf(m: Seq<(int, Seq<char>, Seq<char>)>) -> bool {
    &&& forall|i: int, j: int| 0 <= i < j < m.len() ==> m[i].0 < m[j].0
    &&& forall|i: int| 0 <= i < m.len() ==> i64::MIN <= (#[trigger] m[i]).0 <= i64::MAX
}

/// Whether some row of the table carries the given id.
pub open spec fn has_id(m: Seq<(int, Seq<char>, Seq<char>)>, id: int) -> bool {
    exists|i: int| 0 <= i < m.len() && (#[trigger] m[i]).0 == id
}

/// The id that the store assigns to the next inserted row: one on an empty
/// table, and one more than the largest id in use otherwise.
pub open spec fn next_id(m: Seq<(int, Seq<char>, Seq<char>)>) -> int {
    if m.len() == 0 {
        1
    } else {
        m.last().0 + 1
    }
}

/// Whether the next assigned id still fits the id column.
pub open spec fn can_assign(m: Seq<(int, Seq<char>, Seq<char>)>) -> bool {
    m.len() == 0 || m.last().0 < i64::MAX
}

/// The table after inserting a row with the given name and path: the new
/// row carries the next assigned id and stands last, in rowid order.
pub open spec fn add_row(
    m: Seq<(int, Seq<char>, Seq<char>)>,
    name: Seq<char>,
    exe_path: Seq<char>,
) -> Seq<(int, Seq<char>, Seq<char>)> {
    m.push((next_id(m), name, exe_path))
}

/// The table after deleting every row with the given id, the others kept
/// in order.
pub open spec fn remove_row(
    m: Seq<(int, Seq<char>, Seq<char>)>,
    id: int,
) -> Seq<(int, Seq<char>, Seq<char>)> {
    m.filter(|r: (int, Seq<char>, Seq<char>)| r.0 != id)
}

/// Whether the text holds an interior NUL character. The store refuses
/// such texts: they would be stored whole but read back only up to the
/// NUL.
pub open spec fn has_nul(s: Seq<char>) -> bool {
    exists|i: int| 0 <= i < s.len() && s[i] == '\0'
}

/// Every id in a well-formed table is at most the last id.
proof fn lemma_ids_below_last(m: Seq<(int, Seq<char>, Seq<char>)>)
    requires
        db_wf(m),
        m.len() > 0,
    ensures
        forall|i: int| 0 <= i < m.len() ==> (#[trigger] m[i]).0 <= m.last().0,
{
    assert forall|i: int| 0 <= i < m.len() implies (#[trigger] m[i]).0 <= m.last().0 by {
        if i < m.len() - 1 {
            assert(m[i].0 < m[m.len() - 1].0);
        }
    }
}

/// Law: a game added to a well-formed table is listed exactly once
/// afterward. The table then holds exactly one row carrying the assigned
/// id, and that row has the given name and path; when the assigned id fits
/// the id column the table is well formed again, so the id is a valid one.
pub proof fn lemma_add_lists_exactly_once(
    m: Seq<(int, Seq<char>, Seq<char>)>,
    name: Seq<char>,
    exe_path: Seq<char>,
)
    requires
        db_wf(m),
    ensures
        add_row(m, name, exe_path).to_multiset().count((next_id(m), name, exe_path)) == 1,
        forall|j: int|
            0 <= j < add_row(m, name, exe_path).len() && (#[trigger] add_row(m, name, exe_path)[j]).0
                == next_id(m) ==> add_row(m, name, exe_path)[j] == (next_id(m), name, exe_path),
        can_assign(m) ==> db_wf(add_row(m, name, exe_path)),
{
    broadcast use vstd::seq_lib::group_to_multiset_ensures;
    broadcast use vstd::multiset::group_multiset_axioms;

    let row = (next_id(m), name, exe_path);
    let m2 = add_row(m, name, exe_path);
    if m.len() > 0 {
        lemma_ids_below_last(m);
    }
    assert(forall|i: int| 0 <= i < m.len() ==> (#[trigger] m[i]).0 < next_id(m));
    assert(!m.contains(row));
    assert(m.to_multiset().count(row) == 0);
    assert(m2.to_multiset() =~= m.to_multiset().insert(row));
    assert(m2.to_multiset().count(row) == 1);
    assert forall|j: int| 0 <= j < m2.len() && (#[trigger] m2[j]).0 == next_id(m) implies m2[j]
        == row by {
        if j < m.len() {
            assert(m[j].0 < next_id(m));
        }
    }
}

/// In a well-formed table, deleting an id that no row carries changes
/// nothing.
pub proof fn lemma_delete_absent_is_noop(m: Seq<(int, Seq<char>, Seq<char>)>, id: int)
    requires
        !has_id(m, id),
    ensures
        remove_row(m, id) == m,
    decreases m.len(),
{
    reveal(Seq::filter);
    let pred = |r: (int, Seq<char>, Seq<char>)| r.0 != id;
    if m.len() == 0 {
        assert(m.filter(pred) =~= m);
    } else {
        let m0 = m.drop_last();
        assert(!has_id(m0, id)) by {
            assert(forall|i: int| 0 <= i < m0.len() ==> m0[i] == m[i]);
        }
        lemma_delete_absent_is_noop(m0, id);
        assert(m[m.len() - 1].0 != id);
        assert(pred(m.last()));
        assert(m.filter(pred) == m0.filter(pred).push(m.last()));
        assert(m0.push(m.last()) =~= m);
    }
}

/// Deleting an id from a well-formed table takes out the one row at its
/// index and nothing else.
proof fn lemma_delete_is_remove_at(m: Seq<(int, Seq<char>, Seq<char>)>, id: int)
    requires
        db_wf(m),
        has_id(m, id),
    ensures
        exists|i: int|
            0 <= i < m.len() && (#[trigger] m[i]).0 == id && remove_row(m, id) == m.remove(i),
    decreases m.len(),
{
    reveal(Seq::filter);
    let pred = |r: (int, Seq<char>, Seq<char>)| r.0 != id;
    let m0 = m.drop_last();
    let last = m.len() - 1;
    if m[last].0 == id {
        assert(!has_id(m0, id)) by {
            assert forall|i: int| 0 <= i < m0.len() implies (#[trigger] m0[i]).0 != id by {
                assert(m[i].0 < m[last].0);
            }
        }
        lemma_delete_absent_is_noop(m0, id);
        assert(!pred(m.last()));
        assert(m.filter(pred) == m0.filter(pred));
        assert(m.remove(last) =~= m0);
        assert(remove_row(m, id) == m.remove(last));
    } else {
        assert(has_id(m0, id)) by {
            let i = choose|i: int| 0 <= i < m.len() && (#[trigger] m[i]).0 == id;
            assert(m0[i] == m[i]);
        }
        assert(db_wf(m0)) by {
            assert(forall|i: int| 0 <= i < m0.len() ==> m0[i] == m[i]);
        }
        lemma_delete_is_remove_at(m0, id);
        let i = choose|i: int|
            0 <= i < m0.len() && (#[trigger] m0[i]).0 == id && remove_row(m0, id) == m0.remove(i);
        assert(pred(m.last()));
        assert(m.filter(pred) == m0.filter(pred).push(m.last()));
        assert(m0.remove(i).push(m.last()) =~= m.remove(i));
        assert(m[i] == m0[i]);
        assert(remove_row(m, id) == m.remove(i));
    }
}

/// Law: deleting an existing id from a well-formed table removes exactly
/// that record. The table shrinks by exactly one row, no row with the id is
/// left, every other row keeps its multiplicity, and the table stays well
/// formed.
pub proof fn lemma_delete_removes_exactly_one(m: Seq<(int, Seq<char>, Seq<char>)>, id: int)
    requires
        db_wf(m),
        has_id(m, id),
    ensures
        remove_row(m, id).len() == m.len() - 1,
        !has_id(remove_row(m, id), id),
        db_wf(remove_row(m, id)),
        forall|r: (int, Seq<char>, Seq<char>)|
            r.0 != id ==> remove_row(m, id).to_multiset().count(r) == m.to_multiset().count(r),
{
    broadcast use vstd::seq_lib::group_to_multiset_ensures;
    broadcast use vstd::multiset::group_multiset_axioms;

    lemma_delete_is_remove_at(m, id);
    let i = choose|i: int|
        0 <= i < m.len() && (#[trigger] m[i]).0 == id && remove_row(m, id) == m.remove(i);
    let m2 = m.remove(i);
    assert(m2.len() == m.len() - 1);
    assert forall|j: int| 0 <= j < m2.len() implies (#[trigger] m2[j]).0 != id by {
        if j < i {
            assert(m2[j] == m[j]);
            assert(m[j].0 < m[i].0);
        } else {
            assert(m2[j] == m[j + 1]);
            assert(m[i].0 < m[j + 1].0);
        }
    }
    assert(db_wf(m2)) by {
        assert forall|j: int, k: int| 0 <= j < k < m2.len() implies m2[j].0 < m2[k].0 by {
            assert(m2[j] == if j < i { m[j] } else { m[j + 1] });
            assert(m2[k] == if k < i { m[k] } else { m[k + 1] });
        }
        assert forall|j: int| 0 <= j < m2.len() implies i64::MIN <= (#[trigger] m2[j]).0
            <= i64::MAX by {
            assert(m2[j] == if j < i { m[j] } else { m[j + 1] });
        }
    }
    assert(m2.to_multiset() =~= m.to_multiset().remove(m[i]));
    assert forall|r: (int, Seq<char>, Seq<char>)| r.0 != id implies m2.to_multiset().count(r)
        == m.to_multiset().count(r) by {
        assert(r != m[i]);
    }
}

/// Deleting any id keeps a well-formed table well formed.
pub proof fn lemma_delete_keeps_wf(m: Seq<(int, Seq<char>, Seq<char>)>, id: int)
    requires
        db_wf(m),
    ensures
        db_wf(remove_row(m, id)),
{
    if has_id(m, id) {
        lemma_delete_removes_exactly_one(m, id);
    } else {
        lemma_delete_absent_is_noop(m, id);
    }
}

} // verus!
