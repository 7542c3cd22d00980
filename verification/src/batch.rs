//! Rows fetched in one query, put back in the order a listing asks for, and
//! the distinct ids that such a query is asked with.
use vstd::prelude::*;
use std::collections::{HashMap, HashSet};

verus! {

/// The index of the last of the first `n` rows whose id is `id`: the row that
/// a map collected from the rows, keyed by id, keeps.
pub open spec fn last_index(ids: Seq<i64>, id: i64, n: int) -> Option<int>
    decreases n,
{
    if n <= 0 {
        None
    } else if ids[n - 1] == id {
        Some(n - 1)
    } else {
        last_index(ids, id, n - 1)
    }
}

/// The row that a lookup by `id` finds among rows with these ids.
pub open spec fn row_for(ids: Seq<i64>, id: i64) -> Option<int> {
    last_index(ids, id, ids.len() as int)
}

/// For each wanted id in turn, the row that a lookup finds for it; ids with
/// no row are skipped.
pub open spec fn ordered_rows(wanted: Seq<i64>, ids: Seq<i64>) -> Seq<int>
    decreases wanted.len(),
{
    if wanted.len() == 0 {
        Seq::empty()
    } else {
        let before = ordered_rows(wanted.drop_last(), ids);
        match row_for(ids, wanted.last()) {
            Some(i) => before.push(i),
            None => before,
        }
    }
}

proof fn lemma_last_index_shape(ids: Seq<i64>, id: i64, n: int)
    requires
        n <= ids.len(),
    ensures
        last_index(ids, id, n) matches Some(i) ==> 0 <= i < n && ids[i] == id,
        last_index(ids, id, n) is None ==> forall|j: int| 0 <= j < n ==> ids[j] != id,
    decreases n,
{
    if n > 0 {
        lemma_last_index_shape(ids, id, n - 1);
    }
}

/// A found row is in range and has the id that was looked up; no row has the
/// id when none is found.
pub proof fn lemma_row_for(ids: Seq<i64>, id: i64)
    ensures
        row_for(ids, id) matches Some(i) ==> 0 <= i < ids.len() && ids[i] == id,
        row_for(ids, id) is None ==> !ids.contains(id),
{
    lemma_last_index_shape(ids, id, ids.len() as int);
    if row_for(ids, id) is None && ids.contains(id) {
        let j = choose|j: int| 0 <= j < ids.len() && ids[j] == id;
        assert(ids[j] != id);
    }
}

/// Every row that `ordered_rows` picks is in range.
pub proof fn lemma_ordered_rows_in_range(wanted: Seq<i64>, ids: Seq<i64>)
    ensures
        forall|k: int|
            0 <= k < ordered_rows(wanted, ids).len() ==> 0 <= #[trigger] ordered_rows(
                wanted,
                ids,
            )[k] < ids.len(),
    decreases wanted.len(),
{
    if wanted.len() > 0 {
        let before = ordered_rows(wanted.drop_last(), ids);
        lemma_ordered_rows_in_range(wanted.drop_last(), ids);
        lemma_row_for(ids, wanted.last());
        assert forall|k: int| 0 <= k < ordered_rows(wanted, ids).len() implies 0
            <= #[trigger] ordered_rows(wanted, ids)[k] < ids.len() by {
            if k < before.len() {
                assert(ordered_rows(wanted, ids)[k] == before[k]);
            }
        }
    }
}

/// The rows, by index, in the order of `wanted`: what
/// `wanted.iter().filter_map(|id| map.get(id))` yields for a map collected
/// from rows with these ids (a later row under an id replaces an earlier).
pub fn order_by_ids(wanted: &Vec<i64>, ids: &Vec<i64>) -> (r: Vec<usize>)
    ensures
        r@.map_values(|i: usize| i as int) == ordered_rows(wanted@, ids@),
        forall|k: int| 0 <= k < r@.len() ==> #[trigger] r@[k] < ids@.len(),
{
    broadcast use vstd::std_specs::hash::group_hash_axioms;

    let mut by_id: HashMap<i64, usize> = HashMap::new();
    let mut i: usize = 0;
    while i < ids.len()
        invariant
            i <= ids@.len(),
            forall|id: i64| #[trigger] by_id@.contains_key(id) == (last_index(ids@, id, i as int) is Some),
            forall|id: i64|
                by_id@.contains_key(id) ==> last_index(ids@, id, i as int) == Some(#[trigger] by_id@[id] as int),
        decreases ids.len() - i,
    {
        by_id.insert(ids[i], i);
        i = i + 1;
    }
    let mut out: Vec<usize> = Vec::new();
    let mut k: usize = 0;
    while k < wanted.len()
        invariant
            k <= wanted@.len(),
            forall|id: i64| #[trigger] by_id@.contains_key(id) == (row_for(ids@, id) is Some),
            forall|id: i64| by_id@.contains_key(id) ==> row_for(ids@, id) == Some(#[trigger] by_id@[id] as int),
            out@.map_values(|i: usize| i as int) == ordered_rows(wanted@.take(k as int), ids@),
            forall|j: int| 0 <= j < out@.len() ==> #[trigger] out@[j] < ids@.len(),
        decreases wanted.len() - k,
    {
        assert(wanted@.take(k + 1).drop_last() =~= wanted@.take(k as int));
        assert(wanted@.take(k + 1).last() == wanted@[k as int]);
        let id = wanted[k];
        match by_id.get(&id) {
            Some(i) => {
                let i = *i;
                proof {
                    lemma_row_for(ids@, id);
                }
                let ghost before = out@.map_values(|i: usize| i as int);
                out.push(i);
                assert(out@.map_values(|i: usize| i as int) =~= before.push(i as int));
            },
            None => {},
        }
        k = k + 1;
    }
    assert(wanted@.take(wanted@.len() as int) =~= wanted@);
    out
}

/// The ids in the order they first occur, each once.
pub open spec fn first_occurrences(s: Seq<i64>) -> Seq<i64>
    decreases s.len(),
{
    if s.len() == 0 {
        Seq::empty()
    } else {
        let before = first_occurrences(s.drop_last());
        if before.contains(s.last()) {
            before
        } else {
            before.push(s.last())
        }
    }
}

/// `first_occurrences` keeps each id of the sequence, and only those, once.
pub proof fn lemma_first_occurrences(s: Seq<i64>)
    ensures
        forall|x: i64| #[trigger] first_occurrences(s).contains(x) <==> s.contains(x),
        first_occurrences(s).no_duplicates(),
    decreases s.len(),
{
    if s.len() > 0 {
        let d = s.drop_last();
        let before = first_occurrences(d);
        lemma_first_occurrences(d);
        assert forall|x: i64| #[trigger] first_occurrences(s).contains(x) <==> s.contains(x) by {
            assert(s =~= d.push(s.last()));
            if s.contains(x) && x != s.last() {
                let j = choose|j: int| 0 <= j < s.len() && s[j] == x;
                assert(d[j] == x);
                assert(d.contains(x));
            }
            if d.contains(x) {
                let j = choose|j: int| 0 <= j < d.len() && d[j] == x;
                assert(s[j] == x);
            }
            if !before.contains(s.last()) {
                let p = before.push(s.last());
                if p.contains(x) && x != s.last() {
                    let j = choose|j: int| 0 <= j < p.len() && p[j] == x;
                    assert(before[j] == x);
                }
                if before.contains(x) {
                    let j = choose|j: int| 0 <= j < before.len() && before[j] == x;
                    assert(p[j] == x);
                }
                assert(p[before.len() as int] == s.last());
            }
            assert(s[s.len() - 1] == s.last());
        }
        if !before.contains(s.last()) {
            let p = before.push(s.last());
            assert forall|i: int, j: int| 0 <= i < p.len() && 0 <= j < p.len() && i != j implies p[i]
                != p[j] by {
                if i < before.len() && j < before.len() {
                    assert(p[i] == before[i] && p[j] == before[j]);
                } else if i < before.len() {
                    assert(p[i] == before[i]);
                    assert(before.contains(p[i]));
                } else {
                    assert(p[j] == before[j]);
                    assert(before.contains(p[j]));
                }
            }
        }
    }
}

/// Whether `x` is one of the ids.
pub fn contains_id(v: &Vec<i64>, x: i64) -> (r: bool)
    ensures
        r == v@.contains(x),
{
    let mut i: usize = 0;
    while i < v.len()
        invariant
            i <= v@.len(),
            forall|j: int| 0 <= j < i ==> v@[j] != x,
        decreases v.len() - i,
    {
        if v[i] == x {
            assert(v@[i as int] == x);
            return true;
        }
        i = i + 1;
    }
    false
}

/// The distinct ids, in the order they first occur: the set that a batch
/// query is asked with, kept as a `seen` set lets each id through once.
pub fn unique_ids(ids: &Vec<i64>) -> (r: Vec<i64>)
    ensures
        r@ == first_occurrences(ids@),
{
    broadcast use vstd::std_specs::hash::group_hash_axioms;

    let mut seen: HashSet<i64> = HashSet::new();
    let mut out: Vec<i64> = Vec::new();
    let mut i: usize = 0;
    while i < ids.len()
        invariant
            i <= ids@.len(),
            out@ == first_occurrences(ids@.take(i as int)),
            forall|x: i64| #[trigger] seen@.contains(x) == out@.contains(x),
        decreases ids.len() - i,
    {
        assert(ids@.take(i + 1).drop_last() =~= ids@.take(i as int));
        assert(ids@.take(i + 1).last() == ids@[i as int]);
        let ghost before = out@;
        if seen.insert(ids[i]) {
            out.push(ids[i]);
            proof {
                assert forall|x: i64| #[trigger] seen@.contains(x) == out@.contains(x) by {
                    if x == ids@[i as int] {
                        assert(out@[before.len() as int] == x);
                    } else if out@.contains(x) {
                        let j = choose|j: int| 0 <= j < out@.len() && out@[j] == x;
                        assert(before[j] == x);
                    } else if before.contains(x) {
                        let j = choose|j: int| 0 <= j < before.len() && before[j] == x;
                        assert(out@[j] == x);
                    }
                }
            }
        }
        i = i + 1;
    }
    assert(ids@.take(ids@.len() as int) =~= ids@);
    out
}

} // verus!
