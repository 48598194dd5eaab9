use vstd::prelude::*;

verus! {

/// The map that a list of named entries builds when each entry is inserted
/// in turn: a later entry replaces an earlier one of the same name.
pub open spec fn entries_map<V>(es: Seq<(Seq<char>, V)>) -> Map<Seq<char>, V>
    decreases es.len(),
{
    if es.len() == 0 {
        Map::empty()
    } else {
        entries_map(es.drop_last()).insert(es.last().0, es.last().1)
    }
}

/// No two entries share a name.
pub open spec fn names_distinct<V>(es: Seq<(Seq<char>, V)>) -> bool {
    forall|i: int, j: int| 0 <= i < j < es.len() ==> es[i].0 != es[j].0
}

/// A name is in the map exactly when some entry carries it.
pub proof fn lemma_entries_map_dom<V>(es: Seq<(Seq<char>, V)>, k: Seq<char>)
    ensures
        entries_map(es).dom().contains(k) <==> exists|i: int| 0 <= i < es.len() && es[i].0 == k,
    decreases es.len(),
{
    if es.len() > 0 {
        lemma_entries_map_dom(es.drop_last(), k);
        if entries_map(es.drop_last()).dom().contains(k) {
            let i = choose|i: int| 0 <= i < es.drop_last().len() && es.drop_last()[i].0 == k;
            assert(es[i].0 == k);
        }
        if exists|i: int| 0 <= i < es.len() && es[i].0 == k {
            let i = choose|i: int| 0 <= i < es.len() && es[i].0 == k;
            if i < es.len() - 1 {
                assert(es.drop_last()[i].0 == k);
            }
        }
    }
}

/// With distinct names, the map gives each entry's value under its name.
pub proof fn lemma_entries_map_at<V>(es: Seq<(Seq<char>, V)>, i: int)
    requires
        names_distinct(es),
        0 <= i < es.len(),
    ensures
        entries_map(es).dom().contains(es[i].0),
        entries_map(es)[es[i].0] == es[i].1,
    decreases es.len(),
{
    if i < es.len() - 1 {
        assert(es.drop_last()[i] == es[i]);
        lemma_entries_map_at(es.drop_last(), i);
    }
}

/// Giving an entry a new value updates the map under its name.
pub proof fn lemma_entries_map_update<V>(es: Seq<(Seq<char>, V)>, i: int, v: V)
    requires
        names_distinct(es),
        0 <= i < es.len(),
    ensures
        entries_map(es.update(i, (es[i].0, v))) == entries_map(es).insert(es[i].0, v),
    decreases es.len(),
{
    let k = es[i].0;
    let es2 = es.update(i, (k, v));
    if i == es.len() - 1 {
        assert(es2.drop_last() =~= es.drop_last());
        assert(entries_map(es2) =~= entries_map(es).insert(k, v));
    } else {
        assert(es2.drop_last() =~= es.drop_last().update(i, (k, v)));
        assert(es.drop_last()[i] == es[i]);
        lemma_entries_map_update(es.drop_last(), i, v);
        assert(es.last().0 != k);
        assert(entries_map(es2) =~= entries_map(es).insert(k, v));
    }
}

/// Appending an entry inserts it.
pub proof fn lemma_entries_map_push<V>(es: Seq<(Seq<char>, V)>, e: (Seq<char>, V))
    ensures
        entries_map(es.push(e)) == entries_map(es).insert(e.0, e.1),
{
    assert(es.push(e).drop_last() =~= es);
}

/// With distinct names the map has one name per entry.
pub proof fn lemma_entries_map_len<V>(es: Seq<(Seq<char>, V)>)
    requires
        names_distinct(es),
    ensures
        entries_map(es).dom().finite(),
        entries_map(es).dom().len() == es.len(),
    decreases es.len(),
{
    if es.len() > 0 {
        let d = es.drop_last();
        assert(names_distinct(d));
        lemma_entries_map_len(d);
        lemma_entries_map_dom(d, es.last().0);
        if entries_map(d).dom().contains(es.last().0) {
            let j = choose|j: int| 0 <= j < d.len() && d[j].0 == es.last().0;
            assert(es[j].0 == es[es.len() - 1].0);
        }
        assert(entries_map(es).dom() =~= entries_map(d).dom().insert(es.last().0));
    } else {
        assert(entries_map(es).dom() =~= Set::empty());
    }
}

} // verus!
