//! Unit state store: the per-run persistent mapping from unit identity to its
//! current record.  It is owned by the tick driver, lives for the run, and is
//! rebuilt every tick so that it holds exactly one entry per live unit.

use vstd::prelude::*;

use crate::model::{CreepState, UnitName};

verus! {

/// The mapping an entry list denotes: later entries win, though a
/// well-formed store never repeats a key.
pub open spec fn entries_map(s: Seq<(UnitName, CreepState)>) -> Map<UnitName, CreepState>
    decreases s.len()
{
    if s.len() == 0 {
        Map::empty()
    } else {
        entries_map(s.drop_last()).insert(s.last().0, s.last().1)
    }
}

/// No unit name occurs twice in the entry list.
pub open spec fn distinct_keys(s: Seq<(UnitName, CreepState)>) -> bool {
    forall|i: int, j: int| 0 <= i < j < s.len() ==> (#[trigger] s[i]).0 != (#[trigger] s[j]).0
}

proof fn lemma_entries_map_contains(s: Seq<(UnitName, CreepState)>, k: UnitName)
    ensures
        entries_map(s).contains_key(k) <==> exists|i: int| 0 <= i < s.len() && (#[trigger] s[i]).0 == k,
    decreases s.len()
{
    if s.len() > 0 {
        lemma_entries_map_contains(s.drop_last(), k);
        if s.last().0 == k {
            assert(s[s.len() - 1].0 == k);
        } else if entries_map(s).contains_key(k) {
            let i = choose|i: int| 0 <= i < s.drop_last().len() && (#[trigger] s.drop_last()[i]).0 == k;
            assert(s[i].0 == k);
        } else if exists|i: int| 0 <= i < s.len() && (#[trigger] s[i]).0 == k {
            let i = choose|i: int| 0 <= i < s.len() && (#[trigger] s[i]).0 == k;
            assert(s.drop_last()[i].0 == k);
        }
    }
}

proof fn lemma_entries_map_index(s: Seq<(UnitName, CreepState)>, i: int)
    requires
        distinct_keys(s),
        0 <= i < s.len(),
    ensures
        entries_map(s).contains_key(s[i].0),
        entries_map(s)[s[i].0] == s[i].1,
    decreases s.len()
{
    if i == s.len() - 1 {
    } else {
        assert(s.drop_last()[i] == s[i]);
        assert(distinct_keys(s.drop_last())) by {
            assert(forall|a: int, b: int| 0 <= a < b < s.drop_last().len()
                ==> (#[trigger] s.drop_last()[a]).0 != (#[trigger] s.drop_last()[b]).0) by {
                assert(forall|a: int| 0 <= a < s.drop_last().len()
                    ==> #[trigger] s.drop_last()[a] == s[a]);
            }
        }
        lemma_entries_map_index(s.drop_last(), i);
        assert(s[i].0 != s.last().0);
    }
}

proof fn lemma_entries_map_dom_len(s: Seq<(UnitName, CreepState)>)
    requires
        distinct_keys(s),
    ensures
        entries_map(s).dom().finite(),
        entries_map(s).dom().len() == s.len(),
    decreases s.len()
{
    broadcast use vstd::set::group_set_axioms;

    if s.len() > 0 {
        assert(forall|a: int| 0 <= a < s.drop_last().len() ==> #[trigger] s.drop_last()[a] == s[a]);
        lemma_entries_map_dom_len(s.drop_last());
        lemma_entries_map_contains(s.drop_last(), s.last().0);
        assert(!entries_map(s.drop_last()).contains_key(s.last().0)) by {
            if exists|i: int| 0 <= i < s.drop_last().len()
                && (#[trigger] s.drop_last()[i]).0 == s.last().0 {
                let i = choose|i: int| 0 <= i < s.drop_last().len()
                    && (#[trigger] s.drop_last()[i]).0 == s.last().0;
                assert(s[i].0 == s[s.len() - 1].0);
            }
        }
        assert(entries_map(s).dom() =~= entries_map(s.drop_last()).dom().insert(s.last().0));
    }
}

/// The unit state store.  Well-formedness (each key at most once) is
/// established by the constructor and preserved by every operation.
pub struct UnitStore {
    entries: Vec<(UnitName, CreepState)>,
}

impl View for UnitStore {
    type V = Map<UnitName, CreepState>;

    closed spec fn view(&self) -> Map<UnitName, CreepState> {
        entries_map(self.entries@)
    }
}

impl UnitStore {
    /// Each unit name is recorded at most once.
    pub closed spec fn wf(&self) -> bool {
        distinct_keys(self.entries@)
    }

    /// An empty store, as a run starts with: no unit has a record yet.
    pub fn new() -> (s: UnitStore)
        ensures
            s.wf(),
            s@ == Map::<UnitName, CreepState>::empty(),
    {
        UnitStore { entries: Vec::new() }
    }

    /// Number of units that hold a record.
    pub fn len(&self) -> (n: usize)
        requires
            self.wf(),
        ensures
            n == self@.dom().len(),
    {
        proof {
            lemma_entries_map_dom_len(self.entries@);
        }
        self.entries.len()
    }

    /// Look a unit's record up by its name.
    pub fn get(&self, name: &UnitName) -> (r: Option<CreepState>)
        requires
            self.wf(),
        ensures
            self@.contains_key(*name) ==> r == Some(self@[*name]),
            !self@.contains_key(*name) ==> r is None,
    {
        let n = self.entries.len();
        for i in 0..n
            invariant
                n == self.entries@.len(),
                self.wf(),
                forall|j: int| 0 <= j < i ==> (#[trigger] self.entries@[j]).0 != *name,
        {
            if self.entries[i].0 == *name {
                proof {
                    lemma_entries_map_index(self.entries@, i as int);
                }
                return Some(self.entries[i].1);
            }
        }
        proof {
            lemma_entries_map_contains(self.entries@, *name);
        }
        None
    }

    /// Record a unit's state, replacing any earlier record under the same
    /// name.
    pub fn insert(&mut self, name: UnitName, state: CreepState)
        requires
            old(self).wf(),
        ensures
            final(self).wf(),
            final(self)@ == old(self)@.insert(name, state),
    {
        let n = self.entries.len();
        for i in 0..n
            invariant
                n == self.entries@.len(),
                self.wf(),
                self.entries@ == old(self).entries@,
                forall|j: int| 0 <= j < i ==> (#[trigger] self.entries@[j]).0 != name,
        {
            if self.entries[i].0 == name {
                self.entries.set(i, (name, state));
                proof {
                    lemma_entries_map_update(old(self).entries@, i as int, state);
                }
                return;
            }
        }
        proof {
            lemma_entries_map_contains(self.entries@, name);
            assert(self.entries@.push((name, state)).drop_last() =~= self.entries@);
        }
        self.entries.push((name, state));
    }
}

proof fn lemma_entries_map_update(s: Seq<(UnitName, CreepState)>, i: int, v: CreepState)
    requires
        distinct_keys(s),
        0 <= i < s.len(),
    ensures
        distinct_keys(s.update(i, (s[i].0, v))),
        entries_map(s.update(i, (s[i].0, v))) == entries_map(s).insert(s[i].0, v),
    decreases s.len()
{
    let t = s.update(i, (s[i].0, v));
    assert(distinct_keys(t)) by {
        assert(forall|a: int| 0 <= a < s.len() ==> (#[trigger] t[a]).0 == s[a].0);
    }
    if i == s.len() - 1 {
        assert(t.drop_last() =~= s.drop_last());
        assert(entries_map(t) == entries_map(s.drop_last()).insert(s[i].0, v));
        assert(entries_map(s).insert(s[i].0, v)
            =~= entries_map(s.drop_last()).insert(s.last().0, s.last().1).insert(s[i].0, v));
        assert(entries_map(s.drop_last()).insert(s.last().0, s.last().1).insert(s[i].0, v)
            =~= entries_map(s.drop_last()).insert(s[i].0, v));
    } else {
        assert(forall|a: int| 0 <= a < s.drop_last().len()
            ==> #[trigger] s.drop_last()[a] == s[a]);
        assert(distinct_keys(s.drop_last()));
        lemma_entries_map_update(s.drop_last(), i, v);
        assert(t.drop_last() =~= s.drop_last().update(i, (s[i].0, v)));
        assert(t.last() == s.last());
        assert(entries_map(t)
            == entries_map(s.drop_last()).insert(s[i].0, v).insert(s.last().0, s.last().1));
        assert(s[i].0 != s.last().0);
        assert(entries_map(s.drop_last()).insert(s[i].0, v).insert(s.last().0, s.last().1)
            =~= entries_map(s.drop_last()).insert(s.last().0, s.last().1).insert(s[i].0, v));
    }
}

} // verus!
