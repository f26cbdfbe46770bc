//! A keyed store for state shared between pipeline stages.
//!
//! [`StateManager`] is the store itself: a mapping from string keys to
//! values, with map semantics stated over its view. A handle that several
//! concurrently executing stages can share is provided by
//! [`crate::shared_state::SharedState`], which guards one `StateManager`
//! behind a reader/writer lock.

use vstd::prelude::*;

use crate::node::Duplicable;

verus! {

broadcast use vstd::set::group_set_axioms;

/// The view of one [`StateManager::push`]: appends `v` to the list stored at
/// `k`, creating the list if the key is absent.
pub open spec fn spec_push<TV>(m: Map<Seq<char>, Seq<TV>>, k: Seq<char>, v: TV) -> Map<
    Seq<char>,
    Seq<TV>,
> {
    if m.contains_key(k) {
        m.insert(k, m[k].push(v))
    } else {
        m.insert(k, seq![v])
    }
}

/// After pushing `v1` and then `v2` under the same key, the list stored at
/// that key ends with `v1` followed by `v2`; in particular, starting from a
/// store where the key is absent, it is exactly `[v1, v2]`. No push is lost.
pub proof fn lemma_push_push_get<TV>(
    m: Map<Seq<char>, Seq<TV>>,
    k: Seq<char>,
    v1: TV,
    v2: TV,
)
    ensures
        spec_push(spec_push(m, k, v1), k, v2).contains_key(k),
        spec_push(spec_push(m, k, v1), k, v2)[k] == (if m.contains_key(k) {
            m[k]
        } else {
            Seq::<TV>::empty()
        }).push(v1).push(v2),
{
    assert(Seq::<TV>::empty().push(v1) =~= seq![v1]);
}

/// The mapping described by a sequence of key/value entries: later entries
/// override earlier ones.
pub open spec fn entries_map<V: DeepView>(s: Seq<(String, V)>) -> Map<Seq<char>, V::V>
    decreases s.len(),
{
    if s.len() == 0 {
        Map::empty()
    } else {
        entries_map(s.drop_last()).insert(s.last().0@, s.last().1.deep_view())
    }
}

/// Whether a sequence of entries has pairwise distinct keys.
pub open spec fn distinct_keys<V>(s: Seq<(String, V)>) -> bool {
    forall|i: int, j: int| 0 <= i < j < s.len() ==> s[i].0@ != s[j].0@
}

/// The keys occurring in a sequence of entries.
pub open spec fn entry_keys<V>(s: Seq<(String, V)>) -> Seq<Seq<char>> {
    s.map_values(|e: (String, V)| e.0@)
}

proof fn lemma_entries_map_domain<V: DeepView>(s: Seq<(String, V)>, k: Seq<char>)
    ensures
        entries_map(s).contains_key(k) <==> (exists|i: int| 0 <= i < s.len() && s[i].0@ == k),
    decreases s.len(),
{
    if s.len() > 0 {
        lemma_entries_map_domain(s.drop_last(), k);
        if s.last().0@ == k {
            assert(s[s.len() - 1].0@ == k);
        } else if entries_map(s).contains_key(k) {
            let i = choose|i: int| 0 <= i < s.drop_last().len() && s.drop_last()[i].0@ == k;
            assert(s[i].0@ == k);
        } else {
            assert(forall|i: int|
                0 <= i < s.len() - 1 ==> s.drop_last()[i] == s[i]);
        }
    }
}

proof fn lemma_entries_map_value<V: DeepView>(s: Seq<(String, V)>, i: int)
    requires
        distinct_keys(s),
        0 <= i < s.len(),
    ensures
        entries_map(s).contains_key(s[i].0@),
        entries_map(s)[s[i].0@] == s[i].1.deep_view(),
    decreases s.len(),
{
    if i == s.len() - 1 {
        assert(s.last() == s[i]);
    } else {
        assert(forall|j: int| 0 <= j < s.len() - 1 ==> s.drop_last()[j] == s[j]);
        lemma_entries_map_value(s.drop_last(), i);
        assert(s.last().0@ != s[i].0@);
    }
}

proof fn lemma_entries_map_len<V: DeepView>(s: Seq<(String, V)>)
    requires
        distinct_keys(s),
    ensures
        entries_map(s).dom().finite(),
        entries_map(s).dom().len() == s.len(),
    decreases s.len(),
{
    if s.len() > 0 {
        assert(forall|j: int| 0 <= j < s.len() - 1 ==> s.drop_last()[j] == s[j]);
        lemma_entries_map_len(s.drop_last());
        lemma_entries_map_domain(s.drop_last(), s.last().0@);
        assert(!entries_map(s.drop_last()).contains_key(s.last().0@));
    }
}

proof fn lemma_entries_map_remove<V: DeepView>(s: Seq<(String, V)>, i: int)
    requires
        distinct_keys(s),
        0 <= i < s.len(),
    ensures
        entries_map(s.remove(i)) =~= entries_map(s).remove(s[i].0@),
    decreases s.len(),
{
    let k = s[i].0@;
    if i == s.len() - 1 {
        assert(s.remove(i) =~= s.drop_last());
        lemma_entries_map_domain(s.drop_last(), k);
        assert(!entries_map(s.drop_last()).contains_key(k));
        assert(entries_map(s.drop_last()).insert(k, s.last().1.deep_view()).remove(k)
            =~= entries_map(s.drop_last()));
    } else {
        assert(forall|j: int| 0 <= j < s.len() - 1 ==> s.drop_last()[j] == s[j]);
        lemma_entries_map_remove(s.drop_last(), i);
        assert(s.remove(i).drop_last() =~= s.drop_last().remove(i));
        assert(s.remove(i).last() == s.last());
        assert(s.last().0@ != k);
    }
}

proof fn lemma_distinct_keys_remove<V>(s: Seq<(String, V)>, i: int)
    requires
        distinct_keys(s),
        0 <= i < s.len(),
    ensures
        distinct_keys(s.remove(i)),
{
    assert forall|a: int, b: int|
        0 <= a < b < s.remove(i).len() implies s.remove(i)[a].0@ != s.remove(i)[b].0@ by {
        let ia: int = if a < i { a } else { a + 1 };
        let ib: int = if b < i { b } else { b + 1 };
        assert(s.remove(i)[a] == s[ia]);
        assert(s.remove(i)[b] == s[ib]);
    }
}

proof fn lemma_distinct_keys_push<V>(s: Seq<(String, V)>, e: (String, V))
    requires
        distinct_keys(s),
        forall|j: int| 0 <= j < s.len() ==> s[j].0@ != e.0@,
    ensures
        distinct_keys(s.push(e)),
{
    assert forall|a: int, b: int|
        0 <= a < b < s.push(e).len() implies s.push(e)[a].0@ != s.push(e)[b].0@ by {
        if b < s.len() {
            assert(s.push(e)[a] == s[a]);
            assert(s.push(e)[b] == s[b]);
        } else {
            assert(s.push(e)[a] == s[a]);
            assert(s.push(e)[b] == e);
        }
    }
}

/// The mapping described by a sequence of key/value view pairs: later pairs
/// override earlier ones.
pub open spec fn view_pairs_map(s: Seq<(Seq<char>, Seq<char>)>) -> Map<Seq<char>, Seq<char>>
    decreases s.len(),
{
    if s.len() == 0 {
        Map::empty()
    } else {
        view_pairs_map(s.drop_last()).insert(s.last().0, s.last().1)
    }
}

proof fn lemma_view_pairs_map_entries(
    pairs: Seq<(Seq<char>, Seq<char>)>,
    entries: Seq<(String, String)>,
)
    requires
        pairs.len() == entries.len(),
        forall|i: int| 0 <= i < entries.len() ==> #[trigger] pairs[i] == (
            entries[i].0@,
            entries[i].1@,
        ),
    ensures
        view_pairs_map(pairs) == entries_map(entries),
    decreases pairs.len(),
{
    if pairs.len() > 0 {
        assert(forall|i: int| 0 <= i < entries.len() - 1 ==> #[trigger] pairs.drop_last()[i]
            == pairs[i]);
        assert(forall|i: int| 0 <= i < entries.len() - 1 ==> #[trigger] entries.drop_last()[i]
            == entries[i]);
        lemma_view_pairs_map_entries(pairs.drop_last(), entries.drop_last());
        assert(pairs.last() == (entries.last().0@, entries.last().1@));
    }
}

/// A store mapping string keys to values.
///
/// The view of a `StateManager<V>` is a `Map` from key characters to value
/// views; every operation's contract is stated against that map.
pub struct StateManager<V> {
    entries: Vec<(String, V)>,
}

impl<V: DeepView> View for StateManager<V> {
    type V = Map<Seq<char>, V::V>;

    closed spec fn view(&self) -> Map<Seq<char>, V::V> {
        entries_map(self.entries@)
    }
}

impl<V> StateManager<V> {
    /// The store never holds two entries for one key.
    #[verifier::type_invariant]
    spec fn well_formed(&self) -> bool {
        distinct_keys(self.entries@)
    }

    /// The keys currently stored, in insertion order.
    pub closed spec fn spec_keys(&self) -> Seq<Seq<char>> {
        entry_keys(self.entries@)
    }
}

impl<V: DeepView> StateManager<V> {
    /// Creates an empty store.
    pub fn new() -> (r: Self)
        ensures
            r@ == Map::<Seq<char>, V::V>::empty(),
            r@.dom().finite(),
    {
        let r = StateManager { entries: Vec::new() };
        proof {
            lemma_entries_map_len(r.entries@);
        }
        r
    }

    /// Returns the index of the entry holding `key`, if any.
    fn find(&self, key: &String) -> (r: Option<usize>)
        ensures
            match r {
                Some(i) => i < self.entries@.len() && self.entries@[i as int].0@ == key@
                    && self@.contains_key(key@),
                None => !self@.contains_key(key@),
            },
    {
        proof {
            use_type_invariant(&*self);
        }
        let n = self.entries.len();
        let mut i: usize = 0;
        while i < n
            invariant
                self.well_formed(),
                n == self.entries@.len(),
                i <= n,
                forall|j: int| 0 <= j < i ==> self.entries@[j].0@ != key@,
            decreases n - i,
        {
            if self.entries[i].0 == *key {
                proof {
                    lemma_entries_map_value(self.entries@, i as int);
                }
                return Some(i);
            }
            i += 1;
        }
        proof {
            lemma_entries_map_domain(self.entries@, key@);
        }
        None
    }

    /// Returns a reference to the value stored at `key`, if any.
    pub fn get(&self, key: &String) -> (r: Option<&V>)
        ensures
            match r {
                Some(v) => self@.contains_key(key@) && v.deep_view() == self@[key@],
                None => !self@.contains_key(key@),
            },
    {
        proof {
            use_type_invariant(&*self);
        }
        match self.find(key) {
            Some(i) => {
                proof {
                    lemma_entries_map_value(self.entries@, i as int);
                }
                Some(&self.entries[i].1)
            },
            None => None,
        }
    }

    /// Returns whether a value is stored at `key`.
    pub fn contains_key(&self, key: &String) -> (r: bool)
        ensures
            r == self@.contains_key(key@),
    {
        self.find(key).is_some()
    }

    /// Stores `value` at `key`, replacing any value already stored there.
    pub fn insert(&mut self, key: String, value: V)
        ensures
            final (self)@ == old(self)@.insert(key@, value.deep_view()),
            final (self)@.dom().finite(),
    {
        proof {
            use_type_invariant(&*self);
        }
        let ghost pre = self.entries@;
        let found = self.find(&key);
        let mut entries: Vec<(String, V)> = Vec::new();
        core::mem::swap(&mut entries, &mut self.entries);
        match found {
            Some(i) => {
                let _ = entries.remove(i);
                proof {
                    lemma_entries_map_remove(pre, i as int);
                    lemma_distinct_keys_remove(pre, i as int);
                }
                entries.push((key, value));
                proof {
                    assert(entries@.drop_last() =~= pre.remove(i as int));
                    lemma_entries_map_domain(pre.remove(i as int), entries@.last().0@);
                    assert(entries_map(entries@) =~= entries_map(pre).insert(
                        entries@.last().0@,
                        entries@.last().1.deep_view(),
                    ));
                    lemma_distinct_keys_push(pre.remove(i as int), entries@.last());
                }
            },
            None => {
                proof {
                    lemma_entries_map_domain(pre, key@);
                }
                entries.push((key, value));
                proof {
                    assert(entries@.drop_last() =~= pre);
                    lemma_entries_map_domain(pre, entries@.last().0@);
                    lemma_distinct_keys_push(pre, entries@.last());
                }
            },
        }
        self.entries = entries;
        proof {
            lemma_entries_map_len(self.entries@);
        }
    }

    /// Removes and returns the value stored at `key`, if any.
    pub fn remove(&mut self, key: &String) -> (r: Option<V>)
        ensures
            final (self)@ == old(self)@.remove(key@),
            final (self)@.dom().finite(),
            match r {
                Some(v) => old(self)@.contains_key(key@) && v.deep_view() == old(self)@[key@],
                None => !old(self)@.contains_key(key@),
            },
    {
        proof {
            use_type_invariant(&*self);
        }
        match self.find(key) {
            Some(i) => {
                let ghost pre = self.entries@;
                proof {
                    lemma_entries_map_value(pre, i as int);
                    lemma_entries_map_remove(pre, i as int);
                    lemma_distinct_keys_remove(pre, i as int);
                }
                let mut entries: Vec<(String, V)> = Vec::new();
                core::mem::swap(&mut entries, &mut self.entries);
                let (_, v) = entries.remove(i);
                self.entries = entries;
                proof {
                    lemma_entries_map_len(self.entries@);
                }
                Some(v)
            },
            None => {
                proof {
                    use_type_invariant(&*self);
                    lemma_entries_map_len(self.entries@);
                    assert(old(self)@.remove(key@) =~= old(self)@);
                }
                None
            },
        }
    }

    /// Returns the number of keys stored.
    pub fn len(&self) -> (r: usize)
        ensures
            r == self@.dom().len(),
            self@.dom().finite(),
    {
        proof {
            use_type_invariant(&*self);
            lemma_entries_map_len(self.entries@);
        }
        self.entries.len()
    }

    /// Returns whether the store holds no keys.
    pub fn is_empty(&self) -> (r: bool)
        ensures
            r == (self@.dom().len() == 0),
    {
        proof {
            use_type_invariant(&*self);
            lemma_entries_map_len(self.entries@);
        }
        self.entries.len() == 0
    }

    /// Removes every entry.
    pub fn clear(&mut self)
        ensures
            final (self)@ == Map::<Seq<char>, V::V>::empty(),
            final (self)@.dom().finite(),
    {
        let mut entries: Vec<(String, V)> = Vec::new();
        core::mem::swap(&mut entries, &mut self.entries);
        proof {
            lemma_entries_map_len(self.entries@);
        }
    }

    /// Returns the stored keys: exactly the keys of the map, each once, in
    /// insertion order.
    pub fn keys(&self) -> (r: Vec<String>)
        ensures
            r.deep_view() == self.spec_keys(),
            r.deep_view().len() == self@.dom().len(),
            forall|i: int| 0 <= i < r.deep_view().len() ==> self@.contains_key(
                #[trigger] r.deep_view()[i],
            ),
            forall|i: int, j: int|
                0 <= i < j < r.deep_view().len() ==> r.deep_view()[i] != r.deep_view()[j],
            forall|k: Seq<char>| #[trigger] self@.contains_key(k) ==> (exists|i: int|
                0 <= i < r.deep_view().len() && r.deep_view()[i] == k),
    {
        proof {
            use_type_invariant(&*self);
        }
        let n = self.entries.len();
        let mut r: Vec<String> = Vec::new();
        let mut i: usize = 0;
        while i < n
            invariant
                self.well_formed(),
                n == self.entries@.len(),
                i <= n,
                r.deep_view() =~= entry_keys(self.entries@.take(i as int)),
            decreases n - i,
        {
            let ghost prev = r.deep_view();
            r.push(self.entries[i].0.clone());
            proof {
                assert(r.deep_view() =~= prev.push(self.entries@[i as int].0@));
                assert(prev.push(self.entries@[i as int].0@) =~= entry_keys(
                    self.entries@.take(i + 1),
                ));
            }
            i += 1;
        }
        proof {
            assert(self.entries@.take(n as int) =~= self.entries@);
            lemma_entries_map_len(self.entries@);
            assert forall|i: int| 0 <= i < self.entries@.len() implies self@.contains_key(
                #[trigger] entry_keys(self.entries@)[i],
            ) by {
                lemma_entries_map_value(self.entries@, i);
            }
            assert forall|k: Seq<char>| #[trigger] self@.contains_key(k) implies (exists|i: int|
                0 <= i < r.deep_view().len() && r.deep_view()[i] == k) by {
                lemma_entries_map_domain(self.entries@, k);
                let w = choose|w: int| 0 <= w < self.entries@.len() && self.entries@[w].0@ == k;
                assert(r.deep_view()[w] == k);
            }
        }
        r
    }

    /// Returns the stored values, in insertion order of their keys.
    pub fn values(&self) -> (r: Vec<V>) where V: Duplicable
        ensures
            r.deep_view().len() == self@.dom().len(),
            forall|i: int| 0 <= i < r.deep_view().len() ==> self@.contains_key(
                #[trigger] self.spec_keys()[i],
            ) && self@[self.spec_keys()[i]] == r.deep_view()[i],
    {
        proof {
            use_type_invariant(&*self);
        }
        let n = self.entries.len();
        let mut r: Vec<V> = Vec::new();
        let mut i: usize = 0;
        while i < n
            invariant
                self.well_formed(),
                n == self.entries@.len(),
                i <= n,
                r.deep_view().len() == i,
                forall|j: int| 0 <= j < i ==> #[trigger] r.deep_view()[j]
                    == self.entries@[j].1.deep_view(),
            decreases n - i,
        {
            let ghost prev = r.deep_view();
            let v = self.entries[i].1.dup();
            let ghost dv = v.deep_view();
            r.push(v);
            proof {
                assert(r.deep_view() =~= prev.push(dv));
            }
            i += 1;
        }
        proof {
            lemma_entries_map_len(self.entries@);
            assert forall|i: int| 0 <= i < r.deep_view().len() implies self@.contains_key(
                #[trigger] self.spec_keys()[i],
            ) && self@[self.spec_keys()[i]] == r.deep_view()[i] by {
                lemma_entries_map_value(self.entries@, i);
            }
        }
        r
    }
}

impl<V: DeepView> Default for StateManager<V> {
    /// An empty store.
    fn default() -> (r: Self)
        ensures
            r@ == Map::<Seq<char>, V::V>::empty(),
    {
        StateManager::new()
    }
}

impl StateManager<String> {
    /// Returns the stored entries as key/value pairs, in insertion order.
    pub fn entries_vec(&self) -> (r: Vec<(String, String)>)
        ensures
            view_pairs_map(r.deep_view()) == self@,
    {
        proof {
            use_type_invariant(&*self);
        }
        let n = self.entries.len();
        let mut r: Vec<(String, String)> = Vec::new();
        let mut i: usize = 0;
        while i < n
            invariant
                n == self.entries@.len(),
                i <= n,
                r@.len() == i,
                forall|j: int| 0 <= j < i ==> #[trigger] r.deep_view()[j] == (
                    self.entries@[j].0@,
                    self.entries@[j].1@,
                ),
            decreases n - i,
        {
            let ghost prev = r.deep_view();
            let k = self.entries[i].0.clone();
            let v = self.entries[i].1.clone();
            let ghost kv = (k@, v@);
            r.push((k, v));
            proof {
                assert(r.deep_view() =~= prev.push(kv));
            }
            i += 1;
        }
        proof {
            lemma_view_pairs_map_entries(r.deep_view(), self.entries@);
        }
        r
    }
}

impl<V: DeepView> DeepView for StateManager<V> {
    type V = Map<Seq<char>, <V as DeepView>::V>;

    open spec fn deep_view(&self) -> Map<Seq<char>, <V as DeepView>::V> {
        self.view()
    }
}

impl<T: DeepView> StateManager<Vec<T>> {
    /// Appends `value` to the list stored at `key`, creating the list if the
    /// key is absent.
    pub fn push(&mut self, key: String, value: T)
        ensures
            final (self)@ == spec_push(old(self)@, key@, value.deep_view()),
            final (self)@.dom().finite(),
    {
        match self.remove(&key) {
            Some(mut list) => {
                let ghost lv = list.deep_view();
                list.push(value);
                proof {
                    assert(list.deep_view() =~= lv.push(value.deep_view()));
                }
                self.insert(key, list);
                proof {
                    assert(self@ =~~= spec_push(old(self)@, key@, value.deep_view()));
                }
            },
            None => {
                let mut list: Vec<T> = Vec::new();
                list.push(value);
                proof {
                    assert(list.deep_view() =~= seq![value.deep_view()]);
                }
                self.insert(key, list);
                proof {
                    assert(self@ =~~= spec_push(old(self)@, key@, value.deep_view()));
                }
            },
        }
    }
}

} // verus!
