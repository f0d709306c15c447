use vstd::prelude::*;

verus! {

/// The map that `entries` describes, a later entry overriding an earlier one with the same key.
pub open spec fn table_map<V>(entries: Seq<(String, V)>) -> Map<Seq<char>, V>
    decreases entries.len(),
{
    if entries.len() == 0 {
        Map::empty()
    } else {
        let last = entries.last();
        table_map(entries.drop_last()).insert(last.0@, last.1)
    }
}

/// `i` is the last position of `entries` that holds key `k`.
pub open spec fn last_position<V>(entries: Seq<(String, V)>, k: Seq<char>, i: int) -> bool {
    &&& 0 <= i < entries.len()
    &&& entries[i].0@ == k
    &&& forall|j: int| i < j < entries.len() ==> entries[j].0@ != k
}

proof fn lemma_absent<V>(entries: Seq<(String, V)>, k: Seq<char>)
    requires
        forall|j: int| 0 <= j < entries.len() ==> entries[j].0@ != k,
    ensures
        !table_map(entries).contains_key(k),
    decreases entries.len(),
{
    if entries.len() > 0 {
        lemma_absent(entries.drop_last(), k);
    }
}

proof fn lemma_present<V>(entries: Seq<(String, V)>, k: Seq<char>, i: int)
    requires
        last_position(entries, k, i),
    ensures
        table_map(entries).contains_key(k),
        table_map(entries)[k] == entries[i].1,
    decreases entries.len(),
{
    if i < entries.len() - 1 {
        lemma_present(entries.drop_last(), k, i);
    }
}

proof fn lemma_update<V>(entries: Seq<(String, V)>, k: Seq<char>, i: int, e: (String, V))
    requires
        last_position(entries, k, i),
        e.0@ == k,
    ensures
        table_map(entries.update(i, e)) == table_map(entries).insert(k, e.1),
    decreases entries.len(),
{
    let u = entries.update(i, e);
    if i < entries.len() - 1 {
        assert(u.drop_last() == entries.drop_last().update(i, e));
        lemma_update(entries.drop_last(), k, i, e);
        assert(table_map(u) =~= table_map(entries).insert(k, e.1));
    } else {
        assert(u.drop_last() == entries.drop_last());
        assert(table_map(u) =~= table_map(entries).insert(k, e.1));
    }
}

/// A finite map from string keys to values, absent keys reading as unset.
pub struct Table<V> {
    entries: Vec<(String, V)>,
}

impl<V> Table<V> {
    pub closed spec fn view(&self) -> Map<Seq<char>, V> {
        table_map(self.entries@)
    }

    pub fn new() -> (r: Self)
        ensures
            r@ == Map::<Seq<char>, V>::empty(),
    {
        Table { entries: Vec::new() }
    }

    fn position(&self, k: &String) -> (r: Option<usize>)
        ensures
            match r {
                Some(i) => last_position(self.entries@, k@, i as int),
                None => forall|j: int| 0 <= j < self.entries@.len() ==> self.entries@[j].0@ != k@,
            },
    {
        let mut i: usize = self.entries.len();
        while i > 0
            invariant
                i <= self.entries@.len(),
                forall|j: int| i <= j < self.entries@.len() ==> self.entries@[j].0@ != k@,
            decreases i,
        {
            i = i - 1;
            if self.entries[i].0 == *k {
                return Some(i);
            }
        }
        None
    }

    /// The value bound to `k`, if any.
    pub fn get(&self, k: &String) -> (r: Option<&V>)
        ensures
            match r {
                Some(v) => self@.contains_key(k@) && *v == self@[k@],
                None => !self@.contains_key(k@),
            },
    {
        match self.position(k) {
            Some(i) => {
                proof {
                    lemma_present(self.entries@, k@, i as int);
                }
                Some(&self.entries[i].1)
            },
            None => {
                proof {
                    lemma_absent(self.entries@, k@);
                }
                None
            },
        }
    }

    /// Binds `k` to `v`, replacing any earlier binding.
    pub fn insert(&mut self, k: String, v: V)
        ensures
            final(self)@ == old(self)@.insert(k@, v),
    {
        match self.position(&k) {
            Some(i) => {
                proof {
                    lemma_update(self.entries@, k@, i as int, (k, v));
                }
                self.entries.set(i, (k, v));
            },
            None => {
                self.entries.push((k, v));
                proof {
                    assert(self.entries@.drop_last() == old(self).entries@);
                }
            },
        }
    }
}

} // verus!
