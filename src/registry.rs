//! A name-keyed table with overwrite semantics, viewed as a map from names
//! to values.
use vstd::prelude::*;

verus! {

/// One named entry of a registry.
pub struct Entry<V> {
    pub name: String,
    pub value: V,
}

/// Entries are kept in insertion order; a name appears at most once.
pub struct Registry<V> {
    entries: Vec<Entry<V>>,
}

/// No two entries share a name.
pub open spec fn names_unique<V>(s: Seq<Entry<V>>) -> bool {
    forall|i: int, j: int|
        0 <= i < s.len() && 0 <= j < s.len() && i != j ==> s[i].name@ != s[j].name@
}

/// The map that a sequence of entries denotes.
pub open spec fn map_of<V>(s: Seq<Entry<V>>) -> Map<Seq<char>, V>
    decreases s.len(),
{
    if s.len() == 0 {
        Map::empty()
    } else {
        map_of(s.drop_last()).insert(s.last().name@, s.last().value)
    }
}

/// Every name in the map comes from some entry, and only those.
pub proof fn lemma_map_of_dom<V>(s: Seq<Entry<V>>, k: Seq<char>)
    ensures
        map_of(s).contains_key(k) <==> exists|i: int| 0 <= i < s.len() && s[i].name@ == k,
    decreases s.len(),
{
    if s.len() > 0 {
        lemma_map_of_dom(s.drop_last(), k);
        if map_of(s).contains_key(k) && k != s.last().name@ {
            let i = choose|i: int| 0 <= i < s.drop_last().len() && s.drop_last()[i].name@ == k;
            assert(s[i].name@ == k);
        }
        if exists|i: int| 0 <= i < s.len() && s[i].name@ == k {
            let i = choose|i: int| 0 <= i < s.len() && s[i].name@ == k;
            if i < s.len() - 1 {
                assert(s.drop_last()[i].name@ == k);
            }
        }
    }
}

/// With unique names, each entry's value is what the map holds at its name.
pub proof fn lemma_map_of_at<V>(s: Seq<Entry<V>>, i: int)
    requires
        names_unique(s),
        0 <= i < s.len(),
    ensures
        map_of(s).contains_key(s[i].name@),
        map_of(s)[s[i].name@] == s[i].value,
    decreases s.len(),
{
    if i < s.len() - 1 {
        assert(s.drop_last()[i] == s[i]);
        lemma_map_of_at(s.drop_last(), i);
    }
}

/// Replacing the entry that holds a name rebinds that name only.
pub proof fn lemma_map_of_update<V>(s: Seq<Entry<V>>, i: int, e: Entry<V>)
    requires
        names_unique(s),
        0 <= i < s.len(),
        s[i].name@ == e.name@,
    ensures
        map_of(s.update(i, e)) == map_of(s).insert(e.name@, e.value),
    decreases s.len(),
{
    let t = s.update(i, e);
    if i == s.len() - 1 {
        assert(t.drop_last() =~= s.drop_last());
        assert(map_of(t) =~= map_of(s).insert(e.name@, e.value));
    } else {
        assert(t.drop_last() =~= s.drop_last().update(i, e));
        lemma_map_of_update(s.drop_last(), i, e);
        assert(s.last().name@ != e.name@);
        assert(map_of(t) =~= map_of(s).insert(e.name@, e.value));
    }
}

impl<V> Registry<V> {
    /// The entries, in insertion order.
    pub closed spec fn entries(&self) -> Seq<Entry<V>> {
        self.entries@
    }

    /// The names and what each is bound to.
    pub open spec fn view(&self) -> Map<Seq<char>, V> {
        map_of(self.entries())
    }

    pub open spec fn wf(&self) -> bool {
        names_unique(self.entries())
    }

    /// Each entry stands for the binding of its name.
    pub proof fn lemma_entries(&self)
        requires
            self.wf(),
        ensures
            forall|i: int|
                0 <= i < self.entries().len() ==> #[trigger] self.view().contains_key(
                    self.entries()[i].name@,
                ) && self.view()[self.entries()[i].name@] == self.entries()[i].value,
            forall|k: Seq<char>|
                #[trigger] self.view().contains_key(k) ==> exists|i: int|
                    0 <= i < self.entries().len() && self.entries()[i].name@ == k,
    {
        assert forall|i: int| 0 <= i < self.entries().len() implies #[trigger] self.view().contains_key(
            self.entries()[i].name@,
        ) && self.view()[self.entries()[i].name@] == self.entries()[i].value by {
            lemma_map_of_at(self.entries(), i);
        }
        assert forall|k: Seq<char>| #[trigger] self.view().contains_key(k) implies exists|i: int|
            0 <= i < self.entries().len() && self.entries()[i].name@ == k by {
            lemma_map_of_dom(self.entries(), k);
        }
    }

    pub fn new() -> (r: Self)
        ensures
            r.wf(),
            r.view() == Map::<Seq<char>, V>::empty(),
            r.entries().len() == 0,
    {
        Registry { entries: Vec::new() }
    }

    pub fn len(&self) -> (r: usize)
        ensures
            r == self.entries().len(),
    {
        self.entries.len()
    }

    /// The entry at position `i` of the insertion order.
    pub fn entry(&self, i: usize) -> (r: &Entry<V>)
        requires
            i < self.entries().len(),
        ensures
            *r == self.entries()[i as int],
    {
        &self.entries[i]
    }

    /// The position of the entry named `name`, if there is one.
    pub fn position(&self, name: &String) -> (r: Option<usize>)
        requires
            self.wf(),
        ensures
            r is None <==> !self.view().contains_key(name@),
            r matches Some(i) ==> i < self.entries().len() && self.entries()[i as int].name@
                == name@,
    {
        let mut i: usize = 0;
        while i < self.entries.len()
            invariant
                i <= self.entries@.len(),
                forall|j: int| 0 <= j < i ==> self.entries@[j].name@ != name@,
            decreases self.entries@.len() - i,
        {
            if self.entries[i].name == *name {
                proof {
                    lemma_map_of_dom(self.entries(), name@);
                    assert(self.entries()[i as int].name@ == name@);
                }
                return Some(i);
            }
            i = i + 1;
        }
        proof {
            lemma_map_of_dom(self.entries(), name@);
        }
        None
    }

    /// What `name` is bound to, if anything.
    pub fn get(&self, name: &String) -> (r: Option<&V>)
        requires
            self.wf(),
        ensures
            r is None <==> !self.view().contains_key(name@),
            r matches Some(v) ==> *v == self.view()[name@],
    {
        match self.position(name) {
            Some(i) => {
                proof {
                    lemma_map_of_at(self.entries(), i as int);
                }
                Some(&self.entries[i].value)
            },
            None => None,
        }
    }

    /// Binds `name` to `value`, replacing an earlier binding of the same name.
    pub fn insert(&mut self, name: String, value: V)
        requires
            old(self).wf(),
        ensures
            final(self).wf(),
            final(self).view() == old(self).view().insert(name@, value),
    {
        match self.position(&name) {
            Some(i) => {
                let e = Entry { name, value };
                proof {
                    lemma_map_of_update(self.entries(), i as int, e);
                }
                self.entries.set(i, e);
            },
            None => {
                proof {
                    lemma_map_of_dom(self.entries(), name@);
                }
                let e = Entry { name, value };
                self.entries.push(e);
                assert(self.entries@.drop_last() =~= old(self).entries@);
            },
        }
    }
}

} // verus!
