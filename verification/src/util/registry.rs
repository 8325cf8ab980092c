//! A table of named items, where each name stands for at most one item.

use vstd::prelude::*;

verus! {

/// Whether no name occurs twice among the entries.
pub open spec fn names_distinct<T>(e: Seq<(String, T)>) -> bool {
    forall|i: int, j: int| 0 <= i < j < e.len() ==> #[trigger] e[i].0@ != #[trigger] e[j].0@
}

/// Whether some entry has the name `n`.
pub open spec fn has_name<T>(e: Seq<(String, T)>, n: Seq<char>) -> bool {
    exists|i: int| 0 <= i < e.len() && #[trigger] e[i].0@ == n
}

/// The map from each name to its item.
pub open spec fn entries_map<T>(e: Seq<(String, T)>) -> Map<Seq<char>, T> {
    Map::new(
        |n: Seq<char>| has_name(e, n),
        |n: Seq<char>| e[choose|i: int| 0 <= i < e.len() && #[trigger] e[i].0@ == n].1,
    )
}

/// A table of named items, where each name stands for at most one item.
pub struct Registry<T> {
    entries: Vec<(String, T)>,
}

proof fn lemma_lookup<T>(e: Seq<(String, T)>, i: int)
    requires
        names_distinct(e),
        0 <= i < e.len(),
    ensures
        entries_map(e).dom().contains(e[i].0@),
        entries_map(e)[e[i].0@] == e[i].1,
{
    let n = e[i].0@;
    assert(has_name(e, n));
    let j = choose|j: int| 0 <= j < e.len() && #[trigger] e[j].0@ == n;
    if j != i {
        if j < i {
            assert(e[j].0@ != e[i].0@);
        } else {
            assert(e[i].0@ != e[j].0@);
        }
    }
}

proof fn lemma_push<T>(e: Seq<(String, T)>, name: String, item: T)
    requires
        names_distinct(e),
        !has_name(e, name@),
    ensures
        names_distinct(e.push((name, item))),
        entries_map(e.push((name, item))) == entries_map(e).insert(name@, item),
{
    let f = e.push((name, item));
    assert forall|i: int, j: int| 0 <= i < j < f.len() implies #[trigger] f[i].0@ != #[trigger] f[j].0@ by {
        if j == e.len() {
            if f[i].0@ == name@ {
                assert(e[i].0@ == name@);
            }
        } else {
            assert(f[i] == e[i] && f[j] == e[j]);
        }
    }
    let m = entries_map(e).insert(name@, item);
    assert forall|n: Seq<char>| #[trigger] entries_map(f).dom().contains(n) <==> m.dom().contains(n) by {
        if has_name(f, n) && n != name@ {
            let i = choose|i: int| 0 <= i < f.len() && #[trigger] f[i].0@ == n;
            assert(i < e.len());
            assert(e[i].0@ == n);
        }
        if has_name(e, n) {
            let i = choose|i: int| 0 <= i < e.len() && #[trigger] e[i].0@ == n;
            assert(f[i].0@ == n);
        }
        if n == name@ {
            assert(f[e.len() as int].0@ == n);
        }
    }
    assert forall|n: Seq<char>| #[trigger] entries_map(f).dom().contains(n) implies entries_map(f)[n] == m[n] by {
        let i = choose|i: int| 0 <= i < f.len() && #[trigger] f[i].0@ == n;
        lemma_lookup(f, i);
        if i < e.len() {
            assert(f[i] == e[i]);
            lemma_lookup(e, i);
        }
    }
    assert(entries_map(f) =~= m);
}

proof fn lemma_remove<T>(e: Seq<(String, T)>, k: int)
    requires
        names_distinct(e),
        0 <= k < e.len(),
    ensures
        names_distinct(e.remove(k)),
        entries_map(e.remove(k)) == entries_map(e).remove(e[k].0@),
{
    let f = e.remove(k);
    let name = e[k].0@;
    assert forall|i: int| 0 <= i < f.len() implies #[trigger] f[i] == (if i < k { e[i] } else { e[i + 1] }) by {}
    assert forall|i: int, j: int| 0 <= i < j < f.len() implies #[trigger] f[i].0@ != #[trigger] f[j].0@ by {
        let ii = if i < k { i } else { i + 1 };
        let jj = if j < k { j } else { j + 1 };
        assert(f[i] == e[ii]);
        assert(f[j] == e[jj]);
        assert(e[ii].0@ != e[jj].0@);
    }
    let m = entries_map(e).remove(name);
    assert forall|n: Seq<char>| #[trigger] entries_map(f).dom().contains(n) <==> m.dom().contains(n) by {
        if has_name(f, n) {
            let i = choose|i: int| 0 <= i < f.len() && #[trigger] f[i].0@ == n;
            let ii = if i < k { i } else { i + 1 };
            assert(f[i] == e[ii]);
            assert(e[ii].0@ == n);
            if n == name {
                if ii < k {
                    assert(e[ii].0@ != e[k].0@);
                } else {
                    assert(e[k].0@ != e[ii].0@);
                }
            }
        }
        if has_name(e, n) && n != name {
            let i = choose|i: int| 0 <= i < e.len() && #[trigger] e[i].0@ == n;
            assert(i != k);
            let ii = if i < k { i } else { i - 1 };
            assert(f[ii] == e[i]);
            assert(f[ii].0@ == n);
        }
    }
    assert forall|n: Seq<char>| #[trigger] entries_map(f).dom().contains(n) implies entries_map(f)[n] == m[n] by {
        let i = choose|i: int| 0 <= i < f.len() && #[trigger] f[i].0@ == n;
        let ii = if i < k { i } else { i + 1 };
        assert(f[i] == e[ii]);
        lemma_lookup(f, i);
        lemma_lookup(e, ii);
    }
    assert(entries_map(f) =~= m);
}

impl<T> Registry<T> {
    #[verifier::type_invariant]
    spec fn distinct(&self) -> bool {
        names_distinct(self.entries@)
    }

    /// The item registered under each name.
    pub closed spec fn spec_map(&self) -> Map<Seq<char>, T> {
        entries_map(self.entries@)
    }

    /// An empty table.
    pub fn new() -> (r: Self)
        ensures
            r.spec_map() == Map::<Seq<char>, T>::empty(),
    {
        let r = Registry { entries: Vec::new() };
        assert(r.spec_map() =~= Map::<Seq<char>, T>::empty());
        r
    }

    /// The index of the entry named `name`, if any.
    fn find(&self, name: &str) -> (r: Option<usize>)
        ensures
            match r {
                Some(i) => i < self.entries@.len() && self.entries@[i as int].0@ == name@,
                None => !has_name(self.entries@, name@),
            },
    {
        let key = str_to_string(name);
        let mut i: usize = 0;
        while i < self.entries.len()
            invariant
                key@ == name@,
                i <= self.entries@.len(),
                forall|j: int| 0 <= j < i ==> self.entries@[j].0@ != name@,
            decreases self.entries.len() - i,
        {
            if self.entries[i].0.eq(&key) {
                return Some(i);
            }
            i = i + 1;
        }
        None
    }

    /// The item registered under `name`, if any.
    pub fn get(&self, name: &str) -> (r: Option<&T>)
        ensures
            match r {
                Some(t) => self.spec_map().dom().contains(name@) && *t == self.spec_map()[name@],
                None => !self.spec_map().dom().contains(name@),
            },
    {
        proof {
            use_type_invariant(self);
        }
        match self.find(name) {
            Some(i) => {
                proof {
                    lemma_lookup(self.entries@, i as int);
                }
                Some(&self.entries[i].1)
            },
            None => None,
        }
    }

    /// Registers `item` under `name`; if the name is taken, the table is unchanged and the item
    /// is handed back.
    pub fn register(&mut self, name: &str, item: T) -> (r: Result<(), T>)
        ensures
            old(self).spec_map().dom().contains(name@) ==> (r == Err::<(), T>(item) && final(self).spec_map()
                == old(self).spec_map()),
            !old(self).spec_map().dom().contains(name@) ==> (r is Ok && final(self).spec_map()
                == old(self).spec_map().insert(name@, item)),
    {
        proof {
            use_type_invariant(&*self);
        }
        match self.find(name) {
            Some(i) => {
                proof {
                    lemma_lookup(self.entries@, i as int);
                }
                Err(item)
            },
            None => {
                let mut entries = Vec::new();
                std::mem::swap(&mut entries, &mut self.entries);
                let key = str_to_string(name);
                proof {
                    lemma_push(entries@, key, item);
                }
                entries.push((key, item));
                self.entries = entries;
                Ok(())
            },
        }
    }

    /// Removes and hands back the item registered under `name`, if any.
    pub fn remove(&mut self, name: &str) -> (r: Option<T>)
        ensures
            match r {
                Some(t) => old(self).spec_map().dom().contains(name@) && t == old(self).spec_map()[name@],
                None => !old(self).spec_map().dom().contains(name@),
            },
            final(self).spec_map() == old(self).spec_map().remove(name@),
    {
        proof {
            use_type_invariant(&*self);
        }
        match self.find(name) {
            Some(i) => {
                let mut entries = Vec::new();
                std::mem::swap(&mut entries, &mut self.entries);
                proof {
                    lemma_lookup(entries@, i as int);
                    lemma_remove(entries@, i as int);
                }
                let (_, item) = entries.remove(i);
                self.entries = entries;
                Some(item)
            },
            None => {
                assert(self.spec_map().remove(name@) =~= self.spec_map());
                None
            },
        }
    }
}

/// A `String` holding the text of a string slice.
fn str_to_string(s: &str) -> (r: String)
    ensures
        r@ == s@,
{
    let mut r = String::new();
    crate::util::text::push_str(&mut r, s);
    r
}

} // verus!
