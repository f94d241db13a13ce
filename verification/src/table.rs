//! A small table from names to values, kept in insertion order, with one
//! entry per name.
use vstd::prelude::*;
use vstd::string::*;
use crate::text::str_eq;

verus! {

/// Names are unique among the entries.
pub open spec fn distinct_names<V>(s: Seq<(String, V)>) -> bool {
    forall|i: int, j: int|
        0 <= i < s.len() && 0 <= j < s.len() && (#[trigger] s[i]).0@ == (#[trigger] s[j]).0@ ==> i == j
}

/// The map that a sequence of entries with distinct names stands for.
pub open spec fn entries_map<V>(s: Seq<(String, V)>) -> Map<Seq<char>, V> {
    Map::new(
        |n: Seq<char>| exists|i: int| 0 <= i < s.len() && (#[trigger] s[i]).0@ == n,
        |n: Seq<char>| s[choose|i: int| 0 <= i < s.len() && (#[trigger] s[i]).0@ == n].1,
    )
}

proof fn lemma_entry_at<V>(s: Seq<(String, V)>, i: int)
    requires
        distinct_names(s),
        0 <= i < s.len(),
    ensures
        entries_map(s).contains_key(s[i].0@),
        entries_map(s)[s[i].0@] == s[i].1,
{
    let n = s[i].0@;
    assert(0 <= i < s.len() && s[i].0@ == n);
    let k = choose|k: int| 0 <= k < s.len() && (#[trigger] s[k]).0@ == n;
    assert(k == i);
}

/// A table from names to values with one entry per name.
#[derive(Debug)]
pub struct NameTable<V> {
    entries: Vec<(String, V)>,
}

impl<V> NameTable<V> {
    #[verifier::type_invariant]
    spec fn names_distinct(self) -> bool {
        distinct_names(self.entries@)
    }

    /// The entries, by name.
    pub closed spec fn view(self) -> Map<Seq<char>, V> {
        entries_map(self.entries@)
    }

    /// An empty table.
    pub fn new() -> (t: Self)
        ensures
            t.view() == Map::<Seq<char>, V>::empty(),
    {
        let t = NameTable { entries: Vec::new() };
        assert(t.view() =~= Map::<Seq<char>, V>::empty());
        t
    }

    fn position(&self, name: &str) -> (r: Option<usize>)
        ensures
            r.is_some() == self.view().contains_key(name@),
            r matches Some(i) ==> i < self.entries@.len() && self.entries@[i as int].0@ == name@,
    {
        let n = self.entries.len();
        let mut i: usize = 0;
        while i < n
            invariant
                n == self.entries@.len(),
                i <= n,
                forall|j: int| 0 <= j < i ==> (#[trigger] self.entries@[j]).0@ != name@,
            decreases n - i,
        {
            if str_eq(self.entries[i].0.as_str(), name) {
                return Some(i);
            }
            i = i + 1;
        }
        None
    }

    /// The value under `name`.
    pub fn get(&self, name: &str) -> (r: Option<&V>)
        ensures
            r.is_some() == self.view().contains_key(name@),
            r.is_some() ==> *r.unwrap() == self.view()[name@],
    {
        proof {
            use_type_invariant(self);
        }
        match self.position(name) {
            Some(i) => {
                proof {
                    lemma_entry_at(self.entries@, i as int);
                }
                Some(&self.entries[i].1)
            },
            None => None,
        }
    }

    /// Sets the value under `name`, replacing the one there was.
    pub fn insert(&mut self, name: &str, value: V)
        ensures
            final(self).view() == old(self).view().insert(name@, value),
    {
        proof {
            use_type_invariant(&*self);
        }
        let ghost old_s = self.entries@;
        let pos = self.position(name);
        let mut v = Vec::new();
        std::mem::swap(&mut v, &mut self.entries);
        match pos {
            Some(i) => {
                v.set(i, (String::from_str(name), value));
            },
            None => {
                v.push((String::from_str(name), value));
            },
        }
        let ghost new_s = v@;
        assert(distinct_names(new_s));
        self.entries = v;
        proof {
            let last: int = match pos {
                Some(i) => i as int,
                None => old_s.len() as int,
            };
            lemma_entry_at(new_s, last);
            assert forall|n: Seq<char>| n != name@ implies #[trigger] entries_map(new_s).contains_key(
                n,
            ) == entries_map(old_s).contains_key(n) by {
                if entries_map(old_s).contains_key(n) {
                    let k = choose|k: int| 0 <= k < old_s.len() && (#[trigger] old_s[k]).0@ == n;
                    assert(new_s[k] == old_s[k]);
                }
                if entries_map(new_s).contains_key(n) {
                    let k = choose|k: int| 0 <= k < new_s.len() && (#[trigger] new_s[k]).0@ == n;
                    assert(k != last);
                    assert(old_s[k] == new_s[k]);
                }
            }
            assert forall|n: Seq<char>|
                n != name@ && entries_map(old_s).contains_key(n) implies #[trigger] entries_map(
                new_s,
            )[n] == entries_map(old_s)[n] by {
                let k = choose|k: int| 0 <= k < old_s.len() && (#[trigger] old_s[k]).0@ == n;
                lemma_entry_at(old_s, k);
                assert(new_s[k] == old_s[k]);
                lemma_entry_at(new_s, k);
            }
            assert(entries_map(new_s) =~= entries_map(old_s).insert(name@, value));
        }
    }
}

} // verus!
