//! A finite map from strings to strings, kept as a list of entries with distinct keys. It backs
//! the per-provider model overrides, the resolved provider keys, and the in-memory credential
//! store.

use vstd::prelude::*;

use crate::text::str_eq;

verus! {

/// Whether no two entries of `s` share a key.
pub open spec fn keys_unique(s: Seq<(String, String)>) -> bool {
    forall|i: int, j: int|
        0 <= i < s.len() && 0 <= j < s.len() && i != j ==> (#[trigger] s[i]).0@ != (
        #[trigger] s[j]).0@
}

/// Whether some entry of `s` has key `k`.
pub open spec fn has_key(s: Seq<(String, String)>, k: Seq<char>) -> bool {
    exists|i: int| 0 <= i < s.len() && (#[trigger] s[i]).0@ == k
}

/// The map the entries of `s` denote.
pub open spec fn entries_map(s: Seq<(String, String)>) -> Map<Seq<char>, Seq<char>> {
    Map::new(
        |k: Seq<char>| has_key(s, k),
        |k: Seq<char>| s[choose|i: int| 0 <= i < s.len() && (#[trigger] s[i]).0@ == k].1@,
    )
}

/// A finite map from strings to strings.
pub struct StrMap {
    entries: Vec<(String, String)>,
}

impl View for StrMap {
    type V = Map<Seq<char>, Seq<char>>;

    closed spec fn view(&self) -> Map<Seq<char>, Seq<char>> {
        entries_map(self.entries@)
    }
}

proof fn lemma_entry(s: Seq<(String, String)>, i: int)
    requires
        keys_unique(s),
        0 <= i < s.len(),
    ensures
        entries_map(s).contains_key(s[i].0@),
        entries_map(s)[s[i].0@] == s[i].1@,
{
    assert(has_key(s, s[i].0@));
    let j = choose|j: int| 0 <= j < s.len() && (#[trigger] s[j]).0@ == s[i].0@;
    assert(j == i);
}

proof fn lemma_absent(s: Seq<(String, String)>, k: Seq<char>)
    requires
        forall|i: int| 0 <= i < s.len() ==> (#[trigger] s[i]).0@ != k,
    ensures
        !entries_map(s).contains_key(k),
{
}

/// The map of a unique list after appending an entry with a fresh key.
proof fn lemma_push(s: Seq<(String, String)>, e: (String, String))
    requires
        keys_unique(s),
        !has_key(s, e.0@),
    ensures
        keys_unique(s.push(e)),
        entries_map(s.push(e)) == entries_map(s).insert(e.0@, e.1@),
{
    let t = s.push(e);
    assert(keys_unique(t)) by {
        assert forall|i: int, j: int|
            0 <= i < t.len() && 0 <= j < t.len() && i != j implies (#[trigger] t[i]).0@ != (
            #[trigger] t[j]).0@ by {
            if i < s.len() && j < s.len() {
                assert(t[i] == s[i] && t[j] == s[j]);
            } else if i < s.len() {
                assert(t[i] == s[i]);
            } else {
                assert(t[j] == s[j]);
            }
        }
    }
    assert forall|k: Seq<char>| #[trigger]
        entries_map(t).contains_key(k) == entries_map(s).insert(e.0@, e.1@).contains_key(k) by {
        if has_key(s, k) {
            let i = choose|i: int| 0 <= i < s.len() && (#[trigger] s[i]).0@ == k;
            assert(t[i] == s[i]);
        }
        if k == e.0@ {
            assert(t[s.len() as int] == e);
        }
        if has_key(t, k) && k != e.0@ {
            let i = choose|i: int| 0 <= i < t.len() && (#[trigger] t[i]).0@ == k;
            assert(i < s.len());
            assert(s[i] == t[i]);
        }
    }
    assert forall|k: Seq<char>| entries_map(t).contains_key(k) implies entries_map(t)[k]
        == entries_map(s).insert(e.0@, e.1@)[k] by {
        let i = choose|i: int| 0 <= i < t.len() && (#[trigger] t[i]).0@ == k;
        lemma_entry(t, i);
        if i < s.len() {
            assert(s[i] == t[i]);
            lemma_entry(s, i);
        } else {
            assert(t[i] == e);
        }
    }
    assert(entries_map(t) =~= entries_map(s).insert(e.0@, e.1@));
}

/// The map of a unique list after replacing the value of entry `i`.
proof fn lemma_update(s: Seq<(String, String)>, i: int, e: (String, String))
    requires
        keys_unique(s),
        0 <= i < s.len(),
        e.0@ == s[i].0@,
    ensures
        keys_unique(s.update(i, e)),
        entries_map(s.update(i, e)) == entries_map(s).insert(e.0@, e.1@),
{
    let t = s.update(i, e);
    assert(keys_unique(t)) by {
        assert forall|a: int, b: int|
            0 <= a < t.len() && 0 <= b < t.len() && a != b implies (#[trigger] t[a]).0@ != (
            #[trigger] t[b]).0@ by {
            assert(t[a].0@ == s[a].0@);
            assert(t[b].0@ == s[b].0@);
        }
    }
    assert forall|k: Seq<char>| #[trigger]
        entries_map(t).contains_key(k) == entries_map(s).insert(e.0@, e.1@).contains_key(k) by {
        if has_key(s, k) {
            let j = choose|j: int| 0 <= j < s.len() && (#[trigger] s[j]).0@ == k;
            assert(t[j].0@ == s[j].0@);
        }
        if has_key(t, k) {
            let j = choose|j: int| 0 <= j < t.len() && (#[trigger] t[j]).0@ == k;
            assert(t[j].0@ == s[j].0@);
        }
        if k == e.0@ {
            assert(t[i] == e);
        }
    }
    assert forall|k: Seq<char>| entries_map(t).contains_key(k) implies entries_map(t)[k]
        == entries_map(s).insert(e.0@, e.1@)[k] by {
        let j = choose|j: int| 0 <= j < t.len() && (#[trigger] t[j]).0@ == k;
        lemma_entry(t, j);
        if j != i {
            assert(s[j] == t[j]);
            lemma_entry(s, j);
        }
    }
    assert(entries_map(t) =~= entries_map(s).insert(e.0@, e.1@));
}

/// The map of a unique list after removing entry `i`.
proof fn lemma_remove(s: Seq<(String, String)>, i: int)
    requires
        keys_unique(s),
        0 <= i < s.len(),
    ensures
        keys_unique(s.remove(i)),
        entries_map(s.remove(i)) == entries_map(s).remove(s[i].0@),
{
    let t = s.remove(i);
    let k0 = s[i].0@;
    assert forall|a: int| 0 <= a < t.len() implies (#[trigger] t[a]) == s[if a < i {
        a
    } else {
        a + 1
    }] by {}
    assert(keys_unique(t)) by {
        assert forall|a: int, b: int|
            0 <= a < t.len() && 0 <= b < t.len() && a != b implies (#[trigger] t[a]).0@ != (
            #[trigger] t[b]).0@ by {
            let a2 = if a < i {
                a
            } else {
                a + 1
            };
            let b2 = if b < i {
                b
            } else {
                b + 1
            };
            assert(t[a] == s[a2] && t[b] == s[b2]);
        }
    }
    assert forall|k: Seq<char>| #[trigger]
        entries_map(t).contains_key(k) == entries_map(s).remove(k0).contains_key(k) by {
        if has_key(t, k) {
            let a = choose|a: int| 0 <= a < t.len() && (#[trigger] t[a]).0@ == k;
            let a2 = if a < i {
                a
            } else {
                a + 1
            };
            assert(t[a] == s[a2]);
            assert(has_key(s, k));
        }
        if has_key(s, k) && k != k0 {
            let a = choose|a: int| 0 <= a < s.len() && (#[trigger] s[a]).0@ == k;
            assert(a != i);
            let a2 = if a < i {
                a
            } else {
                a - 1
            };
            assert(t[a2] == s[a]);
        }
    }
    assert forall|k: Seq<char>| entries_map(t).contains_key(k) implies entries_map(t)[k]
        == entries_map(s).remove(k0)[k] by {
        let a = choose|a: int| 0 <= a < t.len() && (#[trigger] t[a]).0@ == k;
        lemma_entry(t, a);
        let a2 = if a < i {
            a
        } else {
            a + 1
        };
        assert(t[a] == s[a2]);
        lemma_entry(s, a2);
    }
    assert(entries_map(t) =~= entries_map(s).remove(k0));
}

impl StrMap {
    #[verifier::type_invariant]
    spec fn inv(&self) -> bool {
        keys_unique(self.entries@)
    }

    /// The empty map.
    pub fn new() -> (r: StrMap)
        ensures
            r@ == Map::<Seq<char>, Seq<char>>::empty(),
    {
        let r = StrMap { entries: Vec::new() };
        assert(entries_map(r.entries@) =~= Map::<Seq<char>, Seq<char>>::empty());
        r
    }

    /// The position of `key`'s entry.
    fn find(&self, key: &str) -> (r: Option<usize>)
        ensures
            match r {
                Some(i) => i < self.entries@.len() && self.entries@[i as int].0@ == key@,
                None => forall|i: int|
                    0 <= i < self.entries@.len() ==> (#[trigger] self.entries@[i]).0@ != key@,
            },
    {
        let mut i: usize = 0;
        while i < self.entries.len()
            invariant
                i <= self.entries@.len(),
                forall|k: int| 0 <= k < i ==> (#[trigger] self.entries@[k]).0@ != key@,
            decreases self.entries@.len() - i,
        {
            if str_eq(self.entries[i].0.as_str(), key) {
                return Some(i);
            }
            i = i + 1;
        }
        None
    }

    /// The value of `key`, if present.
    pub fn get(&self, key: &str) -> (r: Option<&String>)
        ensures
            match r {
                Some(v) => self@.contains_key(key@) && self@[key@] == v@,
                None => !self@.contains_key(key@),
            },
    {
        proof {
            use_type_invariant(self);
        }
        match self.find(key) {
            Some(i) => {
                proof {
                    lemma_entry(self.entries@, i as int);
                }
                Some(&self.entries[i].1)
            },
            None => None,
        }
    }

    /// Whether `key` is present.
    pub fn contains_key(&self, key: &str) -> (r: bool)
        ensures
            r == self@.contains_key(key@),
    {
        self.get(key).is_some()
    }

    /// Whether the map is empty.
    pub fn is_empty(&self) -> (r: bool)
        ensures
            r == (self@ == Map::<Seq<char>, Seq<char>>::empty()),
    {
        proof {
            use_type_invariant(self);
        }
        if self.entries.len() == 0 {
            assert(self@ =~= Map::<Seq<char>, Seq<char>>::empty());
            true
        } else {
            proof {
                lemma_entry(self.entries@, 0);
                assert(!Map::<Seq<char>, Seq<char>>::empty().contains_key(
                    self.entries@[0].0@,
                ));
            }
            false
        }
    }

    /// Set `key` to `value`, returning the value it replaced.
    pub fn insert(&mut self, key: String, value: String) -> (r: Option<String>)
        ensures
            final(self)@ == old(self)@.insert(key@, value@),
            match r {
                Some(p) => old(self)@.contains_key(key@) && old(self)@[key@] == p@,
                None => !old(self)@.contains_key(key@),
            },
    {
        proof {
            use_type_invariant(&*self);
        }
        match self.find(key.as_str()) {
            Some(i) => {
                proof {
                    lemma_entry(self.entries@, i as int);
                    lemma_update(self.entries@, i as int, (key, value));
                }
                let mut entries: Vec<(String, String)> = Vec::new();
                std::mem::swap(&mut entries, &mut self.entries);
                let previous = entries[i].1.clone();
                entries.set(i, (key, value));
                self.entries = entries;
                Some(previous)
            },
            None => {
                proof {
                    lemma_absent(self.entries@, key@);
                    lemma_push(self.entries@, (key, value));
                }
                let mut entries: Vec<(String, String)> = Vec::new();
                std::mem::swap(&mut entries, &mut self.entries);
                entries.push((key, value));
                self.entries = entries;
                None
            },
        }
    }

    /// Remove `key`, returning its value.
    pub fn remove(&mut self, key: &str) -> (r: Option<String>)
        ensures
            final(self)@ == old(self)@.remove(key@),
            match r {
                Some(p) => old(self)@.contains_key(key@) && old(self)@[key@] == p@,
                None => !old(self)@.contains_key(key@),
            },
    {
        proof {
            use_type_invariant(&*self);
        }
        match self.find(key) {
            Some(i) => {
                proof {
                    lemma_entry(self.entries@, i as int);
                    lemma_remove(self.entries@, i as int);
                }
                let mut entries: Vec<(String, String)> = Vec::new();
                std::mem::swap(&mut entries, &mut self.entries);
                let previous = entries.remove(i);
                self.entries = entries;
                Some(previous.1)
            },
            None => {
                proof {
                    lemma_absent(self.entries@, key@);
                    assert(entries_map(self.entries@) =~= entries_map(self.entries@).remove(
                        key@,
                    ));
                }
                None
            },
        }
    }

    /// The entries, one per key.
    pub fn to_pairs(&self) -> (r: Vec<(String, String)>)
        ensures
            keys_unique(r@),
            entries_map(r@) == self@,
    {
        proof {
            use_type_invariant(self);
        }
        let mut out: Vec<(String, String)> = Vec::new();
        let mut i: usize = 0;
        while i < self.entries.len()
            invariant
                i <= self.entries@.len(),
                keys_unique(self.entries@),
                out@.len() == i,
                forall|k: int|
                    0 <= k < i ==> (#[trigger] out@[k]).0@ == self.entries@[k].0@ && out@[k].1@
                        == self.entries@[k].1@,
            decreases self.entries@.len() - i,
        {
            out.push((self.entries[i].0.clone(), self.entries[i].1.clone()));
            i = i + 1;
        }
        proof {
            let s = self.entries@;
            assert(keys_unique(out@)) by {
                assert forall|a: int, b: int|
                    0 <= a < out@.len() && 0 <= b < out@.len() && a != b implies (
                    #[trigger] out@[a]).0@ != (#[trigger] out@[b]).0@ by {
                    assert(s[a].0@ != s[b].0@);
                }
            }
            assert forall|k: Seq<char>| #[trigger]
                entries_map(out@).contains_key(k) == entries_map(s).contains_key(k) by {
                if has_key(s, k) {
                    let a = choose|a: int| 0 <= a < s.len() && (#[trigger] s[a]).0@ == k;
                    assert(out@[a].0@ == k);
                }
                if has_key(out@, k) {
                    let a = choose|a: int| 0 <= a < out@.len() && (#[trigger] out@[a]).0@ == k;
                    assert(s[a].0@ == k);
                }
            }
            assert forall|k: Seq<char>| entries_map(out@).contains_key(k) implies entries_map(
                out@,
            )[k] == entries_map(s)[k] by {
                let a = choose|a: int| 0 <= a < out@.len() && (#[trigger] out@[a]).0@ == k;
                lemma_entry(out@, a);
                lemma_entry(s, a);
            }
            assert(entries_map(out@) =~= entries_map(s));
        }
        out
    }

    /// The map holding `pairs`; where a key repeats, the later value wins.
    pub fn from_pairs(pairs: Vec<(String, String)>) -> (r: StrMap)
        ensures
            keys_unique(pairs@) ==> r@ == entries_map(pairs@),
    {
        let mut m = StrMap::new();
        let mut i: usize = 0;
        while i < pairs.len()
            invariant
                i <= pairs@.len(),
                keys_unique(pairs@) ==> m@ == entries_map(pairs@.take(i as int)),
            decreases pairs@.len() - i,
        {
            let (k, v) = (pairs[i].0.clone(), pairs[i].1.clone());
            proof {
                if keys_unique(pairs@) {
                    lemma_prefix_step(pairs@, i as int);
                }
            }
            m.insert(k, v);
            i = i + 1;
        }
        proof {
            assert(pairs@.take(pairs@.len() as int) =~= pairs@);
        }
        m
    }

    /// Adds every entry of `other` whose key this map lacks; existing entries are kept.
    pub fn fill_missing_from(&mut self, other: &StrMap)
        ensures
            final(self)@ == other@.union_prefer_right(old(self)@),
    {
        proof {
            use_type_invariant(other);
        }
        let ghost start = self@;
        let mut i: usize = 0;
        assert(entries_map(other.entries@.take(0)) =~= Map::<Seq<char>, Seq<char>>::empty());
        assert(Map::<Seq<char>, Seq<char>>::empty().union_prefer_right(start) =~= start);
        while i < other.entries.len()
            invariant
                i <= other.entries@.len(),
                keys_unique(other.entries@),
                self@ == entries_map(other.entries@.take(i as int)).union_prefer_right(start),
            decreases other.entries@.len() - i,
        {
            let key = &other.entries[i].0;
            proof {
                lemma_prefix_step(other.entries@, i as int);
            }
            let ghost before = entries_map(other.entries@.take(i as int));
            let ghost after = entries_map(other.entries@.take(i + 1));
            if !self.contains_key(key.as_str()) {
                self.insert(key.clone(), other.entries[i].1.clone());
                assert(self@ =~= after.union_prefer_right(start));
            } else {
                assert(self@ =~= after.union_prefer_right(start)) by {
                    if !start.contains_key(key@) {
                        assert(before.contains_key(key@));
                        let a = choose|a: int|
                            0 <= a < i && (#[trigger] other.entries@.take(i as int)[a]).0@
                                == key@;
                        assert(other.entries@[a].0@ == key@);
                    }
                }
            }
            i = i + 1;
        }
        proof {
            assert(other.entries@.take(other.entries@.len() as int) =~= other.entries@);
        }
    }
}

/// The map of a unique list's first `i + 1` entries.
proof fn lemma_prefix_step(s: Seq<(String, String)>, i: int)
    requires
        keys_unique(s),
        0 <= i < s.len(),
    ensures
        keys_unique(s.take(i)),
        !has_key(s.take(i), s[i].0@),
        entries_map(s.take(i + 1)) == entries_map(s.take(i)).insert(s[i].0@, s[i].1@),
{
    let p = s.take(i);
    assert(keys_unique(p)) by {
        assert forall|a: int, b: int|
            0 <= a < p.len() && 0 <= b < p.len() && a != b implies (#[trigger] p[a]).0@ != (
            #[trigger] p[b]).0@ by {
            assert(p[a] == s[a] && p[b] == s[b]);
        }
    }
    assert(!has_key(p, s[i].0@)) by {
        if has_key(p, s[i].0@) {
            let a = choose|a: int| 0 <= a < p.len() && (#[trigger] p[a]).0@ == s[i].0@;
            assert(p[a] == s[a]);
        }
    }
    lemma_push(p, s[i]);
    assert(p.push(s[i]) =~= s.take(i + 1));
}

} // verus!
