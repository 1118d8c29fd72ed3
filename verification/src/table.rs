//! A table of devices keyed by their device node path.

use vstd::prelude::*;
use crate::names::str_eq;

verus! {

/// Whether no two entries have the same path.
pub open spec fn keys_distinct<V>(s: Seq<(String, V)>) -> bool {
    forall|i: int, j: int|
        0 <= i < s.len() && 0 <= j < s.len() && i != j ==> #[trigger] s[i].0@ != #[trigger] s[j].0@
}

/// The map from paths to values that a list of entries stands for.
pub open spec fn entries_map<V>(s: Seq<(String, V)>) -> Map<Seq<char>, V>
    decreases s.len(),
{
    if s.len() == 0 {
        Map::empty()
    } else {
        entries_map(s.drop_last()).insert(s.last().0@, s.last().1)
    }
}

proof fn lemma_contains<V>(s: Seq<(String, V)>, k: Seq<char>)
    ensures
        entries_map(s).dom().contains(k) <==> exists|i: int| 0 <= i < s.len() && #[trigger] s[i].0@
            == k,
    decreases s.len(),
{
    if s.len() > 0 {
        lemma_contains(s.drop_last(), k);
        if exists|i: int| 0 <= i < s.len() && #[trigger] s[i].0@ == k {
            let i = choose|i: int| 0 <= i < s.len() && #[trigger] s[i].0@ == k;
            if i < s.len() - 1 {
                assert(s.drop_last()[i].0@ == k);
            }
        }
        if exists|i: int| 0 <= i < s.drop_last().len() && #[trigger] s.drop_last()[i].0@ == k {
            let i = choose|i: int| 0 <= i < s.drop_last().len() && #[trigger] s.drop_last()[i].0@ == k;
            assert(s[i].0@ == k);
        }
    }
}

proof fn lemma_value<V>(s: Seq<(String, V)>, i: int)
    requires
        keys_distinct(s),
        0 <= i < s.len(),
    ensures
        entries_map(s).dom().contains(s[i].0@),
        entries_map(s)[s[i].0@] == s[i].1,
    decreases s.len(),
{
    if i < s.len() - 1 {
        let t = s.drop_last();
        assert(t[i] == s[i]);
        assert(s[i].0@ != s[s.len() - 1].0@);
        lemma_value(t, i);
    }
}

proof fn lemma_update<V>(s: Seq<(String, V)>, i: int, v: V)
    requires
        keys_distinct(s),
        0 <= i < s.len(),
    ensures
        keys_distinct(s.update(i, (s[i].0, v))),
        entries_map(s.update(i, (s[i].0, v))) == entries_map(s).insert(s[i].0@, v),
    decreases s.len(),
{
    let u = s.update(i, (s[i].0, v));
    assert(keys_distinct(u)) by {
        assert forall|a: int, b: int| 0 <= a < u.len() && 0 <= b < u.len() && a != b implies #[trigger] u[a].0@
            != #[trigger] u[b].0@ by {
            assert(u[a].0 == s[a].0);
            assert(u[b].0 == s[b].0);
        }
    }
    if i == s.len() - 1 {
        assert(u.drop_last() =~= s.drop_last());
        assert(entries_map(u) =~= entries_map(s).insert(s[i].0@, v));
    } else {
        let t = s.drop_last();
        assert(t[i] == s[i]);
        lemma_update(t, i, v);
        assert(u.drop_last() =~= t.update(i, (t[i].0, v)));
        assert(s[i].0@ != s[s.len() - 1].0@);
        assert(entries_map(u) =~= entries_map(s).insert(s[i].0@, v));
    }
}

proof fn lemma_remove<V>(s: Seq<(String, V)>, i: int)
    requires
        keys_distinct(s),
        0 <= i < s.len(),
    ensures
        keys_distinct(s.remove(i)),
        entries_map(s.remove(i)) == entries_map(s).remove(s[i].0@),
    decreases s.len(),
{
    let r = s.remove(i);
    assert(keys_distinct(r)) by {
        assert forall|a: int, b: int| 0 <= a < r.len() && 0 <= b < r.len() && a != b implies #[trigger] r[a].0@
            != #[trigger] r[b].0@ by {
            let a2 = if a < i { a } else { a + 1 };
            let b2 = if b < i { b } else { b + 1 };
            assert(r[a] == s[a2]);
            assert(r[b] == s[b2]);
        }
    }
    let t = s.drop_last();
    if i == s.len() - 1 {
        assert(r =~= t);
        lemma_contains(t, s[i].0@);
        assert forall|j: int| 0 <= j < t.len() implies #[trigger] t[j].0@ != s[i].0@ by {
            assert(t[j] == s[j]);
        }
        assert(entries_map(r) =~= entries_map(s).remove(s[i].0@));
    } else {
        assert(t[i] == s[i]);
        assert(keys_distinct(t));
        lemma_remove(t, i);
        assert(r.drop_last() =~= t.remove(i));
        assert(r.last() == s.last());
        assert(s[i].0@ != s[s.len() - 1].0@);
        assert(entries_map(r) =~= entries_map(s).remove(s[i].0@));
    }
}

/// Devices keyed by the path of their device node, each path at most once.
pub struct DeviceTable<V> {
    entries: Vec<(String, V)>,
}

impl<V> View for DeviceTable<V> {
    type V = Map<Seq<char>, V>;

    closed spec fn view(&self) -> Map<Seq<char>, V> {
        entries_map(self.entries@)
    }
}

impl<V> DeviceTable<V> {
    #[verifier::type_invariant]
    closed spec fn inv(&self) -> bool {
        keys_distinct(self.entries@)
    }

    /// An empty table.
    pub fn new() -> (t: Self)
        ensures
            t@ == Map::<Seq<char>, V>::empty(),
    {
        DeviceTable { entries: Vec::new() }
    }

    /// The position of the entry for `path`, if there is one.
    fn find(&self, path: &str) -> (r: Option<usize>)
        ensures
            match r {
                Some(i) => i < self.entries@.len() && self.entries@[i as int].0@ == path@,
                None => forall|j: int|
                    0 <= j < self.entries@.len() ==> #[trigger] self.entries@[j].0@ != path@,
            },
    {
        let mut i: usize = 0;
        while i < self.entries.len()
            invariant
                i <= self.entries@.len(),
                forall|j: int| 0 <= j < i ==> #[trigger] self.entries@[j].0@ != path@,
            decreases self.entries@.len() - i,
        {
            if str_eq(self.entries[i].0.as_str(), path) {
                return Some(i);
            }
            i = i + 1;
        }
        None
    }

    /// Whether the table holds a device for `path`.
    pub fn contains_key(&self, path: &str) -> (r: bool)
        ensures
            r == self@.dom().contains(path@),
    {
        proof {
            lemma_contains(self.entries@, path@);
        }
        self.find(path).is_some()
    }

    /// Stores `value` for `path`. The value that was stored for `path`
    /// before comes back; the path itself stays as it was stored first.
    pub fn insert(&mut self, path: String, value: V) -> (prev: Option<V>)
        ensures
            final(self)@ == old(self)@.insert(path@, value),
            prev == if old(self)@.dom().contains(path@) {
                Some(old(self)@[path@])
            } else {
                None::<V>
            },
    {
        proof {
            use_type_invariant(&*self);
            lemma_contains(self.entries@, path@);
        }
        match self.find(path.as_str()) {
            Some(i) => {
                let ghost s = self.entries@;
                proof {
                    lemma_value(s, i as int);
                    lemma_update(s, i as int, value);
                }
                let mut entries = Vec::new();
                std::mem::swap(&mut entries, &mut self.entries);
                let (key, prev) = entries.remove(i);
                entries.insert(i, (key, value));
                assert(entries@ =~= s.update(i as int, (s[i as int].0, value)));
                self.entries = entries;
                Some(prev)
            },
            None => {
                let ghost s = self.entries@;
                let mut entries = Vec::new();
                std::mem::swap(&mut entries, &mut self.entries);
                entries.push((path, value));
                assert(entries@.drop_last() =~= s);
                assert(keys_distinct(entries@)) by {
                    assert forall|a: int, b: int|
                        0 <= a < entries@.len() && 0 <= b < entries@.len() && a != b implies #[trigger] entries@[a].0@
                        != #[trigger] entries@[b].0@ by {
                        if a < s.len() {
                            assert(entries@[a] == s[a]);
                        }
                        if b < s.len() {
                            assert(entries@[b] == s[b]);
                        }
                    }
                }
                self.entries = entries;
                None
            },
        }
    }

    /// Takes the device stored for `path` out of the table.
    pub fn remove(&mut self, path: &str) -> (r: Option<V>)
        ensures
            final(self)@ == old(self)@.remove(path@),
            r == if old(self)@.dom().contains(path@) {
                Some(old(self)@[path@])
            } else {
                None::<V>
            },
    {
        proof {
            use_type_invariant(&*self);
            lemma_contains(self.entries@, path@);
        }
        match self.find(path) {
            Some(i) => {
                let ghost s = self.entries@;
                proof {
                    lemma_value(s, i as int);
                    lemma_remove(s, i as int);
                }
                let mut entries = Vec::new();
                std::mem::swap(&mut entries, &mut self.entries);
                let (_key, value) = entries.remove(i);
                self.entries = entries;
                Some(value)
            },
            None => {
                assert(old(self)@.remove(path@) =~= old(self)@);
                None
            },
        }
    }
}

/// Taking out a device that was just stored gives it back and leaves the
/// table as it was before, when the path was not in use.
pub proof fn law_remove_undoes_insert<V>(devices: Map<Seq<char>, V>, path: Seq<char>, value: V)
    requires
        !devices.dom().contains(path),
    ensures
        devices.insert(path, value).dom().contains(path),
        devices.insert(path, value)[path] == value,
        devices.insert(path, value).remove(path) == devices,
{
    assert(devices.insert(path, value).remove(path) =~= devices);
}

/// Storing or taking out a device leaves the other paths as they were.
pub proof fn law_other_paths_untouched<V>(
    devices: Map<Seq<char>, V>,
    path: Seq<char>,
    other: Seq<char>,
    value: V,
)
    requires
        path != other,
    ensures
        devices.insert(path, value).dom().contains(other) == devices.dom().contains(other),
        devices.remove(path).dom().contains(other) == devices.dom().contains(other),
        devices.dom().contains(other) ==> devices.insert(path, value)[other] == devices[other]
            && devices.remove(path)[other] == devices[other],
{
}

} // verus!
