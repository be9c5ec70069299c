use vstd::prelude::*;
use vstd::std_specs::cmp::PartialEqSpec;

verus! {

/// What the entries stand for: each name mapped to the value of the last
/// entry that carries it.
spec fn entries_map<V>(entries: Seq<(String, V)>) -> Map<Seq<char>, V>
    decreases entries.len(),
{
    if entries.len() == 0 {
        Map::empty()
    } else {
        entries_map(entries.drop_last()).insert(entries.last().0@, entries.last().1)
    }
}

/// No two entries carry the same name.
spec fn distinct_names<V>(entries: Seq<(String, V)>) -> bool {
    forall|i: int, j: int|
        0 <= i < j < entries.len() ==> (#[trigger] entries[i]).0@ != (#[trigger] entries[j]).0@
}

/// Whether some entry carries the name `name`.
spec fn has_name<V>(entries: Seq<(String, V)>, name: Seq<char>) -> bool {
    exists|i: int| 0 <= i < entries.len() && (#[trigger] entries[i]).0@ == name
}

proof fn lemma_distinct_front<V>(entries: Seq<(String, V)>)
    requires
        distinct_names(entries),
        entries.len() > 0,
    ensures
        distinct_names(entries.drop_last()),
{
    let front = entries.drop_last();
    assert forall|a: int, b: int| 0 <= a < b < front.len() implies (#[trigger] front[a]).0@ != (
    #[trigger] front[b]).0@ by {
        assert(entries[a].0@ != entries[b].0@);
    }
}

/// The names of the map are the names that the entries carry.
proof fn lemma_entries_map_dom<V>(entries: Seq<(String, V)>, name: Seq<char>)
    ensures
        entries_map(entries).dom().contains(name) <==> has_name(entries, name),
    decreases entries.len(),
{
    if entries.len() > 0 {
        let front = entries.drop_last();
        lemma_entries_map_dom(front, name);
        if has_name(front, name) {
            let i = choose|i: int| 0 <= i < front.len() && (#[trigger] front[i]).0@ == name;
            assert(entries[i].0@ == name);
        }
        if has_name(entries, name) {
            let i = choose|i: int| 0 <= i < entries.len() && (#[trigger] entries[i]).0@ == name;
            if i < front.len() {
                assert(front[i].0@ == name);
            }
        }
    }
}

/// Each entry's name is mapped to that entry's value.
proof fn lemma_entries_map_value<V>(entries: Seq<(String, V)>, i: int)
    requires
        distinct_names(entries),
        0 <= i < entries.len(),
    ensures
        entries_map(entries).dom().contains(entries[i].0@),
        entries_map(entries)[entries[i].0@] == entries[i].1,
    decreases entries.len(),
{
    let front = entries.drop_last();
    if i < front.len() {
        lemma_distinct_front(entries);
        lemma_entries_map_value(front, i);
        assert(front[i] == entries[i]);
        assert(entries[i].0@ != entries[entries.len() - 1].0@);
    }
}

/// The map has as many names as there are entries.
proof fn lemma_entries_map_len<V>(entries: Seq<(String, V)>)
    requires
        distinct_names(entries),
    ensures
        entries_map(entries).dom().finite(),
        entries_map(entries).dom().len() == entries.len(),
    decreases entries.len(),
{
    if entries.len() > 0 {
        let front = entries.drop_last();
        lemma_distinct_front(entries);
        lemma_entries_map_len(front);
        let last = entries.last().0@;
        lemma_entries_map_dom(front, last);
        if has_name(front, last) {
            let i = choose|i: int| 0 <= i < front.len() && (#[trigger] front[i]).0@ == last;
            assert(entries[i].0@ != entries[entries.len() - 1].0@);
        }
        assert(entries_map(entries).dom() =~= entries_map(front).dom().insert(last));
    }
}

/// Giving an entry a new value, under its own name, binds that name to the
/// new value and leaves the rest of the map as it is.
proof fn lemma_entries_map_replace<V>(entries: Seq<(String, V)>, i: int, name: String, value: V)
    requires
        distinct_names(entries),
        0 <= i < entries.len(),
        entries[i].0@ == name@,
    ensures
        distinct_names(entries.update(i, (name, value))),
        entries_map(entries.update(i, (name, value))) == entries_map(entries).insert(name@, value),
    decreases entries.len(),
{
    let updated = entries.update(i, (name, value));
    assert(distinct_names(updated)) by {
        assert forall|a: int, b: int| 0 <= a < b < updated.len() implies (#[trigger] updated[a]).0@
            != (#[trigger] updated[b]).0@ by {
            assert(entries[a].0@ != entries[b].0@);
        }
    }
    let front = entries.drop_last();
    if i == entries.len() - 1 {
        assert(updated.drop_last() =~= front);
        assert(entries_map(updated) =~= entries_map(entries).insert(name@, value));
    } else {
        lemma_distinct_front(entries);
        assert(front[i] == entries[i]);
        lemma_entries_map_replace(front, i, name, value);
        assert(updated.drop_last() =~= front.update(i, (name, value)));
        assert(updated.last() == entries.last());
        assert(entries[i].0@ != entries[entries.len() - 1].0@);
        assert(entries_map(updated) =~= entries_map(entries).insert(name@, value));
    }
}

/// A map from names to values that keeps its entries in the order in which
/// their names were first inserted.
#[derive(Debug)]
pub struct NameMap<V> {
    entries: Vec<(String, V)>,
}

impl<V> View for NameMap<V> {
    type V = Map<Seq<char>, V>;

    closed spec fn view(&self) -> Map<Seq<char>, V> {
        entries_map(self.entries@)
    }
}

impl<V> NameMap<V> {
    #[verifier::type_invariant]
    spec fn well_formed(&self) -> bool {
        distinct_names(self.entries@)
    }

    /// The names in the order of their first insertion.
    pub closed spec fn names(&self) -> Seq<Seq<char>> {
        self.entries@.map_values(|e: (String, V)| e.0@)
    }

    /// A map without entries.
    pub fn new() -> (map: Self)
        ensures
            map@ == Map::<Seq<char>, V>::empty(),
            map.names() == Seq::<Seq<char>>::empty(),
    {
        let map = NameMap { entries: Vec::new() };
        assert(map.names() =~= Seq::<Seq<char>>::empty());
        map
    }

    /// The number of names. Each name is listed once in `names`, and the
    /// names listed there are the names of the map.
    pub fn len(&self) -> (n: usize)
        ensures
            n == self@.len(),
            n == self.names().len(),
            self@.dom().finite(),
            self.names().no_duplicates(),
            forall|name: Seq<char>| self@.contains_key(name) <==> self.names().contains(name),
    {
        proof {
            use_type_invariant(self);
            lemma_entries_map_len(self.entries@);
            assert forall|name: Seq<char>| self@.contains_key(name) <==> self.names().contains(
                name,
            ) by {
                lemma_entries_map_dom(self.entries@, name);
                if has_name(self.entries@, name) {
                    let i = choose|i: int|
                        0 <= i < self.entries@.len() && (#[trigger] self.entries@[i]).0@ == name;
                    assert(self.names()[i] == name);
                }
                if self.names().contains(name) {
                    let i = choose|i: int| 0 <= i < self.names().len() && self.names()[i] == name;
                    assert(self.entries@[i].0@ == name);
                }
            }
            assert forall|i: int, j: int|
                0 <= i < self.names().len() && 0 <= j < self.names().len() && i != j implies self.names()[i]
                != self.names()[j] by {
                if i < j {
                    assert(self.entries@[i].0@ != self.entries@[j].0@);
                } else {
                    assert(self.entries@[j].0@ != self.entries@[i].0@);
                }
            }
        }
        self.entries.len()
    }

    fn position(&self, name: &str) -> (found: Option<usize>)
        ensures
            match found {
                Some(i) => i < self.entries.len() && self.entries[i as int].0@ == name@,
                None => !has_name(self.entries@, name@),
            },
    {
        let mut i: usize = 0;
        while i < self.entries.len()
            invariant
                i <= self.entries.len(),
                forall|j: int| 0 <= j < i ==> (#[trigger] self.entries[j]).0@ != name@,
            decreases self.entries.len() - i,
        {
            if self.entries[i].0.as_str().eq(name) {
                return Some(i);
            }
            i += 1;
        }
        None
    }

    /// Whether the map has the name `name`.
    pub fn contains_key(&self, name: &str) -> (found: bool)
        ensures
            found == self@.contains_key(name@),
    {
        proof {
            lemma_entries_map_dom(self.entries@, name@);
        }
        self.position(name).is_some()
    }

    /// The value under `name`, or `None` when the map has no such name.
    pub fn get(&self, name: &str) -> (found: Option<&V>)
        ensures
            match found {
                Some(value) => self@.contains_key(name@) && *value == self@[name@],
                None => !self@.contains_key(name@),
            },
    {
        proof {
            use_type_invariant(self);
            lemma_entries_map_dom(self.entries@, name@);
        }
        match self.position(name) {
            Some(i) => {
                proof {
                    lemma_entries_map_value(self.entries@, i as int);
                }
                Some(&self.entries[i].1)
            },
            None => None,
        }
    }

    /// Binds `name` to `value`. A name that is already present keeps its
    /// place in the order and gets the new value.
    pub fn insert(&mut self, name: String, value: V)
        ensures
            final(self)@ == old(self)@.insert(name@, value),
            final(self).names() == if old(self)@.contains_key(name@) {
                old(self).names()
            } else {
                old(self).names().push(name@)
            },
    {
        proof {
            use_type_invariant(&*self);
            lemma_entries_map_dom(self.entries@, name@);
        }
        let ghost before = self.entries@;
        match self.position(name.as_str()) {
            Some(i) => {
                proof {
                    lemma_entries_map_replace(before, i as int, name, value);
                }
                let mut entries: Vec<(String, V)> = Vec::new();
                core::mem::swap(&mut self.entries, &mut entries);
                entries[i] = (name, value);
                assert(entries@ =~= before.update(i as int, (name, value)));
                self.entries = entries;
                assert(self.names() =~= old(self).names());
            },
            None => {
                let mut entries: Vec<(String, V)> = Vec::new();
                core::mem::swap(&mut self.entries, &mut entries);
                entries.push((name, value));
                assert(entries@.drop_last() =~= before);
                assert(distinct_names(entries@)) by {
                    assert forall|a: int, b: int| 0 <= a < b < entries@.len() implies (
                    #[trigger] entries@[a]).0@ != (#[trigger] entries@[b]).0@ by {
                        if b < before.len() {
                            assert(before[a].0@ != before[b].0@);
                        } else {
                            assert(before[a].0@ != name@);
                        }
                    }
                }
                self.entries = entries;
                assert(self.names() =~= old(self).names().push(name@));
            },
        }
    }

    /// The name of the entry at `position` in the order of first insertion.
    pub fn name_at(&self, position: usize) -> (name: &str)
        requires
            position < self.names().len(),
        ensures
            name@ == self.names()[position as int],
            self@.contains_key(name@),
    {
        proof {
            use_type_invariant(self);
            lemma_entries_map_value(self.entries@, position as int);
        }
        self.entries[position].0.as_str()
    }

    /// The value of the entry at `position` in the order of first insertion.
    pub fn value_at(&self, position: usize) -> (value: &V)
        requires
            position < self.names().len(),
        ensures
            self@.contains_key(self.names()[position as int]),
            *value == self@[self.names()[position as int]],
    {
        proof {
            use_type_invariant(self);
            lemma_entries_map_value(self.entries@, position as int);
        }
        &self.entries[position].1
    }
}

impl<V> Default for NameMap<V> {
    fn default() -> (map: Self)
        ensures
            map@ == Map::<Seq<char>, V>::empty(),
            map.names() == Seq::<Seq<char>>::empty(),
    {
        NameMap::new()
    }
}

impl<V: Clone> Clone for NameMap<V> {
    fn clone(&self) -> (copy: Self)
        ensures
            copy.names() == self.names(),
            copy@.dom() == self@.dom(),
            forall|name: Seq<char>| #[trigger]
                self@.contains_key(name) ==> cloned(self@[name], copy@[name]),
    {
        proof {
            use_type_invariant(self);
        }
        let mut entries: Vec<(String, V)> = Vec::new();
        let mut i: usize = 0;
        while i < self.entries.len()
            invariant
                i <= self.entries.len(),
                entries.len() == i,
                forall|j: int| 0 <= j < i ==> (#[trigger] entries[j]).0@ == self.entries[j].0@,
                forall|j: int| 0 <= j < i ==> cloned(self.entries[j].1, (#[trigger] entries[j]).1),
            decreases self.entries.len() - i,
        {
            let name = self.entries[i].0.clone();
            let value = self.entries[i].1.clone();
            entries.push((name, value));
            i += 1;
        }
        assert(distinct_names(entries@)) by {
            assert forall|a: int, b: int| 0 <= a < b < entries@.len() implies (#[trigger] entries@[a]).0@
                != (#[trigger] entries@[b]).0@ by {
                assert(self.entries@[a].0@ != self.entries@[b].0@);
            }
        }
        let copy = NameMap { entries };
        proof {
            assert(copy.names() =~= self.names());
            assert forall|name: Seq<char>| copy@.contains_key(name) == self@.contains_key(
                name,
            ) by {
                lemma_entries_map_dom(copy.entries@, name);
                lemma_entries_map_dom(self.entries@, name);
                if has_name(self.entries@, name) {
                    let j = choose|j: int|
                        0 <= j < self.entries@.len() && (#[trigger] self.entries@[j]).0@ == name;
                    assert(copy.entries@[j].0@ == name);
                }
                if has_name(copy.entries@, name) {
                    let j = choose|j: int|
                        0 <= j < copy.entries@.len() && (#[trigger] copy.entries@[j]).0@ == name;
                    assert(self.entries@[j].0@ == name);
                }
            }
            assert(copy@.dom() =~= self@.dom());
            assert forall|name: Seq<char>| #[trigger] self@.contains_key(name) implies cloned(
                self@[name],
                copy@[name],
            ) by {
                lemma_entries_map_dom(self.entries@, name);
                let j = choose|j: int|
                    0 <= j < self.entries@.len() && (#[trigger] self.entries@[j]).0@ == name;
                lemma_entries_map_value(self.entries@, j);
                assert(copy.entries@[j].0@ == name);
                lemma_entries_map_value(copy.entries@, j);
            }
        }
        copy
    }
}

/// Two maps are equal when they hold the same names with equal values, in
/// whatever order.
impl<V: PartialEq> PartialEq for NameMap<V> {
    fn eq(&self, other: &NameMap<V>) -> (r: bool) {
        proof {
            use_type_invariant(self);
            use_type_invariant(other);
            lemma_entries_map_len(self.entries@);
            lemma_entries_map_len(other.entries@);
        }
        if self.entries.len() != other.entries.len() {
            return false;
        }
        let mut i: usize = 0;
        while i < self.entries.len()
            invariant
                i <= self.entries.len(),
                distinct_names(self.entries@),
                distinct_names(other.entries@),
                forall|j: int|
                    0 <= j < i ==> other@.contains_key((#[trigger] self.entries[j]).0@) && (
                    V::obeys_eq_spec() ==> self.entries[j].1.eq_spec(&other@[self.entries[j].0@])),
            decreases self.entries.len() - i,
        {
            proof {
                lemma_entries_map_dom(other.entries@, self.entries[i as int].0@);
                lemma_entries_map_value(self.entries@, i as int);
            }
            match other.position(self.entries[i].0.as_str()) {
                None => {
                    return false;
                },
                Some(j) => {
                    proof {
                        lemma_entries_map_value(other.entries@, j as int);
                    }
                    if !(self.entries[i].1 == other.entries[j].1) {
                        return false;
                    }
                },
            }
            i += 1;
        }
        proof {
            assert forall|name: Seq<char>| self@.contains_key(name) implies other@.contains_key(
                name,
            ) && (V::obeys_eq_spec() ==> self@[name].eq_spec(&other@[name])) by {
                lemma_entries_map_dom(self.entries@, name);
                let j = choose|j: int|
                    0 <= j < self.entries@.len() && (#[trigger] self.entries@[j]).0@ == name;
                lemma_entries_map_value(self.entries@, j);
            }
            assert(self@.dom().subset_of(other@.dom()));
            vstd::set_lib::lemma_subset_equality(self@.dom(), other@.dom());
        }
        true
    }
}

impl<V: PartialEq> vstd::std_specs::cmp::PartialEqSpecImpl for NameMap<V> {
    open spec fn obeys_eq_spec() -> bool {
        V::obeys_eq_spec()
    }

    open spec fn eq_spec(&self, other: &NameMap<V>) -> bool {
        &&& self@.dom() == other@.dom()
        &&& forall|name: Seq<char>| #[trigger]
            self@.contains_key(name) ==> self@[name].eq_spec(&other@[name])
    }
}

impl<'a, V> core::ops::Index<&'a str> for NameMap<V> {
    type Output = V;

    fn index(&self, name: &'a str) -> (value: &V)
        ensures
            *value == self@[name@],
    {
        proof {
            use_type_invariant(self);
            lemma_entries_map_dom(self.entries@, name@);
        }
        let found = self.position(name);
        assert(found is Some);
        let i: usize = found.unwrap();
        proof {
            lemma_entries_map_value(self.entries@, i as int);
        }
        &self.entries[i].1
    }
}

impl<'a, V> vstd::std_specs::core::IndexSpecImpl<&'a str> for NameMap<V> {
    open spec fn index_req(&self, name: &&'a str) -> bool {
        self@.contains_key(name@)
    }
}

} // verus!
