//! A map from names to values that keeps its entries in the order of names.

use crate::text::{comes_before, same_text, text_before};
use vstd::prelude::*;

verus! {

/// Entries in strictly increasing order of their names.
pub open spec fn in_name_order<V>(entries: Seq<(Seq<char>, V)>) -> bool {
    forall|i: int, j: int|
        0 <= i < j < entries.len() ==> text_before(#[trigger] entries[i].0, #[trigger] entries[j].0)
}

/// Whether an entry with this name stands at `i`.
pub open spec fn names_at<V>(entries: Seq<(Seq<char>, V)>, name: Seq<char>, i: int) -> bool {
    0 <= i < entries.len() && entries[i].0 == name
}

/// Whether some entry has this name.
pub open spec fn has_name<V>(entries: Seq<(Seq<char>, V)>, name: Seq<char>) -> bool {
    exists|i: int| names_at(entries, name, i)
}

/// The value of the entry with this name, if there is one.
pub open spec fn lookup<V>(entries: Seq<(Seq<char>, V)>, name: Seq<char>) -> Option<V> {
    if has_name(entries, name) {
        Some(entries[choose|i: int| names_at(entries, name, i)].1)
    } else {
        None
    }
}

/// The entries as a map.
pub open spec fn map_of<V>(entries: Seq<(Seq<char>, V)>) -> Map<Seq<char>, V> {
    Map::new(|name: Seq<char>| has_name(entries, name), |name: Seq<char>| lookup(entries, name)->0)
}

/// No text comes before itself.
pub proof fn lemma_order_irreflexive(a: Seq<char>)
    ensures
        !text_before(a, a),
    decreases a.len(),
{
    reveal(text_before);
    if a.len() > 0 {
        lemma_order_irreflexive(a.drop_first());
    }
}

/// The order of names is transitive.
pub proof fn lemma_order_transitive(a: Seq<char>, b: Seq<char>, c: Seq<char>)
    requires
        text_before(a, b),
        text_before(b, c),
    ensures
        text_before(a, c),
    decreases a.len(),
{
    reveal(text_before);
    if a.len() > 0 && b.len() > 0 && c.len() > 0 && a[0] == b[0] && b[0] == c[0] {
        lemma_order_transitive(a.drop_first(), b.drop_first(), c.drop_first());
    }
}

/// Of two different names one comes before the other.
pub proof fn lemma_order_total(a: Seq<char>, b: Seq<char>)
    ensures
        a == b || text_before(a, b) || text_before(b, a),
    decreases a.len(),
{
    reveal(text_before);
    if a.len() == 0 || b.len() == 0 {
        if a.len() == 0 && b.len() == 0 {
            assert(a =~= b);
        }
    } else if a[0] == b[0] {
        lemma_order_total(a.drop_first(), b.drop_first());
        if a.drop_first() == b.drop_first() {
            assert(a =~= seq![a[0]] + a.drop_first());
            assert(b =~= seq![b[0]] + b.drop_first());
        }
    }
}

/// In name order an entry is found by its name at one place only.
pub proof fn lemma_lookup_at<V>(entries: Seq<(Seq<char>, V)>, i: int)
    requires
        in_name_order(entries),
        0 <= i < entries.len(),
    ensures
        has_name(entries, entries[i].0),
        lookup(entries, entries[i].0) == Some(entries[i].1),
{
    let name = entries[i].0;
    assert(names_at(entries, name, i));
    let j = choose|j: int| names_at(entries, name, j);
    lemma_order_irreflexive(name);
    if i < j {
        assert(text_before(entries[i].0, entries[j].0));
    } else if j < i {
        assert(text_before(entries[j].0, entries[i].0));
    }
}

/// `entries` with `entry` at its place in the order of names.
spec fn with_entry<V>(entries: Seq<(Seq<char>, V)>, at: int, entry: (Seq<char>, V)) -> Seq<
    (Seq<char>, V),
> {
    if names_at(entries, entry.0, at) {
        entries.update(at, entry)
    } else {
        entries.insert(at, entry)
    }
}

/// Putting an entry at its place in the order keeps the order.
proof fn lemma_insert_order<V>(entries: Seq<(Seq<char>, V)>, at: int, entry: (Seq<char>, V))
    requires
        in_name_order(entries),
        0 <= at <= entries.len(),
        forall|j: int| 0 <= j < at ==> text_before(#[trigger] entries[j].0, entry.0),
        at < entries.len() ==> !text_before(entries[at].0, entry.0),
    ensures
        in_name_order(with_entry(entries, at, entry)),
{
    let after = with_entry(entries, at, entry);
    if !names_at(entries, entry.0, at) {
        if at < entries.len() {
            lemma_order_total(entries[at].0, entry.0);
        }
        assert forall|i: int, j: int| 0 <= i < j < after.len() implies text_before(
            #[trigger] after[i].0,
            #[trigger] after[j].0,
        ) by {
            if i == at {
                if j - 1 > at {
                    assert(text_before(entries[at].0, entries[j - 1].0));
                    lemma_order_transitive(entry.0, entries[at].0, entries[j - 1].0);
                }
            } else if j == at {
                assert(text_before(entries[i].0, entry.0));
            } else {
                let before_i = if i < at { i } else { i - 1 };
                let before_j = if j < at { j } else { j - 1 };
                assert(text_before(entries[before_i].0, entries[before_j].0));
            }
        }
    }
}

/// Putting an entry at its place in the order adds it to the map.
proof fn lemma_insert_map<V>(entries: Seq<(Seq<char>, V)>, at: int, entry: (Seq<char>, V))
    requires
        in_name_order(entries),
        0 <= at <= entries.len(),
        in_name_order(with_entry(entries, at, entry)),
    ensures
        map_of(with_entry(entries, at, entry)) == map_of(entries).insert(entry.0, entry.1),
{
    let after = with_entry(entries, at, entry);
    let present = names_at(entries, entry.0, at);
    let target = map_of(entries).insert(entry.0, entry.1);
    assert(names_at(after, entry.0, at));
    lemma_lookup_at(after, at);
    assert forall|name: Seq<char>| name != entry.0 implies #[trigger] lookup(after, name) == lookup(
        entries,
        name,
    ) by {
        if has_name(after, name) {
            let i = choose|i: int| names_at(after, name, i);
            let b = if present || i < at { i } else { i - 1 };
            assert(names_at(entries, name, b));
            lemma_lookup_at(after, i);
            lemma_lookup_at(entries, b);
        } else if has_name(entries, name) {
            let b = choose|i: int| names_at(entries, name, i);
            let i = if present || b < at { b } else { b + 1 };
            assert(names_at(after, name, i));
        }
    }
    assert forall|name: Seq<char>| #[trigger] map_of(after).contains_key(name)
        == target.contains_key(name) by {
        assert(lookup(after, name) is Some == has_name(after, name));
        assert(lookup(entries, name) is Some == has_name(entries, name));
    }
    assert forall|name: Seq<char>| #[trigger] map_of(after).contains_key(name) implies map_of(
        after,
    )[name] == target[name] by {
        assert(has_name(after, name));
        assert(lookup(after, name) is Some);
    }
    assert(map_of(after) =~= target);
}

/// As many names as entries go by the map.
pub proof fn lemma_map_size<V>(entries: Seq<(Seq<char>, V)>)
    requires
        in_name_order(entries),
    ensures
        map_of(entries).dom().finite(),
        map_of(entries).len() == entries.len(),
    decreases entries.len(),
{
    if entries.len() == 0 {
        assert(map_of(entries) =~= Map::empty());
    } else {
        let front = entries.drop_last();
        let last = entries.last();
        lemma_map_size(front);
        lemma_append(entries);
        if has_name(front, last.0) {
            let i = choose|i: int| names_at(front, last.0, i);
            lemma_order_irreflexive(last.0);
            assert(text_before(entries[i].0, entries[entries.len() - 1].0));
        }
    }
}

/// The last entry is what the map has beyond the entries before it.
proof fn lemma_append<V>(entries: Seq<(Seq<char>, V)>)
    requires
        in_name_order(entries),
        entries.len() > 0,
    ensures
        in_name_order(entries.drop_last()),
        map_of(entries) == map_of(entries.drop_last()).insert(entries.last().0, entries.last().1),
{
    let front = entries.drop_last();
    assert(with_entry(front, front.len() as int, entries.last()) =~= entries);
    lemma_insert_map(front, front.len() as int, entries.last());
}

/// A map from names to values. Its entries stand in the order of names.
#[derive(Debug, PartialEq, Eq)]
pub struct NameMap<V> {
    entries: Vec<(String, V)>,
}

impl<V> NameMap<V> {
    #[verifier::type_invariant]
    spec fn ordered(&self) -> bool {
        forall|i: int, j: int|
            0 <= i < j < self.entries@.len() ==> text_before(
                (#[trigger] self.entries@[i]).0@,
                (#[trigger] self.entries@[j]).0@,
            )
    }
}

impl<V: DeepView> NameMap<V> {
    /// The entries in the order of names.
    pub closed spec fn entries(&self) -> Seq<(Seq<char>, V::V)> {
        self.entries.deep_view()
    }
}

impl<V: DeepView> View for NameMap<V> {
    type V = Map<Seq<char>, V::V>;

    open spec fn view(&self) -> Map<Seq<char>, V::V> {
        map_of(self.entries())
    }
}

impl<V: DeepView> DeepView for NameMap<V> {
    type V = Map<Seq<char>, V::V>;

    open spec fn deep_view(&self) -> Map<Seq<char>, V::V> {
        self@
    }
}

impl<V: DeepView> NameMap<V> {
    /// A map without entries.
    pub fn new() -> (r: Self)
        ensures
            r.entries() == Seq::<(Seq<char>, V::V)>::empty(),
            r@ == Map::<Seq<char>, V::V>::empty(),
    {
        let r = NameMap { entries: Vec::new() };
        proof {
            assert(r.entries() =~= Seq::empty());
            assert(r@ =~= Map::empty());
        }
        r
    }

    /// The entries stand in the order of names.
    pub fn check_order(&self)
        ensures
            in_name_order(self.entries()),
    {
        proof {
            use_type_invariant(self);
        }
    }

    /// How many entries the map has.
    pub fn len(&self) -> (r: usize)
        ensures
            r == self.entries().len(),
            r == self@.len(),
    {
        proof {
            use_type_invariant(self);
            lemma_map_size(self.entries());
        }
        self.entries.len()
    }

    /// Whether the map has no entry.
    pub fn is_empty(&self) -> (r: bool)
        ensures
            r == (self.entries().len() == 0),
            r == (self@ == Map::<Seq<char>, V::V>::empty()),
    {
        proof {
            if self.entries().len() == 0 {
                assert(self@ =~= Map::empty());
            } else {
                assert(names_at(self.entries(), self.entries()[0].0, 0));
                assert(self@.contains_key(self.entries()[0].0));
            }
        }
        self.entries.len() == 0
    }

    /// The name of the entry at `i`.
    pub fn name_at(&self, i: usize) -> (r: &String)
        requires
            i < self.entries().len(),
        ensures
            r@ == self.entries()[i as int].0,
    {
        &self.entries[i].0
    }

    /// The value of the entry at `i`.
    pub fn value_at(&self, i: usize) -> (r: &V)
        requires
            i < self.entries().len(),
        ensures
            r.deep_view() == self.entries()[i as int].1,
    {
        &self.entries[i].1
    }

    /// The value that goes by `name`.
    pub fn get(&self, name: &str) -> (r: Option<&V>)
        ensures
            r.deep_view() == lookup(self.entries(), name@),
    {
        proof {
            use_type_invariant(self);
        }
        let mut i: usize = 0;
        while i < self.entries.len()
            invariant
                i <= self.entries@.len(),
                in_name_order(self.entries()),
                forall|j: int| 0 <= j < i ==> !names_at(self.entries(), name@, j),
            decreases self.entries@.len() - i,
        {
            if same_text(self.entries[i].0.as_str(), name) {
                proof {
                    lemma_lookup_at(self.entries(), i as int);
                }
                return Some(&self.entries[i].1);
            }
            i = i + 1;
        }
        None
    }

    /// Whether some entry goes by `name`.
    pub fn contains_name(&self, name: &str) -> (r: bool)
        ensures
            r == has_name(self.entries(), name@),
    {
        self.get(name).is_some()
    }

    /// Sets what goes by `name`, in place of what did so before.
    pub fn insert(&mut self, name: String, value: V)
        ensures
            final(self)@ == old(self)@.insert(name@, value.deep_view()),
    {
        proof {
            use_type_invariant(&*self);
        }
        let ghost before = self.entries();
        let mut entries: Vec<(String, V)> = Vec::new();
        std::mem::swap(&mut entries, &mut self.entries);
        let mut at: usize = 0;
        while at < entries.len() && comes_before(entries[at].0.as_str(), name.as_str())
            invariant
                entries.deep_view() == before,
                at <= entries@.len(),
                forall|j: int| 0 <= j < at ==> text_before(#[trigger] before[j].0, name@),
            decreases entries@.len() - at,
        {
            at = at + 1;
        }
        let present = at < entries.len() && entries[at].0 == name;
        let ghost inserted = (name@, value.deep_view());
        let ghost after = with_entry(before, at as int, inserted);
        if present {
            entries.set(at, (name, value));
        } else {
            entries.insert(at, (name, value));
        }
        proof {
            assert(entries.deep_view() =~= after);
            lemma_insert_order(before, at as int, inserted);
            lemma_insert_map(before, at as int, inserted);
            assert forall|i: int, j: int| 0 <= i < j < entries@.len() implies text_before(
                (#[trigger] entries@[i]).0@,
                (#[trigger] entries@[j]).0@,
            ) by {
                assert(text_before(after[i].0, after[j].0));
            }
        }
        self.entries = entries;
        proof {
            assert(self@ =~= map_of(before).insert(inserted.0, inserted.1));
        }
    }
}

impl<V: Clone> NameMap<V> {
    /// Whether `copy` has the names of this map, each with a clone of its value.
    pub closed spec fn cloned_as(&self, copy: &Self) -> bool {
        &&& copy.entries@.len() == self.entries@.len()
        &&& forall|i: int|
            0 <= i < self.entries@.len() ==> (#[trigger] copy.entries@[i]).0@ == self.entries@[i].0@
                && cloned(self.entries@[i].1, copy.entries@[i].1)
    }
}

impl<V: Clone> Clone for NameMap<V> {
    fn clone(&self) -> (r: Self)
        ensures
            self.cloned_as(&r),
    {
        proof {
            use_type_invariant(self);
        }
        let mut entries: Vec<(String, V)> = Vec::new();
        let mut i: usize = 0;
        while i < self.entries.len()
            invariant
                i <= self.entries@.len(),
                entries@.len() == i,
                forall|j: int|
                    0 <= j < i ==> (#[trigger] entries@[j]).0@ == self.entries@[j].0@ && cloned(
                        self.entries@[j].1,
                        entries@[j].1,
                    ),
            decreases self.entries@.len() - i,
        {
            entries.push((self.entries[i].0.clone(), self.entries[i].1.clone()));
            i = i + 1;
        }
        proof {
            assert forall|i: int, j: int| 0 <= i < j < entries@.len() implies text_before(
                (#[trigger] entries@[i]).0@,
                (#[trigger] entries@[j]).0@,
            ) by {
                assert(text_before(self.entries@[i].0@, self.entries@[j].0@));
            }
        }
        NameMap { entries }
    }
}

/// Environment variables by name.
pub type EnvVars = NameMap<String>;

/// A copy of `env`.
pub fn copy_env(env: &EnvVars) -> (r: EnvVars)
    ensures
        r@ == env@,
{
    let r = env.clone();
    proof {
        assert(r.entries() =~= env.entries());
    }
    r
}

/// The variables of `base`, with those of `overrides` in their place.
pub fn merge_env(base: &EnvVars, overrides: &EnvVars) -> (r: EnvVars)
    ensures
        r@ == base@.union_prefer_right(overrides@),
{
    let mut env = copy_env(base);
    overrides.check_order();
    let mut i: usize = 0;
    proof {
        assert(overrides.entries().take(0) =~= Seq::empty());
        assert(map_of(overrides.entries().take(0)) =~= Map::empty());
        assert(env@ =~= base@.union_prefer_right(map_of(overrides.entries().take(0))));
    }
    while i < overrides.len()
        invariant
            i <= overrides.entries().len(),
            in_name_order(overrides.entries()),
            env@ == base@.union_prefer_right(map_of(overrides.entries().take(i as int))),
        decreases overrides.entries().len() - i,
    {
        let ghost front = overrides.entries().take(i as int);
        let ghost longer = overrides.entries().take(i + 1);
        env.insert(overrides.name_at(i).clone(), overrides.value_at(i).clone());
        proof {
            assert(longer.drop_last() =~= front);
            lemma_append(longer);
            assert(env@ =~= base@.union_prefer_right(map_of(longer)));
        }
        i = i + 1;
    }
    proof {
        assert(overrides.entries().take(overrides.entries().len() as int) =~= overrides.entries());
    }
    env
}

} // verus!
