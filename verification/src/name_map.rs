//! A map from names to values that hands its names out in order.
use vstd::prelude::*;

use crate::text::{place_of, Place};

verus! {

/// Values by name: no name occurs twice, and the names stand in the order of texts.
#[derive(Debug)]
pub struct NameMap<V> {
    entries: Vec<(String, V)>,
}

/// Whether the names stand in strictly ascending order.
pub open spec fn ascending(names: Seq<Seq<char>>) -> bool {
    forall|i: int, j: int|
        0 <= i < j < names.len() ==> crate::text::text_before(#[trigger] names[i], #[trigger] names[j])
}

impl<V> NameMap<V> {
    /// The names, in order.
    pub closed spec fn names_in_order(self) -> Seq<Seq<char>> {
        self.entries@.map_values(|e: (String, V)| e.0@)
    }

    /// The values, in the order of their names.
    pub closed spec fn values_in_order(self) -> Seq<V> {
        self.entries@.map_values(|e: (String, V)| e.1)
    }

    #[verifier::type_invariant]
    pub closed spec fn ordered(self) -> bool {
        ascending(self.names_in_order())
    }
}

/// The map that pairs each name with the value at the same place.
pub open spec fn paired<V>(names: Seq<Seq<char>>, values: Seq<V>) -> Map<Seq<char>, V> {
    Map::new(|name: Seq<char>| names.contains(name), |name: Seq<char>| values[names.index_of(name)])
}

impl<V> View for NameMap<V> {
    type V = Map<Seq<char>, V>;

    open spec fn view(&self) -> Map<Seq<char>, V> {
        paired(self.names_in_order(), self.values_in_order())
    }
}

/// In ascending names, each name has one place.
pub proof fn lemma_ascending_place(names: Seq<Seq<char>>, i: int)
    requires
        ascending(names),
        0 <= i < names.len(),
    ensures
        names.index_of(names[i]) == i,
{
    let j = names.index_of(names[i]);
    assert(names.contains(names[i]));
    assert(names[j] == names[i]);
    crate::text::lemma_text_before_irreflexive(names[i]);
}

/// A name that belongs between two neighbours of ascending names is not among them.
proof fn lemma_absent(names: Seq<Seq<char>>, at: int, name: Seq<char>)
    requires
        ascending(names),
        0 <= at <= names.len(),
        forall|i: int| 0 <= i < at ==> crate::text::text_before(#[trigger] names[i], name),
        at < names.len() ==> crate::text::text_before(name, names[at]),
    ensures
        !names.contains(name),
        forall|i: int| at <= i < names.len() ==> crate::text::text_before(name, #[trigger] names[i]),
{
    assert forall|i: int| at <= i < names.len() implies crate::text::text_before(
        name,
        #[trigger] names[i],
    ) by {
        if i > at {
            crate::text::lemma_text_before_transitive(name, names[at], names[i]);
        }
    }
    if names.contains(name) {
        let i = names.index_of(name);
        assert(names[i] == name);
        crate::text::lemma_text_before_irreflexive(name);
    }
}

impl<V> NameMap<V> {
    /// An empty map.
    pub fn new() -> (map: Self)
        ensures
            map@ == Map::<Seq<char>, V>::empty(),
            map.names_in_order() == Seq::<Seq<char>>::empty(),
    {
        let map = NameMap { entries: Vec::new() };
        assert(map.names_in_order() =~= Seq::<Seq<char>>::empty());
        assert(map@ =~= Map::<Seq<char>, V>::empty());
        map
    }

    /// The place of a name, or the place where it belongs.
    fn find(&self, name: &str) -> (at: Result<usize, usize>)
        ensures
            match at {
                Ok(i) => i < self.entries@.len() && self.names_in_order()[i as int] == name@,
                Err(i) => {
                    &&& i <= self.entries@.len()
                    &&& !self.names_in_order().contains(name@)
                    &&& forall|j: int|
                        0 <= j < i ==> crate::text::text_before(
                            #[trigger] self.names_in_order()[j],
                            name@,
                        )
                    &&& forall|j: int|
                        i <= j < self.entries@.len() ==> crate::text::text_before(
                            name@,
                            #[trigger] self.names_in_order()[j],
                        )
                },
            },
    {
        proof {
            use_type_invariant(self);
        }
        let ghost names = self.names_in_order();
        let mut i: usize = 0;
        while i < self.entries.len()
            invariant
                i <= self.entries@.len(),
                names == self.names_in_order(),
                ascending(names),
                forall|j: int| 0 <= j < i ==> crate::text::text_before(#[trigger] names[j], name@),
            decreases self.entries@.len() - i,
        {
            assert(names[i as int] == self.entries@[i as int].0@);
            match place_of(self.entries[i].0.as_str(), name) {
                Place::Same => {
                    return Ok(i);
                },
                Place::After => {
                    proof {
                        lemma_absent(names, i as int, name@);
                    }
                    return Err(i);
                },
                Place::Before => {
                    i = i + 1;
                },
            }
        }
        proof {
            lemma_absent(names, i as int, name@);
        }
        Err(i)
    }

    /// The value of a name.
    pub fn get(&self, name: &str) -> (value: Option<&V>)
        ensures
            value is Some <==> self@.contains_key(name@),
            value matches Some(v) ==> *v == self@[name@],
    {
        proof {
            use_type_invariant(self);
        }
        match self.find(name) {
            Ok(i) => {
                proof {
                    lemma_ascending_place(self.names_in_order(), i as int);
                }
                Some(&self.entries[i].1)
            },
            Err(_) => None,
        }
    }

    /// Tells whether a name has a value.
    pub fn contains_key(&self, name: &str) -> (yes: bool)
        ensures
            yes == self@.contains_key(name@),
    {
        self.get(name).is_some()
    }

    /// Gives a name a value, in place of the one it had.
    pub fn insert(&mut self, name: String, value: V)
        ensures
            final(self)@ == old(self)@.insert(name@, value),
    {
        proof {
            use_type_invariant(&*self);
        }
        let ghost names = self.names_in_order();
        let ghost values = self.values_in_order();
        let ghost before = self@;
        let at = self.find(name.as_str());
        let ghost text = name@;
        let mut entries: Vec<(String, V)> = Vec::new();
        std::mem::swap(&mut entries, &mut self.entries);
        match at {
            Ok(i) => {
                proof {
                    lemma_ascending_place(names, i as int);
                }
                let _ = entries.remove(i);
                entries.insert(i, (name, value));
                let ghost map = NameMap { entries };
                proof {
                    assert(map.names_in_order() =~= names);
                    assert(map.values_in_order() =~= values.update(i as int, value));
                }
                self.entries = entries;
                proof {
                    assert forall|n: Seq<char>| names.contains(n) && n != text implies names.index_of(n)
                        != i by {
                        assert(names[names.index_of(n)] == n);
                    }
                    assert(self@ =~= before.insert(text, value));
                }
            },
            Err(i) => {
                entries.insert(i, (name, value));
                let ghost map = NameMap { entries };
                let ghost more = map.names_in_order();
                proof {
                    assert(more =~= names.insert(i as int, text));
                    assert(map.values_in_order() =~= values.insert(i as int, value));
                    assert(ascending(more)) by {
                        assert forall|j: int, k: int| 0 <= j < k < more.len() implies crate::text::text_before(
                            #[trigger] more[j],
                            #[trigger] more[k],
                        ) by {
                            if j != i && k != i {
                                let a = names[if j < i { j } else { j - 1 }];
                                let b = names[if k < i { k } else { k - 1 }];
                                assert(crate::text::text_before(a, b));
                            } else if j == i {
                                assert(more[k] == names[k - 1]);
                            } else {
                                assert(more[j] == names[j]);
                            }
                        }
                    }
                }
                self.entries = entries;
                proof {
                    assert forall|n: Seq<char>| names.contains(n) implies more.contains(n)
                        && map.values_in_order()[more.index_of(n)] == values[names.index_of(n)] by {
                        let k = names.index_of(n);
                        assert(names[k] == n);
                        let l = if k < i { k } else { k + 1 };
                        assert(more[l] == n);
                        lemma_ascending_place(more, l);
                    }
                    assert(more[i as int] == text);
                    lemma_ascending_place(more, i as int);
                    assert forall|n: Seq<char>| more.contains(n) && n != text implies names.contains(n) by {
                        let l = more.index_of(n);
                        assert(more[l] == n);
                        let k = if l < i { l } else { l - 1 };
                        assert(names[k] == n);
                    }
                    assert(self@ =~= before.insert(text, value));
                }
            },
        }
    }

    /// Takes a name and its value out of the map.
    pub fn remove(&mut self, name: &str) -> (value: Option<V>)
        ensures
            final(self)@ == old(self)@.remove(name@),
            value is Some <==> old(self)@.contains_key(name@),
            value matches Some(v) ==> v == old(self)@[name@],
    {
        proof {
            use_type_invariant(&*self);
        }
        let ghost names = self.names_in_order();
        let ghost values = self.values_in_order();
        let ghost before = self@;
        match self.find(name) {
            Err(_) => {
                assert(self@ =~= before.remove(name@));
                None
            },
            Ok(i) => {
                let mut entries: Vec<(String, V)> = Vec::new();
                std::mem::swap(&mut entries, &mut self.entries);
                let (_, value) = entries.remove(i);
                let ghost map = NameMap { entries };
                let ghost fewer = map.names_in_order();
                proof {
                    lemma_ascending_place(names, i as int);
                    assert(fewer =~= names.remove(i as int));
                    assert(map.values_in_order() =~= values.remove(i as int));
                    assert forall|j: int, k: int| 0 <= j < k < fewer.len() implies crate::text::text_before(
                        #[trigger] fewer[j],
                        #[trigger] fewer[k],
                    ) by {
                        let a = names[if j < i { j } else { j + 1 }];
                        let b = names[if k < i { k } else { k + 1 }];
                        assert(crate::text::text_before(a, b));
                    }
                }
                self.entries = entries;
                proof {
                    assert forall|n: Seq<char>| fewer.contains(n) implies names.contains(n) && n != name@
                        && map.values_in_order()[fewer.index_of(n)] == values[names.index_of(n)] by {
                        let l = fewer.index_of(n);
                        assert(fewer[l] == n);
                        let k = if l < i { l } else { l + 1 };
                        assert(names[k] == n);
                        lemma_ascending_place(names, k);
                    }
                    assert forall|n: Seq<char>| names.contains(n) && n != name@ implies fewer.contains(n) by {
                        let k = names.index_of(n);
                        assert(names[k] == n);
                        let l = if k < i { k } else { k - 1 };
                        assert(fewer[l] == n);
                    }
                    assert(self@ =~= before.remove(name@));
                }
                Some(value)
            },
        }
    }

    /// How many names have a value.
    pub fn len(&self) -> (n: usize)
        ensures
            n == self.names_in_order().len(),
            n == self.values_in_order().len(),
            ascending(self.names_in_order()),
    {
        proof {
            use_type_invariant(self);
        }
        self.entries.len()
    }

    /// Tells whether no name has a value.
    pub fn is_empty(&self) -> (yes: bool)
        ensures
            yes == (self@ == Map::<Seq<char>, V>::empty()),
            yes == (self.names_in_order().len() == 0),
    {
        proof {
            if self.entries@.len() > 0 {
                assert(self.names_in_order().contains(self.names_in_order()[0]));
                assert(self@.contains_key(self.names_in_order()[0]));
            } else {
                assert(self@ =~= Map::<Seq<char>, V>::empty());
            }
        }
        self.entries.len() == 0
    }

    /// The name at a place in the order.
    pub fn name_at(&self, i: usize) -> (name: &String)
        requires
            i < self.names_in_order().len(),
        ensures
            name@ == self.names_in_order()[i as int],
    {
        &self.entries[i].0
    }

    /// The value of the name at a place in the order.
    pub fn value_at(&self, i: usize) -> (value: &V)
        requires
            i < self.names_in_order().len(),
        ensures
            *value == self.values_in_order()[i as int],
            self@.contains_key(self.names_in_order()[i as int]),
            *value == self@[self.names_in_order()[i as int]],
    {
        proof {
            use_type_invariant(self);
            lemma_ascending_place(self.names_in_order(), i as int);
            assert(self.names_in_order().contains(self.names_in_order()[i as int]));
        }
        &self.entries[i].1
    }

    /// The names, each once, in ascending order.
    pub fn names(&self) -> (names: Vec<String>)
        ensures
            crate::text::texts_of(names@) == self.names_in_order(),
            ascending(crate::text::texts_of(names@)),
            forall|name: Seq<char>| #[trigger]
                crate::text::texts_of(names@).contains(name) <==> self@.contains_key(name),
    {
        proof {
            use_type_invariant(self);
        }
        let mut names: Vec<String> = Vec::new();
        let mut i: usize = 0;
        while i < self.entries.len()
            invariant
                i <= self.entries@.len(),
                crate::text::texts_of(names@) =~= self.names_in_order().take(i as int),
            decreases self.entries@.len() - i,
        {
            let ghost some = crate::text::texts_of(names@);
            names.push(self.entries[i].0.clone());
            proof {
                assert(self.names_in_order()[i as int] == self.entries@[i as int].0@);
                assert(crate::text::texts_of(names@) =~= some.push(self.names_in_order()[i as int]));
            }
            i = i + 1;
        }
        assert(self.names_in_order().take(i as int) =~= self.names_in_order());
        names
    }
}

impl<V: Clone> Clone for NameMap<V> {
    fn clone(&self) -> (copy: Self)
        ensures
            copy.names_in_order() == self.names_in_order(),
            copy@.dom() == self@.dom(),
            forall|name: Seq<char>| #[trigger]
                copy@.contains_key(name) ==> cloned::<V>(self@[name], copy@[name]),
    {
        proof {
            use_type_invariant(self);
        }
        let mut entries: Vec<(String, V)> = Vec::new();
        let mut i: usize = 0;
        while i < self.entries.len()
            invariant
                i <= self.entries@.len(),
                entries@.len() == i,
                forall|j: int|
                    0 <= j < i ==> (#[trigger] entries@[j]).0 == self.entries@[j].0 && cloned::<V>(
                        self.entries@[j].1,
                        entries@[j].1,
                    ),
            decreases self.entries@.len() - i,
        {
            entries.push((self.entries[i].0.clone(), self.entries[i].1.clone()));
            i = i + 1;
        }
        let ghost map = NameMap { entries };
        assert(map.names_in_order() =~= self.names_in_order());
        let copy = NameMap { entries };
        assert(copy@.dom() =~= self@.dom());
        assert forall|name: Seq<char>| #[trigger] copy@.contains_key(name) implies cloned::<V>(
            self@[name],
            copy@[name],
        ) by {
            let j = copy.names_in_order().index_of(name);
            assert(copy.names_in_order()[j] == name);
            assert(copy@[name] == copy.entries@[j].1);
        }
        copy
    }
}

/// There is one way to put names in ascending order.
pub proof fn one_ascending_order(a: Seq<Seq<char>>, b: Seq<Seq<char>>)
    requires
        ascending(a),
        ascending(b),
        forall|name: Seq<char>| #[trigger] a.contains(name) <==> b.contains(name),
    ensures
        a == b,
{
    if a.len() <= b.len() {
        lemma_same_start(a, b, a.len() as int);
        lemma_no_more(a, b);
    } else {
        lemma_same_start(b, a, b.len() as int);
        lemma_no_more(b, a);
    }
    assert(a =~= b);
}

proof fn lemma_same_start(a: Seq<Seq<char>>, b: Seq<Seq<char>>, n: int)
    requires
        ascending(a),
        ascending(b),
        forall|name: Seq<char>| #[trigger] a.contains(name) <==> b.contains(name),
        0 <= n <= a.len(),
        n <= b.len(),
    ensures
        forall|i: int| 0 <= i < n ==> #[trigger] a[i] == b[i],
    decreases n,
{
    if n > 0 {
        let k = n - 1;
        lemma_same_start(a, b, k);
        assert(a.contains(a[k]) && b.contains(a[k]));
        assert(b.contains(b[k]) && a.contains(b[k]));
        let in_b = b.index_of(a[k]);
        let in_a = a.index_of(b[k]);
        assert(b[in_b] == a[k] && a[in_a] == b[k]);
        crate::text::lemma_text_before_irreflexive(a[k]);
        crate::text::lemma_text_before_irreflexive(b[k]);
        if in_b < k {
            assert(a[in_b] == b[in_b]);
        }
        if in_a < k {
            assert(a[in_a] == b[in_a]);
        }
        if in_b > k && in_a > k {
            crate::text::lemma_text_before_transitive(a[k], b[k], a[k]);
        }
    }
}

proof fn lemma_no_more(a: Seq<Seq<char>>, b: Seq<Seq<char>>)
    requires
        ascending(b),
        a.len() <= b.len(),
        forall|i: int| 0 <= i < a.len() ==> #[trigger] a[i] == b[i],
        forall|name: Seq<char>| #[trigger] a.contains(name) <==> b.contains(name),
    ensures
        a.len() == b.len(),
{
    if a.len() < b.len() {
        let next = b[a.len() as int];
        assert(b.contains(next) && a.contains(next));
        let i = a.index_of(next);
        assert(a[i] == next);
        assert(b[i] == next);
        crate::text::lemma_text_before_irreflexive(next);
    }
}

} // verus!
