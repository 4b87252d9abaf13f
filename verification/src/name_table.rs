//! A map from names to values, kept in the byte order of the names' UTF-8
//! text (the order in which JSON objects of the protocol list their keys).

use vstd::prelude::*;

use crate::strings::{lemma_lex_asymmetric, lemma_lex_transitive, lex_less, text_order, utf8_of, LexOrder};

verus! {

/// Names mapped to values, sorted by name.
#[derive(Debug, Clone)]
pub struct NameTable<V> {
    entries: Vec<(String, V)>,
}

impl<V: Copy> NameTable<V> {
    /// The names, in table order.
    pub closed spec fn names(&self) -> Seq<Seq<char>> {
        self.entries@.map_values(|e: (String, V)| e.0@)
    }

    /// The values, in table order.
    pub closed spec fn values(&self) -> Seq<V> {
        self.entries@.map_values(|e: (String, V)| e.1)
    }

    /// The table as a map from names to values.
    pub open spec fn as_map(&self) -> Map<Seq<char>, V> {
        Map::new(
            |k: Seq<char>| self.names().contains(k),
            |k: Seq<char>| self.values()[self.names().index_of(k)],
        )
    }

    /// Well-formedness: names are strictly increasing in UTF-8 byte order
    /// (so no name occurs twice).
    pub open spec fn wf(&self) -> bool {
        &&& self.names().len() == self.values().len()
        &&& forall|i: int, j: int|
            0 <= i < j < self.names().len() ==> lex_less(
                #[trigger] utf8_of(self.names()[i]),
                #[trigger] utf8_of(self.names()[j]),
            )
    }

    proof fn lemma_lengths(&self)
        ensures
            self.names().len() == self.entries@.len(),
            self.values().len() == self.entries@.len(),
    {
    }

    /// In a well-formed table the map sends the `i`-th name to the `i`-th
    /// value.
    pub proof fn lemma_entry_in_map(&self, i: int)
        requires
            self.wf(),
            0 <= i < self.names().len(),
        ensures
            self.as_map().contains_key(self.names()[i]),
            self.as_map()[self.names()[i]] == self.values()[i],
    {
        let k = self.names()[i];
        assert(self.names().contains(k));
        let j = self.names().index_of(k);
        if j != i {
            if i < j {
                assert(lex_less(utf8_of(self.names()[i]), utf8_of(self.names()[j])));
            } else {
                assert(lex_less(utf8_of(self.names()[j]), utf8_of(self.names()[i])));
            }
            lemma_lex_asymmetric(utf8_of(k), utf8_of(k));
        }
    }

    /// An empty table.
    pub fn new() -> (r: Self)
        ensures
            r.wf(),
            r.names().len() == 0,
            r.as_map() == Map::<Seq<char>, V>::empty(),
    {
        let r = Self { entries: Vec::new() };
        assert(r.as_map() =~= Map::<Seq<char>, V>::empty());
        r
    }

    /// Number of names.
    pub fn len(&self) -> (r: usize)
        ensures
            r == self.names().len(),
    {
        self.entries.len()
    }

    /// Whether the table holds no name.
    pub fn is_empty(&self) -> (r: bool)
        ensures
            r == (self.names().len() == 0),
            r == (self.as_map().dom() == Set::<Seq<char>>::empty()),
    {
        proof {
            if self.names().len() > 0 {
                assert(self.names().contains(self.names()[0]));
                assert(self.as_map().dom().contains(self.names()[0]));
            } else {
                assert(self.as_map().dom() =~= Set::<Seq<char>>::empty());
            }
        }
        self.entries.len() == 0
    }

    /// The `i`-th entry in table order.
    pub fn entry(&self, i: usize) -> (r: (&str, &V))
        requires
            i < self.names().len(),
        ensures
            r.0@ == self.names()[i as int],
            *r.1 == self.values()[i as int],
    {
        let e = &self.entries[i];
        (e.0.as_str(), &e.1)
    }

    /// A table with the same names and values.
    pub fn duplicate(&self) -> (r: Self)
        ensures
            r.names() == self.names(),
            r.values() == self.values(),
            r.wf() == self.wf(),
            r.as_map() == self.as_map(),
    {
        let mut entries: Vec<(String, V)> = Vec::new();
        let mut i: usize = 0;
        while i < self.entries.len()
            invariant
                i <= self.entries@.len(),
                entries@.len() == i,
                forall|j: int| 0 <= j < i ==> (#[trigger] entries@[j]).0@ == self.entries@[j].0@
                    && entries@[j].1 == self.entries@[j].1,
            decreases self.entries@.len() - i,
        {
            let e = &self.entries[i];
            entries.push((e.0.clone(), e.1));
            i = i + 1;
        }
        let r = Self { entries };
        assert(r.names() =~= self.names());
        assert(r.values() =~= self.values());
        assert(r.as_map() =~= self.as_map());
        r
    }

    /// The value stored under `name`, if any.
    pub fn get(&self, name: &str) -> (r: Option<&V>)
        requires
            self.wf(),
        ensures
            r is Some == self.as_map().contains_key(name@),
            r matches Some(v) ==> *v == self.as_map()[name@],
    {
        let mut i: usize = 0;
        while i < self.entries.len()
            invariant
                self.wf(),
                i <= self.names().len(),
                self.names().len() == self.entries@.len(),
                forall|j: int| 0 <= j < i ==> self.names()[j] != name@,
            decreases self.entries@.len() - i,
        {
            let e = &self.entries[i];
            match text_order(e.0.as_str(), name) {
                LexOrder::Equal => {
                    proof {
                        self.lemma_entry_in_map(i as int);
                    }
                    return Some(&e.1);
                },
                _ => {},
            }
            i = i + 1;
        }
        proof {
            if self.names().contains(name@) {
                let j = choose|j: int| 0 <= j < self.names().len() && self.names()[j] == name@;
            }
        }
        None
    }

    /// Map `name` to `value`: a new name is placed at its position in byte
    /// order; an existing one keeps its place and gets the new value.
    pub fn insert(&mut self, name: &str, value: V)
        requires
            old(self).wf(),
        ensures
            final(self).wf(),
            final(self).as_map() == old(self).as_map().insert(name@, value),
    {
        proof {
            self.lemma_lengths();
        }
        let ghost old_names = self.names();
        let ghost old_values = self.values();
        let mut p: usize = 0;
        let mut found: bool = false;
        loop
            invariant_except_break
                !found,
            invariant
                self.wf(),
                self.names() == old_names,
                self.values() == old_values,
                p <= self.names().len(),
                self.names().len() == self.entries@.len(),
                forall|j: int| 0 <= j < p ==> lex_less(utf8_of(#[trigger] self.names()[j]), utf8_of(name@)),
            ensures
                self.names() == old_names,
                self.values() == old_values,
                p <= self.names().len(),
                self.names().len() == self.entries@.len(),
                forall|j: int| 0 <= j < p ==> lex_less(utf8_of(#[trigger] self.names()[j]), utf8_of(name@)),
                found ==> p < self.names().len() && self.names()[p as int] == name@,
                !found && p < self.names().len() ==> lex_less(utf8_of(name@), utf8_of(self.names()[p as int])),
            decreases self.entries@.len() - p,
        {
            if p >= self.entries.len() {
                break;
            }
            let order = text_order(self.entries[p].0.as_str(), name);
            match order {
                LexOrder::Less => {
                    p = p + 1;
                },
                LexOrder::Equal => {
                    found = true;
                    break;
                },
                LexOrder::Greater => {
                    break;
                },
            }
        }
        let ghost before = *self;
        if found {
            let (key, _) = self.entries.remove(p);
            self.entries.insert(p, (key, value));
            proof {
                self.lemma_lengths();
                assert(self.names() =~= old_names);
                assert(self.values() =~= old_values.update(p as int, value));
                self.lemma_same_names_update(before, p as int, name@, value);
            }
        } else {
            self.entries.insert(p, (String::from_str(name), value));
            proof {
                self.lemma_lengths();
                assert(self.names() =~= old_names.insert(p as int, name@));
                assert(self.values() =~= old_values.insert(p as int, value));
                self.lemma_inserted(before, p as int, name@, value);
            }
        }
    }

    proof fn lemma_same_names_update(&self, before: Self, p: int, name: Seq<char>, value: V)
        requires
            before.wf(),
            0 <= p < before.names().len(),
            before.names()[p] == name,
            self.names() == before.names(),
            self.values() == before.values().update(p, value),
        ensures
            self.wf(),
            self.as_map() == before.as_map().insert(name, value),
    {
        assert(self.wf());
        assert forall|k: Seq<char>| #[trigger] self.as_map().contains_key(k) implies self.as_map()[k]
            == before.as_map().insert(name, value)[k] by {
            let i = choose|i: int| 0 <= i < self.names().len() && self.names()[i] == k;
            self.lemma_entry_in_map(i);
            before.lemma_entry_in_map(i);
            if i != p {
                before.lemma_entry_in_map(p);
                assert(k != name) by {
                    if i < p {
                        assert(lex_less(utf8_of(before.names()[i]), utf8_of(before.names()[p])));
                    } else {
                        assert(lex_less(utf8_of(before.names()[p]), utf8_of(before.names()[i])));
                    }
                    lemma_lex_asymmetric(utf8_of(k), utf8_of(k));
                }
                assert(self.values()[i] == before.values()[i]);
            }
        }
        assert(self.as_map() =~= before.as_map().insert(name, value));
    }

    proof fn lemma_inserted(&self, before: Self, p: int, name: Seq<char>, value: V)
        requires
            before.wf(),
            0 <= p <= before.names().len(),
            forall|j: int| 0 <= j < p ==> lex_less(utf8_of(before.names()[j]), utf8_of(name)),
            p < before.names().len() ==> lex_less(utf8_of(name), utf8_of(before.names()[p])),
            self.names() == before.names().insert(p, name),
            self.values() == before.values().insert(p, value),
        ensures
            self.wf(),
            self.as_map() == before.as_map().insert(name, value),
    {
        let n = self.names();
        let bn = before.names();
        assert forall|j: int| p < j < n.len() implies lex_less(utf8_of(name), #[trigger] utf8_of(n[j])) by {
            assert(n[j] == bn[j - 1]);
            if j - 1 > p {
                assert(lex_less(utf8_of(bn[p]), utf8_of(bn[j - 1])));
                lemma_lex_transitive(utf8_of(name), utf8_of(bn[p]), utf8_of(bn[j - 1]));
            }
        }
        assert forall|i: int, j: int| 0 <= i < j < n.len() implies lex_less(
            #[trigger] utf8_of(n[i]),
            #[trigger] utf8_of(n[j]),
        ) by {
            if i < p && j < p {
                assert(n[i] == bn[i] && n[j] == bn[j]);
            } else if i < p && j == p {
            } else if i < p {
                assert(n[i] == bn[i]);
                lemma_lex_transitive(utf8_of(bn[i]), utf8_of(name), utf8_of(n[j]));
            } else if i == p {
            } else {
                assert(n[i] == bn[i - 1] && n[j] == bn[j - 1]);
            }
        }
        assert(self.wf());
        assert forall|k: Seq<char>|
            #[trigger] before.as_map().insert(name, value).contains_key(k) implies self.as_map().contains_key(k)
            by {
            if k != name {
                let i = choose|i: int| 0 <= i < bn.len() && bn[i] == k;
                if i < p {
                    assert(n[i] == k);
                } else {
                    assert(n[i + 1] == k);
                }
            } else {
                assert(n[p] == name);
            }
        }
        assert forall|k: Seq<char>| #[trigger] self.as_map().contains_key(k) implies self.as_map()[k]
            == before.as_map().insert(name, value)[k] by {
            let i = choose|i: int| 0 <= i < n.len() && n[i] == k;
            self.lemma_entry_in_map(i);
            if i < p {
                assert(n[i] == bn[i]);
                assert(self.values()[i] == before.values()[i]);
                before.lemma_entry_in_map(i);
                assert(lex_less(utf8_of(bn[i]), utf8_of(name)));
                assert(k != name) by {
                    lemma_lex_asymmetric(utf8_of(k), utf8_of(k));
                }
            } else if i > p {
                assert(n[i] == bn[i - 1]);
                assert(self.values()[i] == before.values()[i - 1]);
                before.lemma_entry_in_map(i - 1);
                assert(lex_less(utf8_of(name), utf8_of(n[i])));
                assert(k != name) by {
                    lemma_lex_asymmetric(utf8_of(k), utf8_of(k));
                }
            } else {
                assert(k == name);
                assert(self.values()[i] == value);
            }
        }
        assert(self.as_map() =~= before.as_map().insert(name, value));
    }
}

} // verus!
