//! A header mapping: names are held in ASCII lower case, each name at most
//! once, and a later write to a name replaces the earlier one.

use crate::text::{ascii_lower, lower_char, to_ascii_lowercase};
use vstd::prelude::*;
use vstd::string::*;

verus! {

/// A name and a value, as texts.
pub type TextPair = (Seq<char>, Seq<char>);

/// The texts of a list of owned pairs.
pub open spec fn pairs_view(pairs: Seq<(String, String)>) -> Seq<TextPair> {
    Seq::new(pairs.len(), |i: int| (pairs[i].0@, pairs[i].1@))
}

/// The mapping that a list of writes leaves behind: each write goes to the
/// lower-cased name and replaces what was there.
pub open spec fn fold_headers(writes: Seq<TextPair>) -> Map<Seq<char>, Seq<char>>
    decreases writes.len(),
{
    if writes.len() == 0 {
        Map::empty()
    } else {
        fold_headers(writes.drop_last()).insert(ascii_lower(writes.last().0), writes.last().1)
    }
}

/// Every name is in lower case and no name occurs twice.
pub open spec fn is_header_list(entries: Seq<TextPair>) -> bool {
    &&& forall|i: int| 0 <= i < entries.len() ==> ascii_lower(#[trigger] entries[i].0) == entries[i].0
    &&& forall|i: int, j: int|
        0 <= i < j < entries.len() ==> #[trigger] entries[i].0 != #[trigger] entries[j].0
}

/// Lower-casing twice is lower-casing once.
pub proof fn lemma_lower_idempotent(s: Seq<char>)
    ensures
        ascii_lower(ascii_lower(s)) == ascii_lower(s),
{
    assert forall|c: char| lower_char(lower_char(c)) == lower_char(c) by {}
}

/// A name is bound after a list of writes exactly when one of them wrote it.
pub proof fn lemma_fold_domain(writes: Seq<TextPair>, name: Seq<char>)
    ensures
        fold_headers(writes).contains_key(name) <==> exists|i: int|
            0 <= i < writes.len() && ascii_lower(#[trigger] writes[i].0) == name,
    decreases writes.len(),
{
    if writes.len() > 0 {
        let init = writes.drop_last();
        lemma_fold_domain(init, name);
        if exists|i: int| 0 <= i < writes.len() && ascii_lower(#[trigger] writes[i].0) == name {
            let i = choose|i: int| 0 <= i < writes.len() && ascii_lower(#[trigger] writes[i].0) == name;
            if i < writes.len() - 1 {
                assert(init[i] == writes[i]);
            }
        }
    }
}

/// The last write to a name wins: a write that no later write to the same
/// name follows is what the mapping holds for that name.
pub proof fn lemma_last_write_wins(writes: Seq<TextPair>, i: int)
    requires
        0 <= i < writes.len(),
        forall|j: int|
            i < j < writes.len() ==> ascii_lower(#[trigger] writes[j].0) != ascii_lower(
                writes[i].0,
            ),
    ensures
        fold_headers(writes).contains_key(ascii_lower(writes[i].0)),
        fold_headers(writes)[ascii_lower(writes[i].0)] == writes[i].1,
    decreases writes.len(),
{
    if i < writes.len() - 1 {
        let init = writes.drop_last();
        assert forall|j: int| i < j < init.len() implies ascii_lower(#[trigger] init[j].0)
            != ascii_lower(init[i].0) by {}
        lemma_last_write_wins(init, i);
    }
}

/// In a header list each entry is what the mapping holds for its name.
pub proof fn lemma_fold_entry(entries: Seq<TextPair>, i: int)
    requires
        is_header_list(entries),
        0 <= i < entries.len(),
    ensures
        fold_headers(entries).contains_key(entries[i].0),
        fold_headers(entries)[entries[i].0] == entries[i].1,
    decreases entries.len(),
{
    let init = entries.drop_last();
    if i < entries.len() - 1 {
        lemma_fold_entry(init, i);
    }
}

/// Replacing the value of an entry of a header list is a write to its name.
pub proof fn lemma_fold_update(entries: Seq<TextPair>, i: int, value: Seq<char>)
    requires
        is_header_list(entries),
        0 <= i < entries.len(),
    ensures
        is_header_list(entries.update(i, (entries[i].0, value))),
        fold_headers(entries.update(i, (entries[i].0, value))) == fold_headers(entries).insert(
            entries[i].0,
            value,
        ),
    decreases entries.len(),
{
    let name = entries[i].0;
    let after = entries.update(i, (name, value));
    let init = entries.drop_last();
    if i == entries.len() - 1 {
        assert(after.drop_last() =~= init);
    } else {
        lemma_fold_update(init, i, value);
        assert(after.drop_last() =~= init.update(i, (name, value)));
    }
}

/// In a header list a bound name stands at exactly one place, and its value
/// stands beside it.
pub proof fn lemma_bound_name_occurs_once(entries: Seq<TextPair>, name: Seq<char>)
    requires
        is_header_list(entries),
        fold_headers(entries).contains_key(name),
    ensures
        exists|i: int|
            0 <= i < entries.len() && #[trigger] entries[i] == (name, fold_headers(entries)[name])
                && forall|j: int|
                0 <= j < entries.len() && (#[trigger] entries[j]).0 == name ==> j == i,
{
    lemma_fold_domain(entries, name);
    let i = choose|i: int| 0 <= i < entries.len() && ascii_lower(#[trigger] entries[i].0) == name;
    lemma_fold_entry(entries, i);
}

/// A header list binds as many names as it has entries.
pub proof fn lemma_fold_len(entries: Seq<TextPair>)
    requires
        is_header_list(entries),
    ensures
        fold_headers(entries).dom().finite(),
        fold_headers(entries).dom().len() == entries.len(),
    decreases entries.len(),
{
    if entries.len() > 0 {
        let init = entries.drop_last();
        lemma_fold_len(init);
        let name = entries.last().0;
        lemma_fold_domain(init, name);
    }
}

/// The header mapping.
#[derive(Debug)]
pub struct HeaderMap {
    entries: Vec<(String, String)>,
}

impl View for HeaderMap {
    type V = Map<Seq<char>, Seq<char>>;

    closed spec fn view(&self) -> Map<Seq<char>, Seq<char>> {
        fold_headers(pairs_view(self.entries@))
    }
}

impl HeaderMap {
    #[verifier::type_invariant]
    closed spec fn inv(&self) -> bool {
        is_header_list(pairs_view(self.entries@))
    }

    /// The empty mapping.
    pub fn new() -> (m: HeaderMap)
        ensures
            m@ == Map::<Seq<char>, Seq<char>>::empty(),
    {
        HeaderMap { entries: Vec::new() }
    }

    /// The number of names that are bound.
    pub fn len(&self) -> (n: usize)
        ensures
            self@.dom().finite(),
            n == self@.dom().len(),
    {
        proof {
            use_type_invariant(self);
            lemma_fold_len(pairs_view(self.entries@));
        }
        self.entries.len()
    }

    fn position(&self, key: &String) -> (r: Option<usize>)
        ensures
            match r {
                Some(i) => i < self.entries@.len() && self.entries@[i as int].0@ == key@,
                None => forall|i: int|
                    0 <= i < self.entries@.len() ==> (#[trigger] self.entries@[i]).0@ != key@,
            },
    {
        let mut i: usize = 0;
        while i < self.entries.len()
            invariant
                i <= self.entries@.len(),
                forall|j: int| 0 <= j < i ==> (#[trigger] self.entries@[j]).0@ != key@,
            decreases self.entries@.len() - i,
        {
            if self.entries[i].0 == *key {
                return Some(i);
            }
            i += 1;
        }
        None
    }

    /// Writes `value` to `name`: the name is bound to it afterwards, whatever
    /// it was bound to before, and every other name is untouched.
    pub fn insert(&mut self, name: &str, value: &str)
        ensures
            final(self)@ == old(self)@.insert(ascii_lower(name@), value@),
    {
        proof {
            use_type_invariant(&*self);
            lemma_lower_idempotent(name@);
        }
        let key = to_ascii_lowercase(name);
        let ghost before = pairs_view(self.entries@);
        let found = self.position(&key);
        let mut taken = HeaderMap::new();
        std::mem::swap(self, &mut taken);
        let mut entries = taken.entries;
        match found {
            Some(i) => {
                entries.set(i, (key, String::from_str(value)));
                proof {
                    lemma_fold_update(before, i as int, value@);
                    assert(pairs_view(entries@) =~= before.update(
                        i as int,
                        (before[i as int].0, value@),
                    ));
                }
            },
            None => {
                entries.push((key, String::from_str(value)));
                proof {
                    let after = pairs_view(entries@);
                    assert(after.drop_last() =~= before);
                    assert forall|i: int, j: int| 0 <= i < j < after.len() implies #[trigger] after[i].0
                        != #[trigger] after[j].0 by {
                        if j < before.len() {
                            assert(after[i] == before[i] && after[j] == before[j]);
                        }
                    }
                    assert forall|i: int| 0 <= i < after.len() implies ascii_lower(
                        #[trigger] after[i].0,
                    ) == after[i].0 by {
                        if i < before.len() {
                            assert(after[i] == before[i]);
                        }
                    }
                }
            },
        }
        *self = HeaderMap { entries };
    }

    /// The value that `name` is bound to, if it is bound.
    pub fn get(&self, name: &str) -> (r: Option<&str>)
        ensures
            match r {
                Some(v) => self@.contains_key(ascii_lower(name@)) && v@ == self@[ascii_lower(
                    name@,
                )],
                None => !self@.contains_key(ascii_lower(name@)),
            },
    {
        proof {
            use_type_invariant(self);
        }
        let key = to_ascii_lowercase(name);
        let ghost entries = pairs_view(self.entries@);
        match self.position(&key) {
            Some(i) => {
                proof {
                    lemma_fold_entry(entries, i as int);
                }
                Some(self.entries[i].1.as_str())
            },
            None => {
                proof {
                    lemma_fold_domain(entries, key@);
                }
                None
            },
        }
    }

    /// Whether `name` is bound.
    pub fn contains(&self, name: &str) -> (b: bool)
        ensures
            b == self@.contains_key(ascii_lower(name@)),
    {
        self.get(name).is_some()
    }

    /// The mapping that the writes leave behind, made in their order.
    pub fn from_pairs(writes: &Vec<(String, String)>) -> (m: HeaderMap)
        ensures
            m@ == fold_headers(pairs_view(writes@)),
    {
        let mut m = HeaderMap::new();
        let mut i: usize = 0;
        while i < writes.len()
            invariant
                i <= writes@.len(),
                m@ == fold_headers(pairs_view(writes@).take(i as int)),
            decreases writes@.len() - i,
        {
            m.insert(writes[i].0.as_str(), writes[i].1.as_str());
            proof {
                let all = pairs_view(writes@);
                assert(all.take(i + 1).drop_last() =~= all.take(i as int));
            }
            i += 1;
        }
        assert(pairs_view(writes@).take(i as int) =~= pairs_view(writes@));
        m
    }

    /// A fresh copy of the entries: each bound name once, with its value.
    pub fn to_pairs(&self) -> (pairs: Vec<(String, String)>)
        ensures
            is_header_list(pairs_view(pairs@)),
            fold_headers(pairs_view(pairs@)) == self@,
    {
        proof {
            use_type_invariant(self);
        }
        let mut pairs: Vec<(String, String)> = Vec::new();
        let mut i: usize = 0;
        while i < self.entries.len()
            invariant
                i <= self.entries@.len(),
                pairs@.len() == i,
                forall|j: int|
                    0 <= j < i ==> (#[trigger] pairs@[j]).0@ == self.entries@[j].0@ && pairs@[j].1@
                        == self.entries@[j].1@,
            decreases self.entries@.len() - i,
        {
            pairs.push((self.entries[i].0.clone(), self.entries[i].1.clone()));
            i += 1;
        }
        assert(pairs_view(pairs@) =~= pairs_view(self.entries@));
        pairs
    }
}

} // verus!
