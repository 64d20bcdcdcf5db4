//! The library's own model of a stored record: attribute names mapped to
//! attribute values, of which the logic reads strings and lists.

use vstd::prelude::*;

verus! {

/// An attribute value of a stored record. `Other` stands for every kind of
/// value that this library neither writes nor reads (numbers, binary, maps,
/// ...).
#[derive(Debug)]
pub enum AttrValue {
    S(String),
    L(Vec<AttrValue>),
    Other,
}

/// The text of a string attribute value.
pub open spec fn attr_text(v: AttrValue) -> Option<Seq<char>> {
    match v {
        AttrValue::S(s) => Some(s@),
        _ => None,
    }
}

/// The texts of the string values of a list, in order; other values are
/// skipped.
pub open spec fn texts_of(list: Seq<AttrValue>) -> Seq<Seq<char>>
    decreases list.len(),
{
    if list.len() == 0 {
        Seq::empty()
    } else {
        match attr_text(list.last()) {
            Some(t) => texts_of(list.drop_last()).push(t),
            None => texts_of(list.drop_last()),
        }
    }
}

impl AttrValue {
    /// The string of a string value.
    pub fn as_s(&self) -> (r: Option<&String>)
        ensures
            r is Some <==> attr_text(*self) is Some,
            r matches Some(s) ==> attr_text(*self) == Some(s@),
    {
        match self {
            AttrValue::S(s) => Some(s),
            _ => None,
        }
    }

    /// The elements of a list value.
    pub fn as_l(&self) -> (r: Option<&Vec<AttrValue>>)
        ensures
            r is Some <==> *self is L,
            r matches Some(l) ==> *self == AttrValue::L(*l),
    {
        match self {
            AttrValue::L(l) => Some(l),
            _ => None,
        }
    }
}

/// The value that the first entry named `key` holds.
pub open spec fn lookup(entries: Seq<(String, AttrValue)>, key: Seq<char>) -> Option<AttrValue>
    decreases entries.len(),
{
    if entries.len() == 0 {
        None
    } else if entries[0].0@ == key {
        Some(entries[0].1)
    } else {
        lookup(entries.drop_first(), key)
    }
}

/// A stored record: named attribute values. A name is looked up at its first
/// entry; `insert` keeps names unique.
#[derive(Debug)]
pub struct Item {
    pub entries: Vec<(String, AttrValue)>,
}

proof fn lemma_lookup_absent(entries: Seq<(String, AttrValue)>, key: Seq<char>)
    requires
        forall|j: int| 0 <= j < entries.len() ==> (#[trigger] entries[j]).0@ != key,
    ensures
        lookup(entries, key) is None,
    decreases entries.len(),
{
    if entries.len() > 0 {
        assert(entries[0].0@ != key);
        assert forall|j: int| 0 <= j < entries.drop_first().len() implies (#[trigger] entries.drop_first()[j]).0@ != key by {
            assert(entries.drop_first()[j] == entries[j + 1]);
        }
        lemma_lookup_absent(entries.drop_first(), key);
    }
}

proof fn lemma_lookup_push(entries: Seq<(String, AttrValue)>, name: String, v: AttrValue, key: Seq<char>)
    requires
        forall|j: int| 0 <= j < entries.len() ==> (#[trigger] entries[j]).0@ != name@,
    ensures
        lookup(entries.push((name, v)), key) == if key == name@ {
            Some(v)
        } else {
            lookup(entries, key)
        },
    decreases entries.len(),
{
    let e2 = entries.push((name, v));
    if entries.len() == 0 {
        assert(e2.drop_first() =~= Seq::<(String, AttrValue)>::empty());
    } else {
        assert(e2.drop_first() =~= entries.drop_first().push((name, v)));
        assert(entries[0].0@ != name@);
        assert forall|j: int| 0 <= j < entries.drop_first().len() implies (#[trigger] entries.drop_first()[j]).0@ != name@ by {
            assert(entries.drop_first()[j] == entries[j + 1]);
        }
        lemma_lookup_push(entries.drop_first(), name, v, key);
    }
}

proof fn lemma_lookup_update(entries: Seq<(String, AttrValue)>, i: int, name: String, v: AttrValue, key: Seq<char>)
    requires
        0 <= i < entries.len(),
        entries[i].0@ == name@,
        forall|j: int| 0 <= j < i ==> (#[trigger] entries[j]).0@ != name@,
    ensures
        lookup(entries.update(i, (name, v)), key) == if key == name@ {
            Some(v)
        } else {
            lookup(entries, key)
        },
    decreases i,
{
    let e2 = entries.update(i, (name, v));
    if i > 0 {
        assert(e2.drop_first() =~= entries.drop_first().update(i - 1, (name, v)));
        assert(entries[0].0@ != name@);
        assert forall|j: int| 0 <= j < i - 1 implies (#[trigger] entries.drop_first()[j]).0@ != name@ by {
            assert(entries.drop_first()[j] == entries[j + 1]);
        }
        lemma_lookup_update(entries.drop_first(), i - 1, name, v, key);
    } else {
        assert(e2.drop_first() =~= entries.drop_first());
    }
}

impl Item {
    /// The value stored under `key`.
    pub open spec fn get_spec(&self, key: Seq<char>) -> Option<AttrValue> {
        lookup(self.entries@, key)
    }

    /// The text stored under `key`, if it is a string value.
    pub open spec fn text_spec(&self, key: Seq<char>) -> Option<Seq<char>> {
        match self.get_spec(key) {
            Some(v) => attr_text(v),
            None => None,
        }
    }

    /// A record without attributes.
    pub fn new() -> (r: Item)
        ensures
            forall|k: Seq<char>| r.get_spec(k) is None,
    {
        Item { entries: Vec::new() }
    }

    /// The value stored under `key`.
    pub fn get(&self, key: &str) -> (r: Option<&AttrValue>)
        ensures
            r is Some <==> self.get_spec(key@) is Some,
            r matches Some(v) ==> self.get_spec(key@) == Some(*v),
    {
        let k = key.to_owned();
        let n = self.entries.len();
        let mut i: usize = 0;
        assert(self.entries@.skip(0) =~= self.entries@);
        while i < n
            invariant
                n == self.entries@.len(),
                i <= n,
                k@ == key@,
                lookup(self.entries@, key@) == lookup(self.entries@.skip(i as int), key@),
            decreases n - i,
        {
            assert(self.entries@.skip(i as int)[0] == self.entries@[i as int]);
            if self.entries[i].0 == k {
                return Some(&self.entries[i].1);
            }
            assert(self.entries@.skip(i as int).drop_first() =~= self.entries@.skip(i as int + 1));
            i = i + 1;
        }
        None
    }

    /// The text stored under `key`, if it is a string value.
    pub fn get_text(&self, key: &str) -> (r: Option<&String>)
        ensures
            r is Some <==> self.text_spec(key@) is Some,
            r matches Some(s) ==> self.text_spec(key@) == Some(s@),
    {
        match self.get(key) {
            Some(v) => v.as_s(),
            None => None,
        }
    }

    /// Stores `value` under `key`, replacing what was stored there.
    pub fn insert(&mut self, key: String, value: AttrValue)
        ensures
            forall|k: Seq<char>|
                #[trigger] final(self).get_spec(k) == if k == key@ {
                    Some(value)
                } else {
                    old(self).get_spec(k)
                },
    {
        let n = self.entries.len();
        let mut i: usize = 0;
        while i < n
            invariant
                n == self.entries@.len(),
                i <= n,
                self.entries@ == old(self).entries@,
                forall|j: int| 0 <= j < i ==> (#[trigger] self.entries@[j]).0@ != key@,
            decreases n - i,
        {
            if self.entries[i].0 == key {
                let ghost e0 = self.entries@;
                proof {
                    assert forall|k: Seq<char>| lookup(e0.update(i as int, (key, value)), k) == if k == key@ {
                        Some(value)
                    } else {
                        lookup(e0, k)
                    } by {
                        lemma_lookup_update(e0, i as int, key, value, k);
                    }
                }
                self.entries.set(i, (key, value));
                return;
            }
            i = i + 1;
        }
        let ghost e0 = self.entries@;
        proof {
            assert forall|k: Seq<char>| lookup(e0.push((key, value)), k) == if k == key@ {
                Some(value)
            } else {
                lookup(e0, k)
            } by {
                lemma_lookup_push(e0, key, value, k);
            }
        }
        self.entries.push((key, value));
    }
}

/// The texts of the string elements of a list value.
pub fn list_texts(list: &Vec<AttrValue>) -> (r: Vec<String>)
    ensures
        r@.map_values(|s: String| s@) == texts_of(list@),
{
    let mut r: Vec<String> = Vec::new();
    let n = list.len();
    let mut i: usize = 0;
    while i < n
        invariant
            n == list@.len(),
            i <= n,
            r@.map_values(|s: String| s@) == texts_of(list@.take(i as int)),
        decreases n - i,
    {
        assert(list@.take(i as int + 1).drop_last() =~= list@.take(i as int));
        assert(list@.take(i as int + 1).last() == list@[i as int]);
        match list[i].as_s() {
            Some(s) => {
                let ghost before = r@;
                r.push(s.clone());
                assert(r@.map_values(|s: String| s@) =~= before.map_values(|s: String| s@).push(s@));
            },
            None => {},
        }
        i = i + 1;
    }
    assert(list@.take(n as int) =~= list@);
    r
}

} // verus!
