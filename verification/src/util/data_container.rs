//! The values that queries answer with and that requests carry.

use vstd::prelude::*;
use crate::util::text::str_eq;

verus! {

/// A 64-bit floating-point number, carried by its IEEE-754 bit pattern.
/// The library only moves such numbers around; it never computes with them.
#[derive(Debug, Clone, Copy, PartialEq, Eq, Structural)]
pub struct Float64 {
    pub bits: u64,
}

/// One value of a query's answer or of a request's parameters.
#[derive(Debug, PartialEq)]
pub enum DataContainer {
    Null,
    Int(i32),
    UnsignedLong(u64),
    Float(Float64),
    Text(String),
    Boolean(bool),
    Array(Vec<DataContainer>),
    Object(InfoMap),
}

/// Named values, such as the parameters that come with a query.
/// A key that occurs more than once is read at its first occurrence.
#[derive(Debug, PartialEq)]
pub struct InfoMap {
    pub entries: Vec<(String, DataContainer)>,
}

/// The mathematical value of a [`DataContainer`]: texts as character
/// sequences, lists and maps as sequences.
pub enum DataValue {
    Null,
    Int(i32),
    UnsignedLong(u64),
    Float(u64),
    Text(Seq<char>),
    Boolean(bool),
    Array(Seq<DataValue>),
    Object(Seq<(Seq<char>, DataValue)>),
}

/// The value a container holds.
pub open spec fn data_view(d: DataContainer) -> DataValue
    decreases d,
{
    match d {
        DataContainer::Null => DataValue::Null,
        DataContainer::Int(i) => DataValue::Int(i),
        DataContainer::UnsignedLong(u) => DataValue::UnsignedLong(u),
        DataContainer::Float(f) => DataValue::Float(f.bits),
        DataContainer::Text(s) => DataValue::Text(s@),
        DataContainer::Boolean(b) => DataValue::Boolean(b),
        DataContainer::Array(v) => DataValue::Array(
            Seq::new(v@.len(), |i: int| if 0 <= i < v@.len() { data_view(v@[i]) } else { DataValue::Null }),
        ),
        DataContainer::Object(m) => DataValue::Object(
            Seq::new(
                m.entries@.len(),
                |i: int|
                    if 0 <= i < m.entries@.len() {
                        (m.entries@[i].0@, data_view(m.entries@[i].1))
                    } else {
                        (Seq::empty(), DataValue::Null)
                    },
            ),
        ),
    }
}

impl View for DataContainer {
    type V = DataValue;

    open spec fn view(&self) -> DataValue {
        data_view(*self)
    }
}

impl View for InfoMap {
    type V = Seq<(Seq<char>, DataValue)>;

    open spec fn view(&self) -> Seq<(Seq<char>, DataValue)> {
        Seq::new(self.entries@.len(), |i: int| (self.entries@[i].0@, data_view(self.entries@[i].1)))
    }
}

/// The value stored under `key`: the one of its first entry.
pub open spec fn lookup<V>(entries: Seq<(Seq<char>, V)>, key: Seq<char>) -> Option<V>
    decreases entries.len(),
{
    if entries.len() == 0 {
        None
    } else if entries[0].0 == key {
        Some(entries[0].1)
    } else {
        lookup(entries.drop_first(), key)
    }
}

pub proof fn lemma_lookup_skip<V>(s: Seq<(Seq<char>, V)>, i: int, key: Seq<char>)
    requires
        0 <= i <= s.len(),
        forall|j: int| 0 <= j < i ==> s[j].0 != key,
    ensures
        lookup(s, key) == lookup(s.skip(i), key),
    decreases i,
{
    if i > 0 {
        lemma_lookup_skip(s.drop_first(), i - 1, key);
        assert(s.drop_first().skip(i - 1) =~= s.skip(i));
    } else {
        assert(s.skip(0) =~= s);
    }
}

pub proof fn lemma_lookup_update<V>(s: Seq<(Seq<char>, V)>, i: int, e: (Seq<char>, V), k: Seq<char>)
    requires
        0 <= i < s.len(),
        s[i].0 == e.0,
        forall|j: int| 0 <= j < i ==> s[j].0 != e.0,
    ensures
        lookup(s.update(i, e), k) == if k == e.0 { Some(e.1) } else { lookup(s, k) },
    decreases i,
{
    let t = s.update(i, e);
    if i == 0 {
        assert(t.drop_first() =~= s.drop_first());
    } else {
        lemma_lookup_update(s.drop_first(), i - 1, e, k);
        assert(t.drop_first() =~= s.drop_first().update(i - 1, e));
    }
}

pub proof fn lemma_lookup_push<V>(s: Seq<(Seq<char>, V)>, e: (Seq<char>, V), k: Seq<char>)
    requires
        forall|j: int| 0 <= j < s.len() ==> s[j].0 != e.0,
    ensures
        lookup(s.push(e), k) == if k == e.0 { Some(e.1) } else { lookup(s, k) },
    decreases s.len(),
{
    let t = s.push(e);
    if s.len() > 0 {
        lemma_lookup_push(s.drop_first(), e, k);
        assert(t.drop_first() =~= s.drop_first().push(e));
    } else {
        assert(t.drop_first() =~= s);
    }
}

impl InfoMap {
    /// The value stored under `key`, if any.
    pub open spec fn spec_get(&self, key: Seq<char>) -> Option<DataValue> {
        lookup(self@, key)
    }

    /// An empty map.
    pub fn new() -> (m: Self)
        ensures
            m@.len() == 0,
    {
        let m = InfoMap { entries: Vec::new() };
        assert(m@ =~= Seq::empty());
        m
    }

    /// Whether the map holds no entry.
    pub fn is_empty(&self) -> (r: bool)
        ensures
            r == (self@.len() == 0),
    {
        self.entries.len() == 0
    }

    /// The value stored under `key`.
    pub fn get(&self, key: &str) -> (r: Option<&DataContainer>)
        ensures
            match r {
                Some(v) => self.spec_get(key@) == Some(v@),
                None => self.spec_get(key@) is None,
            },
    {
        let mut i: usize = 0;
        while i < self.entries.len()
            invariant
                i <= self.entries@.len(),
                forall|j: int| 0 <= j < i ==> self@[j].0 != key@,
            decreases self.entries@.len() - i,
        {
            if str_eq(self.entries[i].0.as_str(), key) {
                proof {
                    lemma_lookup_skip(self@, i as int, key@);
                }
                return Some(&self.entries[i].1);
            }
            i = i + 1;
        }
        proof {
            lemma_lookup_skip(self@, i as int, key@);
        }
        None
    }

    /// Appends an entry at the end; a key already present keeps its value.
    pub fn push(&mut self, key: String, value: DataContainer)
        ensures
            final(self)@ == old(self)@.push((key@, value@)),
    {
        self.entries.push((key, value));
        assert(self@ =~= old(self)@.push((key@, value@)));
    }

    /// Stores `value` under `key`, in place of what was stored there.
    pub fn insert(&mut self, key: String, value: DataContainer)
        ensures
            forall|k: Seq<char>| #[trigger] final(self).spec_get(k)
                == if k == key@ { Some(value@) } else { old(self).spec_get(k) },
    {
        let ghost e = (key@, value@);
        let mut i: usize = 0;
        while i < self.entries.len()
            invariant
                i <= self.entries@.len(),
                self.entries@ == old(self).entries@,
                e == (key@, value@),
                forall|j: int| 0 <= j < i ==> self@[j].0 != key@,
            decreases self.entries@.len() - i,
        {
            if str_eq(self.entries[i].0.as_str(), key.as_str()) {
                let ghost before = self@;
                let ghost old_entries = self.entries@;
                assert(before[i as int].0 == old_entries[i as int].0@);
                let pair = (key, value);
                self.entries.set(i, pair);
                proof {
                    assert(self.entries@ == old_entries.update(i as int, pair));
                    assert forall|j: int| 0 <= j < self@.len() implies #[trigger] self@[j] == before.update(i as int, e)[j] by {
                        if j == i {
                        } else {
                            assert(self.entries@[j] == old_entries[j]);
                        }
                    }
                    assert(self@ =~= before.update(i as int, e));
                    assert forall|k: Seq<char>| #[trigger] self.spec_get(k)
                        == if k == e.0 { Some(e.1) } else { lookup(before, k) } by {
                        lemma_lookup_update(before, i as int, e, k);
                    }
                }
                return;
            }
            i = i + 1;
        }
        let ghost before = self@;
        self.entries.push((key, value));
        proof {
            assert(self@ =~= before.push(e));
            assert forall|k: Seq<char>| #[trigger] self.spec_get(k)
                == if k == e.0 { Some(e.1) } else { lookup(before, k) } by {
                lemma_lookup_push(before, e, k);
            }
        }
    }
}

impl Default for InfoMap {
    fn default() -> (m: Self)
        ensures
            m@.len() == 0,
    {
        InfoMap::new()
    }
}

} // verus!
