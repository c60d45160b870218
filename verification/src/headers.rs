//! The header mapping of a request or a response.
//!
//! Names and values are byte strings. A name occurs at most once; inserting
//! under a name that is present replaces the value and keeps the place. The
//! entries keep the order in which their names first came in, so that what is
//! written to the wire is a function of what was inserted.

use vstd::prelude::*;

verus! {

/// A value that stands for a string of bytes: a borrowed slice of a read
/// buffer, or an owned vector.
pub trait ByteString {
    /// The bytes that the value stands for.
    spec fn bytes(&self) -> Seq<u8>;

    /// The bytes, borrowed.
    fn as_byte_slice(&self) -> (r: &[u8])
        ensures
            r@ == self.bytes(),
    ;
}

impl<'a> ByteString for &'a [u8] {
    open spec fn bytes(&self) -> Seq<u8> {
        self@
    }

    fn as_byte_slice(&self) -> (r: &[u8]) {
        *self
    }
}

impl ByteString for Vec<u8> {
    open spec fn bytes(&self) -> Seq<u8> {
        self@
    }

    fn as_byte_slice(&self) -> (r: &[u8]) {
        self.as_slice()
    }
}

/// One header: its name and its value.
pub type Entry = (Seq<u8>, Seq<u8>);

/// Some entry carries the name `key`.
pub open spec fn has_key(entries: Seq<Entry>, key: Seq<u8>) -> bool {
    exists|i: int| 0 <= i < entries.len() && (#[trigger] entries[i]).0 == key
}

/// The place of an entry that carries the name `key`.
pub open spec fn index_of(entries: Seq<Entry>, key: Seq<u8>) -> int {
    choose|i: int| 0 <= i < entries.len() && (#[trigger] entries[i]).0 == key
}

/// No name occurs twice.
pub open spec fn distinct_keys(entries: Seq<Entry>) -> bool {
    forall|i: int, j: int|
        0 <= i < j < entries.len() ==> (#[trigger] entries[i]).0 != (#[trigger] entries[j]).0
}

/// The mapping that a sequence of entries stands for.
pub open spec fn to_map(entries: Seq<Entry>) -> Map<Seq<u8>, Seq<u8>> {
    Map::new(|key: Seq<u8>| has_key(entries, key), |key: Seq<u8>| entries[index_of(entries, key)].1)
}

/// The entries after `value` was inserted under `key`: the value is replaced
/// in place where the name is present, and the entry is added at the end
/// where it is not.
pub open spec fn put(entries: Seq<Entry>, key: Seq<u8>, value: Seq<u8>) -> Seq<Entry> {
    if has_key(entries, key) {
        entries.update(index_of(entries, key), (key, value))
    } else {
        entries.push((key, value))
    }
}

/// Inserting keeps the names distinct.
pub proof fn lemma_put_distinct(entries: Seq<Entry>, key: Seq<u8>, value: Seq<u8>)
    requires
        distinct_keys(entries),
    ensures
        distinct_keys(put(entries, key, value)),
{
}

/// On entries with distinct names, `put` is the insertion of a mapping: the
/// last value written under a name is the one that stays.
pub proof fn lemma_put_map(entries: Seq<Entry>, key: Seq<u8>, value: Seq<u8>)
    requires
        distinct_keys(entries),
    ensures
        to_map(put(entries, key, value)) == to_map(entries).insert(key, value),
{
    let after = put(entries, key, value);
    let left = to_map(after);
    let right = to_map(entries).insert(key, value);
    lemma_put_distinct(entries, key, value);
    assert forall|k: Seq<u8>| left.dom().contains(k) <==> right.dom().contains(k) by {
        if right.dom().contains(k) {
            // the place at which `after` holds the name `k`
            let at = if k != key || has_key(entries, key) {
                index_of(entries, k)
            } else {
                entries.len() as int
            };
            assert(after[at].0 == k);
        }
    }
    assert forall|k: Seq<u8>| left.dom().contains(k) implies left[k] == right[k] by {
        let at = index_of(after, k);
        assert(after[at].0 == k);
    }
}

/// A mapping from header names to header values.
#[derive(Debug)]
pub struct HeaderMap<B: ByteString> {
    entries: Vec<(B, B)>,
}

impl<B: ByteString> HeaderMap<B> {
    /// The entries in the order in which their names first came in.
    pub closed spec fn entries(&self) -> Seq<Entry> {
        self.entries@.map_values(|e: (B, B)| (e.0.bytes(), e.1.bytes()))
    }

    /// Holds of every header map: no name occurs twice.
    #[verifier::type_invariant]
    pub open spec fn well_formed(&self) -> bool {
        distinct_keys(self.entries())
    }

    /// A map without entries.
    pub fn new() -> (r: Self)
        ensures
            r.entries() == Seq::<Entry>::empty(),
            r@ == Map::<Seq<u8>, Seq<u8>>::empty(),
    {
        HeaderMap { entries: Vec::new() }
    }

    /// The number of entries.
    pub fn len(&self) -> (r: usize)
        ensures
            r == self.entries().len(),
            distinct_keys(self.entries()),
    {
        proof {
            use_type_invariant(self);
        }
        self.entries.len()
    }

    /// The place of the entry under `key`, or the number of entries where
    /// there is none.
    fn position(entries: &Vec<(B, B)>, key: &[u8]) -> (r: usize)
        ensures
            r <= entries@.len(),
            r < entries@.len() ==> entries@[r as int].0.bytes() == key@,
            forall|i: int| 0 <= i < r ==> (#[trigger] entries@[i]).0.bytes() != key@,
    {
        let mut i: usize = 0;
        while i < entries.len()
            invariant
                i <= entries@.len(),
                forall|j: int| 0 <= j < i ==> (#[trigger] entries@[j]).0.bytes() != key@,
            decreases entries@.len() - i,
        {
            if crate::bytes::bytes_eq(entries[i].0.as_byte_slice(), key) {
                return i;
            }
            i += 1;
        }
        i
    }

    /// The entry at place `i`: its name and its value.
    pub fn entry(&self, i: usize) -> (r: (&B, &B))
        requires
            i < self.entries().len(),
        ensures
            (r.0.bytes(), r.1.bytes()) == self.entries()[i as int],
    {
        let e = &self.entries[i];
        (&e.0, &e.1)
    }

    /// Tells whether an entry stands under `key`. Names are compared byte
    /// for byte.
    pub fn contains_key(&self, key: &[u8]) -> (r: bool)
        ensures
            r == self@.dom().contains(key@),
            r == has_key(self.entries(), key@),
    {
        let at = Self::position(&self.entries, key);
        proof {
            if at < self.entries@.len() {
                assert(self.entries()[at as int].0 == key@);
            }
        }
        at < self.entries.len()
    }

    /// The value under `key`, if there is one.
    pub fn get(&self, key: &[u8]) -> (r: Option<&B>)
        ensures
            r is Some <==> self@.dom().contains(key@),
            r matches Some(value) ==> value.bytes() == self@[key@],
    {
        proof {
            use_type_invariant(self);
        }
        let at = Self::position(&self.entries, key);
        if at < self.entries.len() {
            proof {
                assert(self.entries()[at as int].0 == key@);
            }
            Some(&self.entries[at].1)
        } else {
            None
        }
    }

    /// Puts `value` under `key` and returns the value that stood there
    /// before, if any.
    pub fn insert(&mut self, key: B, value: B) -> (r: Option<B>)
        ensures
            final(self).entries() == put(old(self).entries(), key.bytes(), value.bytes()),
            final(self)@ == old(self)@.insert(key.bytes(), value.bytes()),
            r is Some <==> old(self)@.dom().contains(key.bytes()),
            r matches Some(before) ==> before.bytes() == old(self)@[key.bytes()],
    {
        proof {
            use_type_invariant(&*self);
            lemma_put_distinct(self.entries(), key.bytes(), value.bytes());
            lemma_put_map(self.entries(), key.bytes(), value.bytes());
        }
        let ghost before = self.entries();
        let ghost k = key.bytes();
        let ghost v = value.bytes();
        let mut entries: Vec<(B, B)> = Vec::new();
        std::mem::swap(&mut entries, &mut self.entries);
        let at = Self::position(&entries, key.as_byte_slice());
        if at < entries.len() {
            proof {
                assert(before[at as int].0 == k);
            }
            let replaced = entries.remove(at);
            entries.insert(at, (key, value));
            assert(entries@.map_values(|e: (B, B)| (e.0.bytes(), e.1.bytes())) =~= put(before, k, v));
            self.entries = entries;
            Some(replaced.1)
        } else {
            entries.push((key, value));
            assert(entries@.map_values(|e: (B, B)| (e.0.bytes(), e.1.bytes())) =~= put(before, k, v));
            self.entries = entries;
            None
        }
    }
}

impl<B: ByteString> View for HeaderMap<B> {
    type V = Map<Seq<u8>, Seq<u8>>;

    open spec fn view(&self) -> Map<Seq<u8>, Seq<u8>> {
        to_map(self.entries())
    }
}

} // verus!
