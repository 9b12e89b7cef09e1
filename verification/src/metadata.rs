//! Resource metadata: an ordered list of key-value string pairs.
//!
//! `insert` appends; `get` returns the value of the first entry for a key.
//! The issuer requires a non-blank `provider_name` entry at instantiation,
//! where a value is blank when every byte of its UTF-8 encoding is ASCII
//! whitespace.

use vstd::prelude::*;
use vstd::utf8::encode_utf8;

verus! {

/// The value of the first entry for a key, if any.
pub open spec fn lookup(entries: Seq<(String, String)>, key: Seq<char>) -> Option<Seq<char>>
    decreases entries.len(),
{
    if entries.len() == 0 {
        None
    } else if entries[0].0@ == key {
        Some(entries[0].1@)
    } else {
        lookup(entries.drop_first(), key)
    }
}

/// An ASCII whitespace byte: horizontal tab through carriage return, or a
/// space.
pub open spec fn is_space_byte(b: u8) -> bool {
    b == 32 || (9 <= b <= 13)
}

/// A string is blank when every byte of its UTF-8 encoding is ASCII
/// whitespace. (A non-ASCII character encodes to bytes of 128 and above,
/// so it never counts as whitespace.)
pub open spec fn is_blank(v: Seq<char>) -> bool {
    forall|i: int| 0 <= i < encode_utf8(v).len() ==> is_space_byte(#[trigger] encode_utf8(v)[i])
}

/// Key-value pairs attached to a resource.
#[derive(Debug, PartialEq, Eq)]
pub struct Metadata {
    entries: Vec<(String, String)>,
}

impl View for Metadata {
    type V = Seq<(String, String)>;

    closed spec fn view(&self) -> Seq<(String, String)> {
        self.entries@
    }
}

impl Metadata {
    pub fn new() -> (r: Metadata)
        ensures
            r@ == Seq::<(String, String)>::empty(),
    {
        Metadata { entries: Vec::new() }
    }

    pub fn insert(&mut self, key: String, value: String)
        ensures
            final(self)@ == old(self)@.push((key, value)),
    {
        self.entries.push((key, value));
    }

    /// A copy with the same entries.
    pub fn duplicate(&self) -> (r: Metadata)
        ensures
            r@ == self@,
    {
        let mut entries: Vec<(String, String)> = Vec::new();
        let mut i: usize = 0;
        while i < self.entries.len()
            invariant
                i <= self.entries@.len(),
                entries@ =~= self@.take(i as int),
            decreases self.entries@.len() - i,
        {
            entries.push((self.entries[i].0.clone(), self.entries[i].1.clone()));
            i = i + 1;
            proof {
                assert(entries@ =~= self@.take(i as int));
            }
        }
        proof {
            assert(self@.take(i as int) =~= self@);
        }
        Metadata { entries }
    }

    /// The value of the first entry for the key.
    pub fn get(&self, key: &String) -> (r: Option<&String>)
        ensures
            match r {
                Some(value) => lookup(self@, key@) == Some(value@),
                None => lookup(self@, key@) is None,
            },
    {
        let ghost all = self@;
        proof {
            assert(all.skip(0) =~= all);
        }
        let mut i: usize = 0;
        while i < self.entries.len()
            invariant
                i <= self.entries@.len(),
                all == self@,
                lookup(all, key@) == lookup(all.skip(i as int), key@),
            decreases self.entries@.len() - i,
        {
            proof {
                assert(all.skip(i as int)[0] == all[i as int]);
                assert(all.skip(i as int).drop_first() =~= all.skip(i as int + 1));
            }
            if self.entries[i].0 == *key {
                return Some(&self.entries[i].1);
            }
            i = i + 1;
        }
        proof {
            assert(all.skip(i as int) =~= Seq::<(String, String)>::empty());
        }
        None
    }
}

/// Whether any byte of the string's UTF-8 encoding is not ASCII whitespace.
pub fn has_visible_character(value: &String) -> (r: bool)
    ensures
        r == !is_blank(value@),
{
    let bytes = value.as_str().as_bytes();
    let mut i: usize = 0;
    while i < bytes.len()
        invariant
            i <= bytes@.len(),
            bytes@ == encode_utf8(value@),
            forall|j: int| 0 <= j < i ==> is_space_byte(#[trigger] bytes@[j]),
        decreases bytes@.len() - i,
    {
        let b = bytes[i];
        if !(b == 32 || (9 <= b && b <= 13)) {
            return true;
        }
        i = i + 1;
    }
    false
}

} // verus!
