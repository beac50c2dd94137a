//! The tagged-value tree that chunk records are made of.

use vstd::prelude::*;

verus! {

/// A value of the tagged binary format. Floating-point values are held by
/// their IEEE-754 bit patterns.
#[derive(Debug, PartialEq, Eq)]
pub enum Tag {
    Byte(i8),
    Short(i16),
    Int(i32),
    Long(i64),
    Float(u32),
    Double(u64),
    ByteArray(Vec<i8>),
    String(String),
    List(Vec<Tag>),
    Compound(Compound),
    IntArray(Vec<i32>),
    LongArray(Vec<i64>),
}

/// A mapping from names to values, held as a list of entries. Where two
/// entries share a name, the last one holds its value; `insert` and `remove`
/// keep the names unique.
#[derive(Debug, PartialEq, Eq)]
pub struct Compound {
    pub entries: Vec<(String, Tag)>,
}

/// The value under `k`: that of the last entry named `k`.
pub open spec fn lookup(s: Seq<(String, Tag)>, k: Seq<char>) -> Option<Tag>
    decreases s.len(),
{
    if s.len() == 0 {
        None
    } else if s.last().0@ == k {
        Some(s.last().1)
    } else {
        lookup(s.drop_last(), k)
    }
}

/// The entries of `s` that are not named `k`, in order.
pub open spec fn without(s: Seq<(String, Tag)>, k: Seq<char>) -> Seq<(String, Tag)>
    decreases s.len(),
{
    if s.len() == 0 {
        s
    } else if s.last().0@ == k {
        without(s.drop_last(), k)
    } else {
        without(s.drop_last(), k).push(s.last())
    }
}

/// Taking out a name that is absent changes nothing.
pub proof fn lemma_without_absent(s: Seq<(String, Tag)>, k: Seq<char>)
    requires
        lookup(s, k) is None,
    ensures
        without(s, k) == s,
    decreases s.len(),
{
    if s.len() > 0 {
        lemma_without_absent(s.drop_last(), k);
        assert(s.drop_last().push(s.last()) == s);
    }
}

/// Taking out `k` twice is taking it out once.
pub proof fn lemma_without_twice(s: Seq<(String, Tag)>, k: Seq<char>)
    ensures
        without(without(s, k), k) == without(s, k),
    decreases s.len(),
{
    if s.len() > 0 {
        lemma_without_twice(s.drop_last(), k);
        if s.last().0@ != k {
            assert(without(s, k).drop_last() == without(s.drop_last(), k));
        }
    }
}

/// Whether `new` is `old` with `k` bound to `v` as the last entry.
pub open spec fn bound_last(new: Seq<(String, Tag)>, old: Seq<(String, Tag)>, k: Seq<char>, v: Tag) -> bool {
    &&& new.len() > 0
    &&& new.drop_last() == without(old, k)
    &&& new.last().0@ == k
    &&& new.last().1 == v
}

/// Looking up a name after an entry was bound last.
pub proof fn lemma_lookup_with_last(new: Seq<(String, Tag)>, old: Seq<(String, Tag)>, k: Seq<char>, j: Seq<char>)
    requires
        new.len() > 0,
        new.drop_last() == without(old, k),
        new.last().0@ == k,
    ensures
        lookup(new, j) == if j == k { Some(new.last().1) } else { lookup(old, j) },
{
    lemma_lookup_without(old, k, j);
}

/// Looking up a name after `k` was taken out.
pub proof fn lemma_lookup_without(s: Seq<(String, Tag)>, k: Seq<char>, j: Seq<char>)
    ensures
        lookup(without(s, k), j) == if j == k { None } else { lookup(s, j) },
    decreases s.len(),
{
    if s.len() > 0 {
        lemma_lookup_without(s.drop_last(), k, j);
        if s.last().0@ != k {
            assert(without(s, k).drop_last() == without(s.drop_last(), k));
        }
    }
}

/// Whether `k` and `name` are the same text.
pub fn key_is(k: &String, name: &str) -> (r: bool)
    ensures
        r == (k@ == name@),
{
    let n = name.to_owned();
    *k == n
}

impl Tag {
    /// The elements, where this is a list.
    pub fn as_list(&self) -> (r: Option<&Vec<Tag>>)
        ensures
            match self {
                Tag::List(l) => r == Some(l),
                _ => r is None,
            },
    {
        match self {
            Tag::List(l) => Some(l),
            _ => None,
        }
    }

    /// The mapping, where this is a compound.
    pub fn as_compound(&self) -> (r: Option<&Compound>)
        ensures
            match self {
                Tag::Compound(c) => r == Some(c),
                _ => r is None,
            },
    {
        match self {
            Tag::Compound(c) => Some(c),
            _ => None,
        }
    }

    /// The bytes, where this is a byte array.
    pub fn as_byte_array(&self) -> (r: Option<&Vec<i8>>)
        ensures
            match self {
                Tag::ByteArray(b) => r == Some(b),
                _ => r is None,
            },
    {
        match self {
            Tag::ByteArray(b) => Some(b),
            _ => None,
        }
    }
}

impl Compound {
    /// The values as a lookup from names.
    pub open spec fn get_spec(&self, k: Seq<char>) -> Option<Tag> {
        lookup(self.entries@, k)
    }

    pub fn new() -> (r: Compound)
        ensures
            r.entries@ == Seq::<(String, Tag)>::empty(),
    {
        Compound { entries: Vec::new() }
    }

    /// The value under `k`, if any.
    pub fn get(&self, k: &str) -> (r: Option<&Tag>)
        ensures
            match lookup(self.entries@, k@) {
                Some(v) => r == Some(&v),
                None => r is None,
            },
    {
        let mut i: usize = self.entries.len();
        assert(self.entries@.subrange(0, i as int) == self.entries@);
        while i > 0
            invariant
                i <= self.entries@.len(),
                lookup(self.entries@, k@) == lookup(self.entries@.subrange(0, i as int), k@),
            decreases i,
        {
            let ghost s = self.entries@.subrange(0, i as int);
            if key_is(&self.entries[i - 1].0, k) {
                return Some(&self.entries[i - 1].1);
            }
            assert(s.drop_last() == self.entries@.subrange(0, i - 1));
            i = i - 1;
        }
        None
    }

    /// Whether some entry is named `k`.
    pub fn contains_key(&self, k: &str) -> (r: bool)
        ensures
            r == lookup(self.entries@, k@) is Some,
    {
        self.get(k).is_some()
    }

    /// Takes out every entry named `k`, handing back the value it had.
    pub fn remove(&mut self, k: &str) -> (r: Option<Tag>)
        ensures
            r == lookup(old(self).entries@, k@),
            final(self).entries@ == without(old(self).entries@, k@),
            forall|j: Seq<char>| #[trigger] lookup(final(self).entries@, j)
                == if j == k@ { None } else { lookup(old(self).entries@, j) },
            r is None ==> final(self).entries@ == old(self).entries@,
    {
        let ghost orig = self.entries@;
        let mut rest: Vec<(String, Tag)> = Vec::new();
        core::mem::swap(&mut rest, &mut self.entries);
        let mut kept: Vec<(String, Tag)> = Vec::new();
        let mut found: Option<Tag> = None;
        let ghost mut i: int = 0;
        while rest.len() > 0
            invariant
                0 <= i <= orig.len(),
                rest@ == orig.subrange(i, orig.len() as int),
                kept@ == without(orig.subrange(0, i), k@),
                found == lookup(orig.subrange(0, i), k@),
            decreases rest@.len(),
        {
            let e = rest.remove(0);
            proof {
                assert(orig.subrange(0, i + 1).drop_last() == orig.subrange(0, i));
                i = i + 1;
            }
            if key_is(&e.0, k) {
                found = Some(e.1);
            } else {
                kept.push(e);
            }
        }
        assert(orig.subrange(0, orig.len() as int) == orig);
        self.entries = kept;
        if found.is_none() {
            proof { lemma_without_absent(orig, k@); }
        }
        assert forall|j: Seq<char>| #[trigger] lookup(self.entries@, j)
            == if j == k@ { None } else { lookup(orig, j) } by {
            lemma_lookup_without(orig, k@, j);
        }
        found
    }

    /// Binds `k` to `v`, replacing any earlier value of `k`.
    pub fn insert(&mut self, k: &str, v: Tag)
        ensures
            bound_last(final(self).entries@, old(self).entries@, k@, v),
            lookup(final(self).entries@, k@) == Some(v),
            forall|j: Seq<char>| #[trigger] lookup(final(self).entries@, j)
                == if j == k@ { Some(v) } else { lookup(old(self).entries@, j) },
    {
        self.remove(k);
        let ghost mid = self.entries@;
        self.entries.push((k.to_owned(), v));
        assert(self.entries@.drop_last() == mid);
        assert forall|j: Seq<char>| #[trigger] lookup(self.entries@, j)
            == if j == k@ { Some(v) } else { lookup(old(self).entries@, j) } by {
            lemma_lookup_with_last(self.entries@, old(self).entries@, k@, j);
        }
    }
}

} // verus!
