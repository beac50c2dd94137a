//! Decoding of packed 4-bit values.

use vstd::prelude::*;

verus! {

/// The sequence of 4-bit values packed in `bytes`: for each byte its low
/// nibble first, then its high nibble.
pub open spec fn nibbles(bytes: Seq<u8>) -> Seq<u8> {
    Seq::new(
        2 * bytes.len(),
        |i: int| if i % 2 == 0 { bytes[i / 2] & 0xf } else { (bytes[i / 2] >> 4) & 0xf },
    )
}

/// The unsigned value of a stored signed byte.
pub open spec fn unsigned_of(b: i8) -> u8 {
    if b < 0 { (b + 256) as u8 } else { b as u8 }
}

/// Reads a stored signed byte as an unsigned one.
pub fn to_unsigned(b: i8) -> (r: u8)
    ensures
        r == unsigned_of(b),
        r as int == if b < 0 { b + 256 } else { b as int },
{
    if b < 0 {
        (b as i16 + 256) as u8
    } else {
        b as u8
    }
}

/// A forward-only reader of the nibbles packed in a byte array.
pub struct NibbleIter {
    bytes: Vec<u8>,
    idx: usize,
    high: bool,
}

impl NibbleIter {
    /// The bytes read from.
    pub closed spec fn source(&self) -> Seq<u8> {
        self.bytes@
    }

    /// How many nibbles have been handed out.
    pub closed spec fn position(&self) -> int {
        2 * self.idx + if self.high { 1int } else { 0int }
    }

    pub closed spec fn wf(&self) -> bool {
        self.idx < self.bytes@.len() || (self.idx == self.bytes@.len() && !self.high)
    }

    /// Starts reading at the first nibble of `bytes`.
    pub fn from_iter(bytes: Vec<u8>) -> (r: NibbleIter)
        ensures
            r.wf(),
            r.source() == bytes@,
            r.position() == 0,
    {
        NibbleIter { bytes, idx: 0, high: false }
    }

    /// Hands out the next nibble, or `None` once all `2 * N` are read.
    pub fn next(&mut self) -> (r: Option<u8>)
        requires
            old(self).wf(),
        ensures
            final(self).wf(),
            final(self).source() == old(self).source(),
            r matches Some(v) ==> v < 16,
            0 <= old(self).position() <= 2 * old(self).source().len(),
            old(self).position() < 2 * old(self).source().len() ==> {
                &&& r == Some(nibbles(old(self).source())[old(self).position()])
                &&& final(self).position() == old(self).position() + 1
            },
            old(self).position() == 2 * old(self).source().len() ==> {
                &&& r is None
                &&& final(self).position() == old(self).position()
            },
    {
        if self.idx >= self.bytes.len() {
            return None;
        }
        let b = self.bytes[self.idx];
        let ghost p = self.position();
        if !self.high {
            self.high = true;
            assert(p / 2 == self.idx && p % 2 == 0);
            assert(b & 0xf < 16) by (bit_vector);
            Some(b & 0xf)
        } else {
            self.high = false;
            self.idx = self.idx + 1;
            assert(p / 2 == self.idx - 1 && p % 2 == 1);
            assert((b >> 4) & 0xf < 16) by (bit_vector);
            Some((b >> 4) & 0xf)
        }
    }
}

/// All nibbles of `bytes`, in order: `2 * N` values for `N` bytes.
pub fn decode_nibbles(bytes: &Vec<u8>) -> (r: Vec<u8>)
    requires
        2 * bytes@.len() <= usize::MAX,
    ensures
        r@ == nibbles(bytes@),
        r@.len() == 2 * bytes@.len(),
        forall|i: int| 0 <= i < bytes@.len() ==>
            r@[2 * i] == bytes@[i] & 0xf && r@[2 * i + 1] == (bytes@[i] >> 4) & 0xf,
{
    let mut r: Vec<u8> = Vec::new();
    let mut i: usize = 0;
    while i < bytes.len()
        invariant
            i <= bytes@.len(),
            r@ == nibbles(bytes@).subrange(0, 2 * i as int),
        decreases bytes@.len() - i,
    {
        let b = bytes[i];
        r.push(b & 0xf);
        r.push((b >> 4) & 0xf);
        i = i + 1;
        assert(r@ =~= nibbles(bytes@).subrange(0, 2 * i as int));
    }
    assert(r@ =~= nibbles(bytes@));
    assert forall|i: int| 0 <= i < bytes@.len() implies
        r@[2 * i] == bytes@[i] & 0xf && r@[2 * i + 1] == (bytes@[i] >> 4) & 0xf by {
        assert((2 * i) / 2 == i && (2 * i) % 2 == 0);
        assert((2 * i + 1) / 2 == i && (2 * i + 1) % 2 == 1);
    }
    r
}

} // verus!
