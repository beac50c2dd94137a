//! Released game versions and the range of them that a chunk fits.

use vstd::prelude::*;

verus! {

/// The released game versions, oldest first.
#[derive(Debug, Clone, Copy, PartialEq, Eq, Structural)]
pub enum MinecraftVersion {
    V1_4_5,
    V1_4_6,
    V1_4_7,
    V1_5,
    V1_5_1,
    V1_5_2,
    V1_6,
    V1_6_1,
    V1_6_2,
    V1_6_3,
    V1_6_4,
    V1_7,
    V1_7_1,
    V1_7_2,
    V1_7_3,
    V1_7_4,
    V1_7_5,
    V1_7_6,
    V1_7_7,
    V1_7_8,
    V1_7_10,
    V1_8,
    V1_8_1,
    V1_8_2,
    V1_8_3,
    V1_8_4,
    V1_8_5,
    V1_8_6,
    V1_8_7,
    V1_8_8,
    V1_8_9,
    V1_9_4,
}

/// The position of the newest version known.
pub const NEWEST: u8 = 31;

impl MinecraftVersion {
    /// The position of this version in release order.
    pub open spec fn rank(self) -> u8 {
        match self {
            MinecraftVersion::V1_4_5 => 0,
            MinecraftVersion::V1_4_6 => 1,
            MinecraftVersion::V1_4_7 => 2,
            MinecraftVersion::V1_5 => 3,
            MinecraftVersion::V1_5_1 => 4,
            MinecraftVersion::V1_5_2 => 5,
            MinecraftVersion::V1_6 => 6,
            MinecraftVersion::V1_6_1 => 7,
            MinecraftVersion::V1_6_2 => 8,
            MinecraftVersion::V1_6_3 => 9,
            MinecraftVersion::V1_6_4 => 10,
            MinecraftVersion::V1_7 => 11,
            MinecraftVersion::V1_7_1 => 12,
            MinecraftVersion::V1_7_2 => 13,
            MinecraftVersion::V1_7_3 => 14,
            MinecraftVersion::V1_7_4 => 15,
            MinecraftVersion::V1_7_5 => 16,
            MinecraftVersion::V1_7_6 => 17,
            MinecraftVersion::V1_7_7 => 18,
            MinecraftVersion::V1_7_8 => 19,
            MinecraftVersion::V1_7_10 => 20,
            MinecraftVersion::V1_8 => 21,
            MinecraftVersion::V1_8_1 => 22,
            MinecraftVersion::V1_8_2 => 23,
            MinecraftVersion::V1_8_3 => 24,
            MinecraftVersion::V1_8_4 => 25,
            MinecraftVersion::V1_8_5 => 26,
            MinecraftVersion::V1_8_6 => 27,
            MinecraftVersion::V1_8_7 => 28,
            MinecraftVersion::V1_8_8 => 29,
            MinecraftVersion::V1_8_9 => 30,
            MinecraftVersion::V1_9_4 => 31,
        }
    }

    /// The position of this version in release order.
    pub fn ordinal(self) -> (r: u8)
        ensures
            r == self.rank(),
            r <= NEWEST,
    {
        match self {
            MinecraftVersion::V1_4_5 => 0,
            MinecraftVersion::V1_4_6 => 1,
            MinecraftVersion::V1_4_7 => 2,
            MinecraftVersion::V1_5 => 3,
            MinecraftVersion::V1_5_1 => 4,
            MinecraftVersion::V1_5_2 => 5,
            MinecraftVersion::V1_6 => 6,
            MinecraftVersion::V1_6_1 => 7,
            MinecraftVersion::V1_6_2 => 8,
            MinecraftVersion::V1_6_3 => 9,
            MinecraftVersion::V1_6_4 => 10,
            MinecraftVersion::V1_7 => 11,
            MinecraftVersion::V1_7_1 => 12,
            MinecraftVersion::V1_7_2 => 13,
            MinecraftVersion::V1_7_3 => 14,
            MinecraftVersion::V1_7_4 => 15,
            MinecraftVersion::V1_7_5 => 16,
            MinecraftVersion::V1_7_6 => 17,
            MinecraftVersion::V1_7_7 => 18,
            MinecraftVersion::V1_7_8 => 19,
            MinecraftVersion::V1_7_10 => 20,
            MinecraftVersion::V1_8 => 21,
            MinecraftVersion::V1_8_1 => 22,
            MinecraftVersion::V1_8_2 => 23,
            MinecraftVersion::V1_8_3 => 24,
            MinecraftVersion::V1_8_4 => 25,
            MinecraftVersion::V1_8_5 => 26,
            MinecraftVersion::V1_8_6 => 27,
            MinecraftVersion::V1_8_7 => 28,
            MinecraftVersion::V1_8_8 => 29,
            MinecraftVersion::V1_8_9 => 30,
            MinecraftVersion::V1_9_4 => 31,
        }
    }
}

/// Bounds on the versions that a chunk may have been written by, as
/// positions in release order.
#[derive(Debug, Clone, Copy, PartialEq, Eq, Structural)]
pub struct VersionRange {
    pub min: u8,
    pub max: u8,
}

/// One piece of evidence about a chunk's version.
#[derive(Debug, Clone, Copy, PartialEq, Eq, Structural)]
pub enum Evidence {
    /// The chunk is no older than this version.
    RaiseMin(MinecraftVersion),
    /// The chunk is no newer than this version.
    LowerMax(MinecraftVersion),
}

pub open spec fn max_u8(a: u8, b: u8) -> u8 {
    if a >= b { a } else { b }
}

pub open spec fn min_u8(a: u8, b: u8) -> u8 {
    if a <= b { a } else { b }
}

/// The range after one piece of evidence: bounds only ever tighten.
pub open spec fn apply(r: VersionRange, e: Evidence) -> VersionRange {
    match e {
        Evidence::RaiseMin(v) => VersionRange { min: max_u8(r.min, v.rank()), max: r.max },
        Evidence::LowerMax(v) => VersionRange { min: r.min, max: min_u8(r.max, v.rank()) },
    }
}

/// The range after each piece of evidence in `s`, in order.
pub open spec fn apply_all(r: VersionRange, s: Seq<Evidence>) -> VersionRange
    decreases s.len(),
{
    if s.len() == 0 {
        r
    } else {
        apply(apply_all(r, s.drop_last()), s.last())
    }
}

impl VersionRange {
    /// Every supported version.
    pub fn full() -> (r: VersionRange)
        ensures
            r.min == MinecraftVersion::V1_4_5.rank(),
            r.max == MinecraftVersion::V1_9_4.rank(),
    {
        VersionRange { min: MinecraftVersion::V1_4_5.ordinal(), max: MinecraftVersion::V1_9_4.ordinal() }
    }

    /// Raises the lower bound to `v`, unless it is already higher.
    pub fn raise_min(&mut self, v: MinecraftVersion)
        ensures
            final(self).min == max_u8(old(self).min, v.rank()),
            final(self).max == old(self).max,
    {
        let o = v.ordinal();
        if o > self.min {
            self.min = o;
        }
    }

    /// Lowers the upper bound to `v`, unless it is already lower.
    pub fn lower_max(&mut self, v: MinecraftVersion)
        ensures
            final(self).max == min_u8(old(self).max, v.rank()),
            final(self).min == old(self).min,
    {
        let o = v.ordinal();
        if o < self.max {
            self.max = o;
        }
    }

    /// Takes one piece of evidence into account.
    pub fn apply(&mut self, e: Evidence)
        ensures
            *final(self) == apply(*old(self), e),
    {
        match e {
            Evidence::RaiseMin(v) => self.raise_min(v),
            Evidence::LowerMax(v) => self.lower_max(v),
        }
    }
}

/// Taking one more piece of evidence after `s`.
pub proof fn lemma_apply_all_push(r: VersionRange, s: Seq<Evidence>, e: Evidence)
    ensures
        apply_all(r, s.push(e)) == apply(apply_all(r, s), e),
{
    assert(s.push(e).drop_last() == s);
}

/// Two pieces of evidence give the same range in either order.
pub proof fn lemma_evidence_commutes(r: VersionRange, a: Evidence, b: Evidence)
    ensures
        apply(apply(r, a), b) == apply(apply(r, b), a),
{
}

/// Taking the same evidence twice changes nothing the second time.
pub proof fn lemma_evidence_idempotent(r: VersionRange, a: Evidence)
    ensures
        apply(apply(r, a), a) == apply(r, a),
{
}

/// Evidence may be taken in groups: taking `s` and then `t` is taking `s + t`.
pub proof fn lemma_apply_all_concat(r: VersionRange, s: Seq<Evidence>, t: Seq<Evidence>)
    ensures
        apply_all(r, s + t) == apply_all(apply_all(r, s), t),
    decreases t.len(),
{
    if t.len() == 0 {
        assert(s + t == s);
    } else {
        lemma_apply_all_concat(r, s, t.drop_last());
        assert((s + t).drop_last() == s + t.drop_last());
        assert((s + t).last() == t.last());
    }
}

/// The bounds reached: the lower bound is the highest of the start and every
/// raise, the upper bound the lowest of the start and every cut.
proof fn lemma_apply_all_bounds(r: VersionRange, s: Seq<Evidence>)
    ensures
        apply_all(r, s).min >= r.min,
        apply_all(r, s).max <= r.max,
        forall|v: MinecraftVersion| s.contains(Evidence::RaiseMin(v)) ==> apply_all(r, s).min >= v.rank(),
        forall|v: MinecraftVersion| s.contains(Evidence::LowerMax(v)) ==> apply_all(r, s).max <= v.rank(),
        apply_all(r, s).min == r.min || exists|v: MinecraftVersion|
            s.contains(Evidence::RaiseMin(v)) && apply_all(r, s).min == v.rank(),
        apply_all(r, s).max == r.max || exists|v: MinecraftVersion|
            s.contains(Evidence::LowerMax(v)) && apply_all(r, s).max == v.rank(),
    decreases s.len(),
{
    if s.len() > 0 {
        let p = s.drop_last();
        lemma_apply_all_bounds(r, p);
        assert forall|e: Evidence| p.contains(e) implies s.contains(e) by {
            let j = choose|j: int| 0 <= j < p.len() && p[j] == e;
            assert(s[j] == e);
        }
        assert forall|e: Evidence| s.contains(e) implies p.contains(e) || e == s.last() by {
            let j = choose|j: int| 0 <= j < s.len() && s[j] == e;
            if j < p.len() {
                assert(p[j] == e);
            }
        }
        assert(s.contains(s.last())) by {
            assert(s[s.len() - 1] == s.last());
        }
    }
}

/// The range reached depends only on which evidence was taken, not on the
/// order in which it was taken nor on how often.
pub proof fn lemma_apply_all_order_free(r: VersionRange, s: Seq<Evidence>, t: Seq<Evidence>)
    requires
        forall|e: Evidence| s.contains(e) <==> t.contains(e),
    ensures
        apply_all(r, s) == apply_all(r, t),
{
    lemma_apply_all_bounds(r, s);
    lemma_apply_all_bounds(r, t);
}

} // verus!
