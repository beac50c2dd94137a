//! Inferring from a chunk's contents which game versions could have written it.

use vstd::prelude::*;
use crate::error::ConvertError;
use crate::nibble::{nibbles, to_unsigned, unsigned_of, NibbleIter};
use crate::tag::{lookup, Compound, Tag};
use crate::version::{apply_all, lemma_apply_all_push, Evidence, MinecraftVersion, VersionRange};

verus! {

/// A block id (up to 12 bits) with its 4-bit data value.
#[derive(Debug, Clone, Copy, PartialEq, Eq, Structural, Hash)]
pub struct BlockIdData(pub i32, pub u8);

/// The bytes of a stored byte array, read as unsigned.
pub open spec fn unsigned_seq(s: Seq<i8>) -> Seq<u8> {
    s.map_values(|b: i8| unsigned_of(b))
}

pub open spec fn min_nat(a: nat, b: nat) -> nat {
    if a <= b { a } else { b }
}

/// The (id, data) pair at each block position of a section, walking the id
/// bytes, the data nibbles and, where present, the extension nibbles in
/// lock-step until one of them ends.
pub open spec fn section_pairs(blocks: Seq<i8>, data: Seq<u8>, add: Option<Seq<u8>>) -> Seq<BlockIdData> {
    match add {
        None => Seq::new(
            min_nat(blocks.len(), 2 * data.len()),
            |i: int| BlockIdData(unsigned_of(blocks[i]) as i32, nibbles(data)[i]),
        ),
        Some(a) => Seq::new(
            min_nat(min_nat(blocks.len(), 2 * data.len()), 2 * a.len()),
            |i: int| BlockIdData((unsigned_of(blocks[i]) + 256 * nibbles(a)[i]) as i32, nibbles(data)[i]),
        ),
    }
}

/// The pairs of a section record, or `None` where it lacks its id or data array.
pub open spec fn section_view(c: Compound) -> Option<Seq<BlockIdData>> {
    match (lookup(c.entries@, "Blocks"@), lookup(c.entries@, "Data"@)) {
        (Some(Tag::ByteArray(b)), Some(Tag::ByteArray(d))) => Some(
            section_pairs(
                b@,
                unsigned_seq(d@),
                match lookup(c.entries@, "Add"@) {
                    Some(Tag::ByteArray(a)) => Some(unsigned_seq(a@)),
                    _ => None,
                },
            ),
        ),
        _ => None,
    }
}

/// The pairs of a section value, or `None` where it is malformed.
pub open spec fn section_tag_view(t: Tag) -> Option<Seq<BlockIdData>> {
    match t {
        Tag::Compound(c) => section_view(c),
        _ => None,
    }
}

/// The stored bytes read as unsigned, one for one.
pub fn unsigned_bytes(s: &Vec<i8>) -> (r: Vec<u8>)
    ensures
        r@ == unsigned_seq(s@),
{
    let mut r: Vec<u8> = Vec::new();
    let mut i: usize = 0;
    while i < s.len()
        invariant
            i <= s@.len(),
            r@ == unsigned_seq(s@).subrange(0, i as int),
        decreases s@.len() - i,
    {
        r.push(to_unsigned(s[i]));
        i = i + 1;
        assert(r@ =~= unsigned_seq(s@).subrange(0, i as int));
    }
    assert(r@ =~= unsigned_seq(s@));
    r
}

/// Adds `b` to `seen` unless it is there already.
fn add_unique(seen: &mut Vec<BlockIdData>, b: BlockIdData)
    ensures
        forall|x: BlockIdData| final(seen)@.contains(x) <==> old(seen)@.contains(x) || x == b,
        old(seen)@.no_duplicates() ==> final(seen)@.no_duplicates(),
{
    let mut i: usize = 0;
    while i < seen.len()
        invariant
            i <= seen@.len(),
            forall|j: int| 0 <= j < i ==> seen@[j] != b,
        decreases seen@.len() - i,
    {
        if seen[i] == b {
            return;
        }
        i = i + 1;
    }
    let ghost s0 = seen@;
    seen.push(b);
    assert forall|x: BlockIdData| seen@.contains(x) <==> s0.contains(x) || x == b by {
        if seen@.contains(x) {
            let j = choose|j: int| 0 <= j < seen@.len() && seen@[j] == x;
            if j < s0.len() {
                assert(s0[j] == x);
            }
        }
        if s0.contains(x) {
            let j = choose|j: int| 0 <= j < s0.len() && s0[j] == x;
            assert(seen@[j] == x);
        }
        if x == b {
            assert(seen@[s0.len() as int] == x);
        }
    }
}

/// Walks one section's block storage and adds each (id, data) pair found
/// to `seen`, once. A section without its id or data array is malformed.
pub fn section_block_pairs(section: &Compound, seen: &mut Vec<BlockIdData>) -> (r: Result<(), ConvertError>)
    ensures
        match section_view(*section) {
            None => r == Err::<(), ConvertError>(ConvertError::Malformed) && final(seen)@ == old(seen)@,
            Some(p) => {
                &&& r is Ok
                &&& forall|x: BlockIdData| final(seen)@.contains(x) <==> old(seen)@.contains(x) || p.contains(x)
            },
        },
        old(seen)@.no_duplicates() ==> final(seen)@.no_duplicates(),
{
    let blocks = match section.get("Blocks") {
        Some(Tag::ByteArray(b)) => b,
        _ => return Err(ConvertError::Malformed),
    };
    let data = match section.get("Data") {
        Some(Tag::ByteArray(d)) => d,
        _ => return Err(ConvertError::Malformed),
    };
    let ghost add_view = match lookup(section.entries@, "Add"@) {
        Some(Tag::ByteArray(a)) => Some(unsigned_seq(a@)),
        _ => None,
    };
    let ghost p = section_pairs(blocks@, unsigned_seq(data@), add_view);
    let ghost s0 = seen@;
    let mut data_iter = NibbleIter::from_iter(unsigned_bytes(data));
    let mut add_iter = match section.get("Add") {
        Some(Tag::ByteArray(a)) => Some(NibbleIter::from_iter(unsigned_bytes(a))),
        _ => None,
    };
    let mut i: usize = 0;
    let mut going = true;
    while going
        invariant
            p == section_pairs(blocks@, unsigned_seq(data@), add_view),
            data_iter.wf(),
            data_iter.source() == unsigned_seq(data@),
            going ==> data_iter.position() == i,
            match add_iter {
                Some(it) => add_view == Some(it.source()) && it.wf() && (going ==> it.position() == i),
                None => add_view is None,
            },
            i <= p.len(),
            !going ==> i == p.len(),
            forall|x: BlockIdData| seen@.contains(x) <==> s0.contains(x) || exists|j: int| 0 <= j < i && p[j] == x,
            s0.no_duplicates() ==> seen@.no_duplicates(),
        decreases p.len() - i + if going { 1int } else { 0int },
    {
        if i >= blocks.len() {
            going = false;
        } else {
            match data_iter.next() {
                None => {
                    going = false;
                },
                Some(d) => {
                    let id = to_unsigned(blocks[i]);
                    let full: Option<i32> = match &mut add_iter {
                        None => Some(id as i32),
                        Some(it) => match it.next() {
                            None => None,
                            Some(a) => {
                                assert(((id as i32) | ((a as i32) << 8)) == (id as i32) + 256 * (a as i32)) by (bit_vector)
                                    requires
                                        id < 256,
                                        a < 16,
                                ;
                                Some((id as i32) | ((a as i32) << 8))
                            },
                        },
                    };
                    match full {
                        None => {
                            going = false;
                        },
                        Some(f) => {
                            let b = BlockIdData(f, d);
                            let ghost prev = seen@;
                            let ghost i0 = i as int;
                            assert forall|x: BlockIdData| prev.contains(x) <==> s0.contains(x) || exists|j: int| 0 <= j < i0 && p[j] == x by {
                                assert(seen@.contains(x) <==> s0.contains(x) || exists|j: int| 0 <= j < i && p[j] == x);
                            }
                            add_unique(seen, b);
                            assert(p[i0] == b);
                            i = i + 1;
                            assert forall|x: BlockIdData| seen@.contains(x) <==> s0.contains(x) || exists|j: int| 0 <= j < i && p[j] == x by {
                                if exists|j: int| 0 <= j < i && p[j] == x {
                                    let j = choose|j: int| 0 <= j < i && p[j] == x;
                                    if j < i0 {
                                        assert(exists|j2: int| 0 <= j2 < i0 && p[j2] == x);
                                        assert(prev.contains(x));
                                    } else {
                                        assert(x == b);
                                    }
                                }
                                if prev.contains(x) && !s0.contains(x) {
                                    let j = choose|j: int| 0 <= j < i0 && p[j] == x;
                                    assert(0 <= j < i && p[j] == x);
                                }
                                if x == b {
                                    assert(p[i0] == x);
                                }
                            }
                        },
                    }
                },
            }
        }
    }
    assert forall|x: BlockIdData| seen@.contains(x) <==> s0.contains(x) || p.contains(x) by {
        assert(seen@.contains(x) <==> s0.contains(x) || exists|j: int| 0 <= j < i && p[j] == x);
        if p.contains(x) {
            let j = choose|j: int| 0 <= j < p.len() && p[j] == x;
            assert(0 <= j < i && p[j] == x);
        }
        if exists|j: int| 0 <= j < i && p[j] == x {
            let j = choose|j: int| 0 <= j < i && p[j] == x;
            assert(p[j] == x);
        }
    }
    Ok(())
}

/// Nether brick slabs, added in 1.4.6.
pub open spec fn added_1_4_6(i: i32, d: u8) -> bool {
    (i == 43 && d == 6) || (i == 44 && (d == 6 || d == 14))
}

/// Blocks added in 1.5: trapped chest, weighted pressure plates,
/// comparators, daylight detector, redstone block, quartz ore, hopper, quartz
/// blocks and stairs, activator rail, dropper, and quartz slabs.
pub open spec fn added_1_5(i: i32, d: u8) -> bool {
    (146 <= i && i <= 158) || (i == 43 && d == 7) || (i == 44 && (d == 7 || d == 15))
}

/// Blocks added in 1.6: stained and hardened clay, hay bale, carpet, coal block.
pub open spec fn added_1_6(i: i32, d: u8) -> bool {
    i == 159 || (170 <= i && i <= 173)
}

/// Blocks added in 1.7: coarse dirt and podzol, acacia and dark oak
/// saplings, red sand, the second leaves and log, packed ice, double plants.
pub open spec fn added_1_7(i: i32, d: u8) -> bool {
    (i == 3 && (d == 1 || d == 2)) || (i == 6 && (d == 4 || d == 5)) || (i == 12 && d == 1)
        || i == 161 || i == 162 || i == 174 || i == 175
}

/// The newest release whose blocks include this pair; the oldest supported
/// release when none of the rules matches.
pub open spec fn introduced(b: BlockIdData) -> MinecraftVersion {
    if added_1_7(b.0, b.1) {
        MinecraftVersion::V1_7
    } else if added_1_6(b.0, b.1) {
        MinecraftVersion::V1_6
    } else if added_1_5(b.0, b.1) {
        MinecraftVersion::V1_5
    } else if added_1_4_6(b.0, b.1) {
        MinecraftVersion::V1_4_6
    } else {
        MinecraftVersion::V1_4_5
    }
}

/// The release that introduced a block pair, as `introduced` states it.
pub fn block_introduced(b: BlockIdData) -> (r: MinecraftVersion)
    ensures
        r == introduced(b),
{
    let i = b.0;
    let d = b.1;
    if (i == 3 && (d == 1 || d == 2)) || (i == 6 && (d == 4 || d == 5)) || (i == 12 && d == 1)
        || i == 161 || i == 162 || i == 174 || i == 175 {
        MinecraftVersion::V1_7
    } else if i == 159 || (170 <= i && i <= 173) {
        MinecraftVersion::V1_6
    } else if (146 <= i && i <= 158) || (i == 43 && d == 7) || (i == 44 && (d == 7 || d == 15)) {
        MinecraftVersion::V1_5
    } else if (i == 43 && d == 6) || (i == 44 && (d == 6 || d == 14)) {
        MinecraftVersion::V1_4_6
    } else {
        MinecraftVersion::V1_4_5
    }
}

/// The version range of a chunk and the distinct block pairs it holds.
#[derive(Debug, Clone)]
pub struct Fingerprint {
    pub range: VersionRange,
    pub blocks: Vec<BlockIdData>,
}

/// What the top-level keys of the level data say: the version marker came
/// with 1.7 and went after 1.8.9, the lighting flag came with 1.7, the
/// inhabited-time counter with 1.6.
pub open spec fn key_evidence(level: Seq<(String, Tag)>) -> Seq<Evidence> {
    (if lookup(level, "V"@) is Some {
        seq![Evidence::RaiseMin(MinecraftVersion::V1_7), Evidence::LowerMax(MinecraftVersion::V1_8_9)]
    } else {
        Seq::empty()
    }) + (if lookup(level, "LightPopulated"@) is Some {
        seq![Evidence::RaiseMin(MinecraftVersion::V1_7)]
    } else {
        Seq::empty()
    }) + (if lookup(level, "InhabitedTime"@) is Some {
        seq![Evidence::RaiseMin(MinecraftVersion::V1_6)]
    } else {
        Seq::empty()
    })
}

/// What the scheduled ticks say: a numeric block reference in the first one
/// means 1.7.10 or older, a string one 1.8 or newer. `None` where the first
/// tick is not a record with a block reference.
pub open spec fn tick_evidence(level: Seq<(String, Tag)>) -> Option<Seq<Evidence>> {
    match lookup(level, "TileTicks"@) {
        Some(Tag::List(l)) => if l@.len() == 0 {
            Some(Seq::empty())
        } else {
            match l@[0] {
                Tag::Compound(c) => match lookup(c.entries@, "i"@) {
                    Some(Tag::Int(_)) => Some(seq![Evidence::LowerMax(MinecraftVersion::V1_7_10)]),
                    Some(Tag::String(_)) => Some(seq![Evidence::RaiseMin(MinecraftVersion::V1_8)]),
                    Some(_) => Some(Seq::empty()),
                    None => None,
                },
                _ => None,
            }
        },
        _ => Some(Seq::empty()),
    }
}

/// The section records of the level data: none where the list is absent,
/// `None` where the field is not a list.
pub open spec fn sections_of(level: Seq<(String, Tag)>) -> Option<Seq<Tag>> {
    match lookup(level, "Sections"@) {
        None => Some(Seq::empty()),
        Some(Tag::List(l)) => Some(l@),
        Some(_) => None,
    }
}

/// Whether every section can be read.
pub open spec fn sections_ok(secs: Seq<Tag>) -> bool {
    forall|k: int| 0 <= k < secs.len() ==> section_tag_view(#[trigger] secs[k]) is Some
}

/// Whether pair `x` occurs in one of the sections.
pub open spec fn occurs_in(secs: Seq<Tag>, x: BlockIdData) -> bool {
    exists|k: int| 0 <= k < secs.len() && section_tag_view(#[trigger] secs[k]).unwrap().contains(x)
}

/// One raise of the lower bound for each block pair.
pub open spec fn block_evidence(bs: Seq<BlockIdData>) -> Seq<Evidence> {
    bs.map_values(|b: BlockIdData| Evidence::RaiseMin(introduced(b)))
}

/// Infers the version range of one chunk from its level data. The range
/// starts at every supported version and is narrowed by the top-level keys,
/// the shape of the first scheduled tick, and each distinct block pair.
pub fn fingerprint_level(level: &Compound) -> (r: Result<Fingerprint, ConvertError>)
    ensures
        match (tick_evidence(level.entries@), sections_of(level.entries@)) {
            (Some(t), Some(secs)) => if sections_ok(secs) {
                r matches Ok(f) && {
                    &&& forall|x: BlockIdData| f.blocks@.contains(x) <==> occurs_in(secs, x)
                    &&& f.blocks@.no_duplicates()
                    &&& f.range == apply_all(
                        VersionRange { min: MinecraftVersion::V1_4_5.rank(), max: MinecraftVersion::V1_9_4.rank() },
                        key_evidence(level.entries@) + t + block_evidence(f.blocks@),
                    )
                }
            } else {
                r == Err::<Fingerprint, ConvertError>(ConvertError::Malformed)
            },
            _ => r == Err::<Fingerprint, ConvertError>(ConvertError::Malformed),
        },
{
    let mut range = VersionRange::full();
    let ghost start = range;
    let ghost mut ev: Seq<Evidence> = Seq::empty();
    if level.contains_key("V") {
        range.apply(Evidence::RaiseMin(MinecraftVersion::V1_7));
        proof { lemma_apply_all_push(start, ev, Evidence::RaiseMin(MinecraftVersion::V1_7)); ev = ev.push(Evidence::RaiseMin(MinecraftVersion::V1_7)); }
        range.apply(Evidence::LowerMax(MinecraftVersion::V1_8_9));
        proof { lemma_apply_all_push(start, ev, Evidence::LowerMax(MinecraftVersion::V1_8_9)); ev = ev.push(Evidence::LowerMax(MinecraftVersion::V1_8_9)); }
    }
    if level.contains_key("LightPopulated") {
        range.apply(Evidence::RaiseMin(MinecraftVersion::V1_7));
        proof { lemma_apply_all_push(start, ev, Evidence::RaiseMin(MinecraftVersion::V1_7)); ev = ev.push(Evidence::RaiseMin(MinecraftVersion::V1_7)); }
    }
    if level.contains_key("InhabitedTime") {
        range.apply(Evidence::RaiseMin(MinecraftVersion::V1_6));
        proof { lemma_apply_all_push(start, ev, Evidence::RaiseMin(MinecraftVersion::V1_6)); ev = ev.push(Evidence::RaiseMin(MinecraftVersion::V1_6)); }
    }
    assert(ev =~= key_evidence(level.entries@));
    if let Some(Tag::List(ticks)) = level.get("TileTicks") {
        if ticks.len() > 0 {
            match &ticks[0] {
                Tag::Compound(c) => match c.get("i") {
                    Some(Tag::Int(_)) => {
                        range.apply(Evidence::LowerMax(MinecraftVersion::V1_7_10));
                        proof { lemma_apply_all_push(start, ev, Evidence::LowerMax(MinecraftVersion::V1_7_10)); ev = ev.push(Evidence::LowerMax(MinecraftVersion::V1_7_10)); }
                    },
                    Some(Tag::String(_)) => {
                        range.apply(Evidence::RaiseMin(MinecraftVersion::V1_8));
                        proof { lemma_apply_all_push(start, ev, Evidence::RaiseMin(MinecraftVersion::V1_8)); ev = ev.push(Evidence::RaiseMin(MinecraftVersion::V1_8)); }
                    },
                    Some(_) => {},
                    None => return Err(ConvertError::Malformed),
                },
                _ => return Err(ConvertError::Malformed),
            }
        }
    }
    let ghost before_blocks = ev;
    assert(tick_evidence(level.entries@) is Some);
    assert(before_blocks =~= key_evidence(level.entries@) + tick_evidence(level.entries@).unwrap());
    let empty: Vec<Tag> = Vec::new();
    let secs: &Vec<Tag> = match level.get("Sections") {
        None => &empty,
        Some(Tag::List(l)) => l,
        Some(_) => return Err(ConvertError::Malformed),
    };
    let mut seen: Vec<BlockIdData> = Vec::new();
    let mut k: usize = 0;
    while k < secs.len()
        invariant
            k <= secs@.len(),
            sections_of(level.entries@) == Some(secs@),
            forall|kk: int| 0 <= kk < k ==> section_tag_view(#[trigger] secs@[kk]) is Some,
            forall|x: BlockIdData| seen@.contains(x) <==> occurs_in(secs@.subrange(0, k as int), x),
            seen@.no_duplicates(),
        decreases secs@.len() - k,
    {
        let ghost s0 = seen@;
        let ghost sub0 = secs@.subrange(0, k as int);
        let ghost sub1 = secs@.subrange(0, k + 1);
        match &secs[k] {
            Tag::Compound(c) => {
                let res = section_block_pairs(c, &mut seen);
                if res.is_err() {
                    assert(!sections_ok(secs@));
                    return Err(ConvertError::Malformed);
                }
            },
            _ => {
                assert(!sections_ok(secs@));
                return Err(ConvertError::Malformed);
            },
        }
        assert forall|x: BlockIdData| seen@.contains(x) <==> occurs_in(sub1, x) by {
            if occurs_in(sub1, x) {
                let kk = choose|kk: int| 0 <= kk < sub1.len() && section_tag_view(#[trigger] sub1[kk]).unwrap().contains(x);
                if kk < k {
                    assert(sub0[kk] == sub1[kk]);
                    assert(occurs_in(sub0, x));
                }
            }
            if s0.contains(x) {
                assert(occurs_in(sub0, x));
                let kk = choose|kk: int| 0 <= kk < sub0.len() && section_tag_view(#[trigger] sub0[kk]).unwrap().contains(x);
                assert(sub0[kk] == sub1[kk]);
            }
            if section_tag_view(secs@[k as int]).unwrap().contains(x) {
                assert(sub1[k as int] == secs@[k as int]);
            }
        }
        k = k + 1;
    }
    assert(secs@.subrange(0, secs@.len() as int) == secs@);
    let mut j: usize = 0;
    while j < seen.len()
        invariant
            j <= seen@.len(),
            range == apply_all(start, before_blocks + block_evidence(seen@.subrange(0, j as int))),
        decreases seen@.len() - j,
    {
        let e = Evidence::RaiseMin(block_introduced(seen[j]));
        range.apply(e);
        proof {
            lemma_apply_all_push(start, before_blocks + block_evidence(seen@.subrange(0, j as int)), e);
            assert(before_blocks + block_evidence(seen@.subrange(0, j + 1)) =~= (before_blocks + block_evidence(seen@.subrange(0, j as int))).push(e));
        }
        j = j + 1;
    }
    assert(seen@.subrange(0, seen@.len() as int) == seen@);
    Ok(Fingerprint { range, blocks: seen })
}

/// Whether a chunk is new enough, 1.7 or later, that the older game cannot
/// load it as it stands and must generate it afresh.
pub fn needs_regeneration(f: &Fingerprint) -> (r: bool)
    ensures
        r == (f.range.min >= MinecraftVersion::V1_7.rank()),
{
    f.range.min >= MinecraftVersion::V1_7.ordinal()
}

} // verus!
