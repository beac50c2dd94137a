use world_downgrade::error::ConvertError;
use world_downgrade::fingerprint::{block_introduced, fingerprint_level, needs_regeneration, section_block_pairs, BlockIdData};
use world_downgrade::nibble::{decode_nibbles, to_unsigned, NibbleIter};
use world_downgrade::tag::{Compound, Tag};
use world_downgrade::version::{Evidence, MinecraftVersion, VersionRange};

fn compound(entries: Vec<(&str, Tag)>) -> Compound {
    Compound { entries: entries.into_iter().map(|(k, v)| (k.to_string(), v)).collect() }
}

#[test]
fn nibbles_low_then_high() {
    assert_eq!(decode_nibbles(&vec![0x30, 0xab]), vec![0x0, 0x3, 0xb, 0xa]);
    assert_eq!(decode_nibbles(&vec![]), Vec::<u8>::new());
}

#[test]
fn nibble_iter_yields_two_per_byte_then_ends() {
    let mut it = NibbleIter::from_iter(vec![0x21, 0xf0, 0x7e]);
    let mut out = Vec::new();
    while let Some(n) = it.next() {
        out.push(n);
    }
    assert_eq!(out, vec![1, 2, 0, 0xf, 0xe, 0x7]);
    assert_eq!(it.next(), None);
}

#[test]
fn signed_bytes_read_unsigned() {
    assert_eq!(to_unsigned(-1), 255);
    assert_eq!(to_unsigned(-128), 128);
    assert_eq!(to_unsigned(5), 5);
}

#[test]
fn evidence_in_any_order() {
    let evidence = [
        Evidence::RaiseMin(MinecraftVersion::V1_6),
        Evidence::LowerMax(MinecraftVersion::V1_8_9),
        Evidence::RaiseMin(MinecraftVersion::V1_7),
        Evidence::LowerMax(MinecraftVersion::V1_7_10),
    ];
    let mut forward = VersionRange::full();
    for e in evidence.iter() {
        forward.apply(*e);
    }
    let mut backward = VersionRange::full();
    for e in evidence.iter().rev() {
        backward.apply(*e);
    }
    assert_eq!(forward, backward);
    assert_eq!(forward.min, MinecraftVersion::V1_7.ordinal());
    assert_eq!(forward.max, MinecraftVersion::V1_7_10.ordinal());
}

#[test]
fn raise_and_lower_never_widen() {
    let mut r = VersionRange::full();
    r.raise_min(MinecraftVersion::V1_7);
    r.raise_min(MinecraftVersion::V1_5);
    r.lower_max(MinecraftVersion::V1_8);
    r.lower_max(MinecraftVersion::V1_9_4);
    assert_eq!(r, VersionRange { min: 11, max: 21 });
}

#[test]
fn section_pairs_without_add() {
    let section = compound(vec![
        ("Blocks", Tag::ByteArray(vec![0x01, 0x02])),
        ("Data", Tag::ByteArray(vec![0x30])),
    ]);
    let mut seen = Vec::new();
    assert_eq!(section_block_pairs(&section, &mut seen), Ok(()));
    assert_eq!(seen.len(), 2);
    assert!(seen.contains(&BlockIdData(1, 0)));
    assert!(seen.contains(&BlockIdData(2, 3)));
}

#[test]
fn section_pairs_with_add_and_duplicates() {
    let section = compound(vec![
        ("Blocks", Tag::ByteArray(vec![0x01, 0x01, -1, 0x01])),
        ("Data", Tag::ByteArray(vec![0x55, 0x05])),
        ("Add", Tag::ByteArray(vec![0x02, 0x12])),
    ]);
    let mut seen = Vec::new();
    assert_eq!(section_block_pairs(&section, &mut seen), Ok(()));
    assert_eq!(seen.len(), 4);
    assert!(seen.contains(&BlockIdData(513, 5)));
    assert!(seen.contains(&BlockIdData(1, 5)));
    assert!(seen.contains(&BlockIdData(767, 5)));
    assert!(seen.contains(&BlockIdData(257, 0)));
}

#[test]
fn section_without_data_is_malformed() {
    let section = compound(vec![("Blocks", Tag::ByteArray(vec![1]))]);
    let mut seen = Vec::new();
    assert_eq!(section_block_pairs(&section, &mut seen), Err(ConvertError::Malformed));
    assert!(seen.is_empty());
}

#[test]
fn block_rules() {
    assert_eq!(block_introduced(BlockIdData(44, 14)), MinecraftVersion::V1_4_6);
    assert_eq!(block_introduced(BlockIdData(154, 0)), MinecraftVersion::V1_5);
    assert_eq!(block_introduced(BlockIdData(171, 3)), MinecraftVersion::V1_6);
    assert_eq!(block_introduced(BlockIdData(3, 2)), MinecraftVersion::V1_7);
    assert_eq!(block_introduced(BlockIdData(3, 0)), MinecraftVersion::V1_4_5);
}

#[test]
fn empty_level_is_widest_range() {
    let level = compound(vec![("xPos", Tag::Int(0))]);
    let f = fingerprint_level(&level).unwrap();
    assert_eq!(f.range, VersionRange::full());
    assert!(f.blocks.is_empty());
    assert!(!needs_regeneration(&f));
}

#[test]
fn level_keys_ticks_and_blocks_narrow_the_range() {
    let tick = compound(vec![("i", Tag::Int(4))]);
    let section = compound(vec![
        ("Blocks", Tag::ByteArray(vec![-102, 1])),
        ("Data", Tag::ByteArray(vec![0])),
    ]);
    let level = compound(vec![
        ("InhabitedTime", Tag::Long(9)),
        ("TileTicks", Tag::List(vec![Tag::Compound(tick)])),
        ("Sections", Tag::List(vec![Tag::Compound(section)])),
    ]);
    let f = fingerprint_level(&level).unwrap();
    assert_eq!(f.range.min, MinecraftVersion::V1_6.ordinal());
    assert_eq!(f.range.max, MinecraftVersion::V1_7_10.ordinal());
    assert!(f.blocks.contains(&BlockIdData(154, 0)));
}

#[test]
fn version_marker_and_string_ticks() {
    let tick = compound(vec![("i", Tag::String("minecraft:water".to_string()))]);
    let level = compound(vec![
        ("V", Tag::Byte(1)),
        ("TileTicks", Tag::List(vec![Tag::Compound(tick)])),
    ]);
    let f = fingerprint_level(&level).unwrap();
    assert!(needs_regeneration(&f));
    assert_eq!(f.range.min, MinecraftVersion::V1_8.ordinal());
    assert_eq!(f.range.max, MinecraftVersion::V1_8_9.ordinal());
}

#[test]
fn malformed_tick_fails() {
    let level = compound(vec![("TileTicks", Tag::List(vec![Tag::Int(1)]))]);
    assert_eq!(fingerprint_level(&level).unwrap_err(), ConvertError::Malformed);
}
