use world_downgrade::downgrade::{
    convert_facing, unify_minecart, downgrade_chunk, downgrade_entity, downgrade_item_stack, downgrade_sign_text, downgrade_tile_entity,
    downgrade_tile_tick, facing_to_direction, halve_rotation, legacy_block_byte, render_sign_payload, SignPayload,
};
use world_downgrade::error::ConvertError;
use world_downgrade::ids::IdTable;
use world_downgrade::tag::{Compound, Tag};

fn compound(entries: Vec<(&str, Tag)>) -> Compound {
    Compound { entries: entries.into_iter().map(|(k, v)| (k.to_string(), v)).collect() }
}

fn table() -> IdTable {
    IdTable {
        entries: vec![
            ("minecraft:stone".to_string(), 1),
            ("minecraft:chest".to_string(), 54),
            ("minecraft:diamond".to_string(), 264),
            ("minecraft:quartz_ore".to_string(), 153),
        ],
    }
}

fn text(s: &str) -> Tag {
    Tag::String(s.to_string())
}

#[test]
fn item_stack_string_id_is_remapped() {
    let mut item = compound(vec![("id", text("minecraft:diamond")), ("Count", Tag::Byte(3))]);
    assert_eq!(downgrade_item_stack(&mut item, &table()), Ok(()));
    assert_eq!(item.get("id"), Some(&Tag::Short(264)));
    assert_eq!(item.get("Count"), Some(&Tag::Byte(3)));
    let before = compound(vec![("id", Tag::Short(264)), ("Count", Tag::Byte(3))]);
    let mut again = compound(vec![("id", Tag::Short(264)), ("Count", Tag::Byte(3))]);
    assert_eq!(downgrade_item_stack(&mut again, &table()), Ok(()));
    assert_eq!(again, before);
}

#[test]
fn unknown_item_id_is_lookup_miss() {
    let mut item = compound(vec![("id", text("minecraft:unheard_of"))]);
    assert_eq!(downgrade_item_stack(&mut item, &table()), Err(ConvertError::LookupMiss));
    let entity = compound(vec![
        ("id", text("Item")),
        ("Item", Tag::Compound(compound(vec![("id", text("minecraft:unheard_of"))]))),
    ]);
    let mut chunk = compound(vec![(
        "Level",
        Tag::Compound(compound(vec![
            ("Entities", Tag::List(vec![Tag::Compound(entity)])),
            ("TileEntities", Tag::List(vec![])),
        ])),
    )]);
    assert_eq!(downgrade_chunk(&mut chunk, &table()), Err(ConvertError::LookupMiss));
}

#[test]
fn minecart_chest_is_unified() {
    let items = vec![
        Tag::Compound(compound(vec![("id", text("minecraft:stone")), ("Slot", Tag::Byte(0))])),
        Tag::Compound(compound(vec![("id", text("minecraft:diamond")), ("Slot", Tag::Byte(1))])),
    ];
    let mut cart = compound(vec![("id", text("MinecartChest")), ("Items", Tag::List(items))]);
    assert_eq!(downgrade_entity(&mut cart, &table()), Ok(()));
    assert_eq!(cart.get("id"), Some(&text("Minecart")));
    assert_eq!(cart.get("Type"), Some(&Tag::Int(1)));
    match cart.get("Items") {
        Some(Tag::List(l)) => {
            assert_eq!(l.len(), 2);
            assert_eq!(l[0].as_compound().unwrap().get("id"), Some(&Tag::Short(1)));
            assert_eq!(l[1].as_compound().unwrap().get("id"), Some(&Tag::Short(264)));
        }
        other => panic!("items: {:?}", other),
    }
}

#[test]
fn other_minecarts_get_their_type() {
    let mut ride = compound(vec![("id", text("MinecartRideable"))]);
    assert_eq!(downgrade_entity(&mut ride, &table()), Ok(()));
    assert_eq!(ride.get("Type"), Some(&Tag::Int(0)));
    let mut furnace = compound(vec![("id", text("MinecartFurnace"))]);
    assert_eq!(downgrade_entity(&mut furnace, &table()), Ok(()));
    assert_eq!(furnace.get("id"), Some(&text("Minecart")));
    assert_eq!(furnace.get("Type"), Some(&Tag::Int(2)));
}

#[test]
fn facing_maps_to_direction_and_offset() {
    assert_eq!(facing_to_direction(0), (0, 0, -1));
    assert_eq!(facing_to_direction(1), (1, 1, 0));
    assert_eq!(facing_to_direction(2), (2, 0, 1));
    assert_eq!(facing_to_direction(3), (3, -1, 0));
}

#[test]
fn item_frame_facing_and_rotation() {
    let mut frame = compound(vec![
        ("id", text("ItemFrame")),
        ("Facing", Tag::Byte(1)),
        ("TileX", Tag::Int(10)),
        ("TileZ", Tag::Int(-4)),
        ("ItemRotation", Tag::Byte(6)),
        ("Item", Tag::Compound(compound(vec![("id", text("minecraft:chest"))]))),
    ]);
    assert_eq!(downgrade_entity(&mut frame, &table()), Ok(()));
    assert_eq!(frame.get("Facing"), None);
    assert_eq!(frame.get("Direction"), Some(&Tag::Byte(1)));
    assert_eq!(frame.get("TileX"), Some(&Tag::Int(11)));
    assert_eq!(frame.get("TileZ"), Some(&Tag::Int(-4)));
    assert_eq!(frame.get("ItemRotation"), Some(&Tag::Byte(3)));
    assert_eq!(frame.get("Item").unwrap().as_compound().unwrap().get("id"), Some(&Tag::Short(54)));
    assert_eq!(halve_rotation(7), 3);
    assert_eq!(halve_rotation(-3), -1);
}

#[test]
fn painting_facing_south() {
    let mut painting = compound(vec![
        ("id", text("Painting")),
        ("Facing", Tag::Byte(0)),
        ("TileX", Tag::Int(1)),
        ("TileZ", Tag::Int(7)),
    ]);
    assert_eq!(downgrade_entity(&mut painting, &table()), Ok(()));
    assert_eq!(painting.get("TileZ"), Some(&Tag::Int(6)));
    assert_eq!(painting.get("TileX"), Some(&Tag::Int(1)));
}

#[test]
fn arrow_in_tile_becomes_byte() {
    let mut arrow = compound(vec![("id", text("Arrow")), ("life", Tag::Short(3)), ("inTile", text("minecraft:quartz_ore"))]);
    assert_eq!(downgrade_entity(&mut arrow, &table()), Ok(()));
    assert_eq!(arrow.get("inTile"), Some(&Tag::Byte(153u8 as i8)));
    assert_eq!(arrow.get("life"), None);
    assert_eq!(legacy_block_byte(200), Some(-56));
    assert_eq!(legacy_block_byte(300), None);
    let mut bare = compound(vec![("id", text("Snowball"))]);
    assert_eq!(downgrade_entity(&mut bare, &table()), Err(ConvertError::Malformed));
}

#[test]
fn mob_fields_are_dropped() {
    let mut pig = compound(vec![
        ("id", text("PigZombie")),
        ("HealF", Tag::Float(0x4120_0000)),
        ("CanBreakDoors", Tag::Byte(0)),
        ("HurtBy", text("x")),
        ("Health", Tag::Short(20)),
        ("Equipment", Tag::List(vec![Tag::Compound(compound(vec![("id", text("minecraft:stone"))]))])),
        ("ActiveEffects", Tag::List(vec![Tag::Compound(compound(vec![("Id", Tag::Byte(1)), ("ShowParticles", Tag::Byte(1))]))])),
    ]);
    assert_eq!(downgrade_entity(&mut pig, &table()), Ok(()));
    assert_eq!(pig.get("HealF"), None);
    assert_eq!(pig.get("CanBreakDoors"), None);
    assert_eq!(pig.get("HurtBy"), None);
    assert_eq!(pig.get("Health"), Some(&Tag::Short(20)));
    match pig.get("ActiveEffects") {
        Some(Tag::List(l)) => assert_eq!(l[0].as_compound().unwrap().get("ShowParticles"), None),
        other => panic!("effects: {:?}", other),
    }
    let mut no_equipment = compound(vec![("id", text("Cow"))]);
    assert_eq!(downgrade_entity(&mut no_equipment, &table()), Err(ConvertError::Malformed));
}

#[test]
fn wolf_owner_is_renamed() {
    let mut wolf = compound(vec![
        ("id", text("Wolf")),
        ("OwnerUUID", text("abc")),
        ("ForcedAge", Tag::Int(0)),
        ("Equipment", Tag::List(vec![])),
    ]);
    assert_eq!(downgrade_entity(&mut wolf, &table()), Ok(()));
    assert_eq!(wolf.get("OwnerUUID"), None);
    assert_eq!(wolf.get("Owner"), Some(&text("abc")));
    assert_eq!(wolf.get("ForcedAge"), None);
}

#[test]
fn falling_sand_block_becomes_tile() {
    let mut sand = compound(vec![
        ("id", text("FallingSand")),
        ("Block", text("minecraft:stone")),
        ("TileEntityData", Tag::Compound(compound(vec![]))),
    ]);
    assert_eq!(downgrade_entity(&mut sand, &table()), Ok(()));
    assert_eq!(sand.get("Block"), None);
    assert_eq!(sand.get("Tile"), Some(&Tag::Byte(1)));
    assert_eq!(sand.get("TileEntityData"), None);
}

#[test]
fn entity_without_id_is_malformed() {
    let mut e = compound(vec![("Pos", Tag::List(vec![]))]);
    assert_eq!(downgrade_entity(&mut e, &table()), Err(ConvertError::Malformed));
}

#[test]
fn sign_text_literal_string() {
    let mut sign = compound(vec![
        ("id", text("Sign")),
        ("Text1", text("\"hello\"")),
        ("Text2", text("null")),
        ("Text3", text("42")),
        ("Text4", text("plain words")),
        ("CustomName", text("x")),
    ]);
    assert_eq!(downgrade_tile_entity(&mut sign, &table()), Ok(()));
    assert_eq!(sign.get("Text1"), Some(&text("hello")));
    assert_eq!(sign.get("Text2"), Some(&text("")));
    assert_eq!(sign.get("Text3"), Some(&text("42")));
    assert_eq!(sign.get("Text4"), Some(&text("plain words")));
    assert_eq!(sign.get("CustomName"), None);
}

#[test]
fn sign_text_object_is_unsupported() {
    let mut sign = compound(vec![("Text1", text("{\"text\":\"hi\"}"))]);
    assert_eq!(downgrade_sign_text(&mut sign, "Text1"), Err(ConvertError::UnsupportedPayload));
    let mut missing = compound(vec![]);
    assert_eq!(downgrade_sign_text(&mut missing, "Text2"), Err(ConvertError::Malformed));
    let mut numeric = compound(vec![("Text3", Tag::Int(1))]);
    assert_eq!(downgrade_sign_text(&mut numeric, "Text3"), Err(ConvertError::Malformed));
}

#[test]
fn sign_payload_rendering() {
    assert_eq!(render_sign_payload(SignPayload::Null, "null".to_string()), Ok(String::new()));
    assert_eq!(render_sign_payload(SignPayload::Text("a".to_string()), "\"a\"".to_string()), Ok("a".to_string()));
    assert_eq!(render_sign_payload(SignPayload::Number("7".to_string()), "7".to_string()), Ok("7".to_string()));
    assert_eq!(render_sign_payload(SignPayload::NotJson, "raw".to_string()), Ok("raw".to_string()));
    assert_eq!(render_sign_payload(SignPayload::Other, "[]".to_string()), Err(ConvertError::UnsupportedPayload));
}

#[test]
fn chest_items_and_lock() {
    let mut chest = compound(vec![
        ("id", text("Trap")),
        ("Lock", text("key")),
        ("Items", Tag::List(vec![Tag::Compound(compound(vec![("id", text("minecraft:stone"))]))])),
    ]);
    assert_eq!(downgrade_tile_entity(&mut chest, &table()), Ok(()));
    assert_eq!(chest.get("Lock"), None);
    match chest.get("Items") {
        Some(Tag::List(l)) => assert_eq!(l[0].as_compound().unwrap().get("id"), Some(&Tag::Short(1))),
        other => panic!("items: {:?}", other),
    }
}

#[test]
fn tile_tick_reference_becomes_int() {
    let mut tick = compound(vec![("i", text("minecraft:chest")), ("t", Tag::Int(3))]);
    assert_eq!(downgrade_tile_tick(&mut tick, &table()), Ok(()));
    assert_eq!(tick.get("i"), Some(&Tag::Int(54)));
    let mut missing = compound(vec![("t", Tag::Int(3))]);
    assert_eq!(downgrade_tile_tick(&mut missing, &table()), Err(ConvertError::Malformed));
}

#[test]
fn chunk_level_fields_are_dropped() {
    let mut chunk = compound(vec![(
        "Level",
        Tag::Compound(compound(vec![
            ("V", Tag::Byte(1)),
            ("InhabitedTime", Tag::Long(100)),
            ("LightPopulated", Tag::Byte(1)),
            ("xPos", Tag::Int(2)),
            ("Entities", Tag::List(vec![])),
            ("TileEntities", Tag::List(vec![])),
            ("TileTicks", Tag::List(vec![Tag::Compound(compound(vec![("i", text("minecraft:stone"))]))])),
        ])),
    )]);
    assert_eq!(downgrade_chunk(&mut chunk, &table()), Ok(()));
    let level = chunk.get("Level").unwrap().as_compound().unwrap();
    assert_eq!(level.get("V"), None);
    assert_eq!(level.get("InhabitedTime"), None);
    assert_eq!(level.get("LightPopulated"), None);
    assert_eq!(level.get("xPos"), Some(&Tag::Int(2)));
    match level.get("TileTicks") {
        Some(Tag::List(l)) => assert_eq!(l[0].as_compound().unwrap().get("i"), Some(&Tag::Int(1))),
        other => panic!("ticks: {:?}", other),
    }
    let mut no_level = compound(vec![]);
    assert_eq!(downgrade_chunk(&mut no_level, &table()), Err(ConvertError::Malformed));
}

#[test]
fn id_table_lookup() {
    assert_eq!(table().new_to_old("minecraft:chest"), Some(54));
    assert_eq!(table().new_to_old("minecraft:air"), None);
}

#[test]
fn facing_without_anchor_is_malformed() {
    let mut e = compound(vec![("Facing", Tag::Byte(2))]);
    assert_eq!(convert_facing(&mut e), Err(ConvertError::Malformed));
    let mut plain = compound(vec![("TileX", Tag::Int(1))]);
    assert_eq!(convert_facing(&mut plain), Ok(()));
    assert_eq!(plain, compound(vec![("TileX", Tag::Int(1))]));
    let mut west = compound(vec![("Facing", Tag::Int(3)), ("TileX", Tag::Int(0)), ("TileZ", Tag::Int(5))]);
    assert_eq!(convert_facing(&mut west), Ok(()));
    assert_eq!(west.get("Direction"), Some(&Tag::Byte(3)));
    assert_eq!(west.get("TileX"), Some(&Tag::Int(-1)));
    assert_eq!(west.get("TileZ"), Some(&Tag::Int(5)));
}

#[test]
fn minecart_unification_sets_type() {
    let mut cart = compound(vec![("id", text("MinecartFurnace")), ("Fuel", Tag::Short(9))]);
    unify_minecart(&mut cart, 2);
    assert_eq!(cart.get("id"), Some(&text("Minecart")));
    assert_eq!(cart.get("Type"), Some(&Tag::Int(2)));
    assert_eq!(cart.get("Fuel"), Some(&Tag::Short(9)));
}

fn sample_chunk() -> Compound {
    let pig = compound(vec![
        ("id", text("Pig")),
        ("HealF", Tag::Float(0x4120_0000)),
        ("Equipment", Tag::List(vec![Tag::Compound(compound(vec![("id", text("minecraft:stone"))]))])),
        ("ActiveEffects", Tag::List(vec![])),
    ]);
    let sign = compound(vec![("id", text("Sign")), ("Text1", text("\"hello\"")), ("Text2", text("")), ("Text3", text("7")), ("Text4", text("null"))]);
    let tick = compound(vec![("i", text("minecraft:chest"))]);
    compound(vec![(
        "Level",
        Tag::Compound(compound(vec![
            ("V", Tag::Byte(1)),
            ("Entities", Tag::List(vec![Tag::Compound(pig)])),
            ("TileEntities", Tag::List(vec![Tag::Compound(sign)])),
            ("TileTicks", Tag::List(vec![Tag::Compound(tick)])),
        ])),
    )])
}

#[test]
fn second_downgrade_changes_nothing() {
    let mut once = sample_chunk();
    assert_eq!(downgrade_chunk(&mut once, &table()), Ok(()));
    let mut twice = sample_chunk();
    assert_eq!(downgrade_chunk(&mut twice, &table()), Ok(()));
    assert_eq!(downgrade_chunk(&mut twice, &table()), Ok(()));
    assert_eq!(once, twice);
}

#[test]
fn item_stack_without_id_is_malformed() {
    let mut item = compound(vec![("Count", Tag::Byte(1))]);
    assert_eq!(downgrade_item_stack(&mut item, &table()), Err(ConvertError::Malformed));
    let mut cart = compound(vec![
        ("id", text("MinecartChest")),
        ("Items", Tag::List(vec![Tag::Compound(compound(vec![("Slot", Tag::Byte(0))]))])),
    ]);
    assert_eq!(downgrade_entity(&mut cart, &table()), Err(ConvertError::Malformed));
}

#[test]
fn chest_minecart_with_no_items() {
    let mut cart = compound(vec![("id", text("MinecartChest")), ("Items", Tag::List(vec![]))]);
    assert_eq!(downgrade_entity(&mut cart, &table()), Ok(()));
    assert_eq!(cart.get("id"), Some(&text("Minecart")));
    assert_eq!(cart.get("Type"), Some(&Tag::Int(1)));
    assert_eq!(cart.get("Items"), Some(&Tag::List(vec![])));
    assert_eq!(cart.entries.len(), 3);
}

#[test]
fn tile_tick_numeric_reference_is_kept() {
    let mut tick = compound(vec![("i", Tag::Int(8)), ("t", Tag::Int(3))]);
    assert_eq!(downgrade_tile_tick(&mut tick, &table()), Ok(()));
    assert_eq!(tick, compound(vec![("i", Tag::Int(8)), ("t", Tag::Int(3))]));
    let mut unknown = compound(vec![("i", text("minecraft:nothing"))]);
    assert_eq!(downgrade_tile_tick(&mut unknown, &table()), Err(ConvertError::LookupMiss));
}

#[test]
fn villager_offers_are_downgraded() {
    let recipe = compound(vec![
        ("buy", Tag::Compound(compound(vec![("id", text("minecraft:diamond"))]))),
        ("sell", Tag::Compound(compound(vec![("id", text("minecraft:stone"))]))),
        ("buyB", Tag::Compound(compound(vec![("id", text("minecraft:chest"))]))),
        ("rewardExp", Tag::Byte(1)),
        ("uses", Tag::Int(2)),
    ]);
    let mut villager = compound(vec![
        ("id", text("Villager")),
        ("Career", Tag::Int(1)),
        ("Equipment", Tag::List(vec![])),
        ("Offers", Tag::Compound(compound(vec![("Recipes", Tag::List(vec![Tag::Compound(recipe)]))]))),
    ]);
    assert_eq!(downgrade_entity(&mut villager, &table()), Ok(()));
    assert_eq!(villager.get("Career"), None);
    let offers = villager.get("Offers").unwrap().as_compound().unwrap();
    match offers.get("Recipes") {
        Some(Tag::List(l)) => {
            let r = l[0].as_compound().unwrap();
            assert_eq!(r.get("rewardExp"), None);
            assert_eq!(r.get("uses"), Some(&Tag::Int(2)));
            assert_eq!(r.get("buy").unwrap().as_compound().unwrap().get("id"), Some(&Tag::Short(264)));
            assert_eq!(r.get("sell").unwrap().as_compound().unwrap().get("id"), Some(&Tag::Short(1)));
            assert_eq!(r.get("buyB").unwrap().as_compound().unwrap().get("id"), Some(&Tag::Short(54)));
        }
        other => panic!("recipes: {:?}", other),
    }
}

#[test]
fn record_player_item_is_downgraded() {
    let mut jukebox = compound(vec![
        ("id", text("RecordPlayer")),
        ("Record", Tag::Int(2256)),
        ("RecordItem", Tag::Compound(compound(vec![("id", text("minecraft:diamond"))]))),
    ]);
    assert_eq!(downgrade_tile_entity(&mut jukebox, &table()), Ok(()));
    assert_eq!(jukebox.get("Record"), Some(&Tag::Int(2256)));
    assert_eq!(jukebox.get("RecordItem").unwrap().as_compound().unwrap().get("id"), Some(&Tag::Short(264)));
}

#[test]
fn chunk_errors_by_kind() {
    let level = |ticks: Vec<Tag>| {
        compound(vec![(
            "Level",
            Tag::Compound(compound(vec![
                ("Entities", Tag::List(vec![])),
                ("TileEntities", Tag::List(vec![])),
                ("TileTicks", Tag::List(ticks)),
            ])),
        )])
    };
    let mut unknown = level(vec![Tag::Compound(compound(vec![("i", text("minecraft:nothing"))]))]);
    assert_eq!(downgrade_chunk(&mut unknown, &table()), Err(ConvertError::LookupMiss));
    let mut bare = level(vec![Tag::Compound(compound(vec![("t", Tag::Int(1))]))]);
    assert_eq!(downgrade_chunk(&mut bare, &table()), Err(ConvertError::Malformed));
    let mut no_tiles = compound(vec![("Level", Tag::Compound(compound(vec![("Entities", Tag::List(vec![]))])))]);
    assert_eq!(downgrade_chunk(&mut no_tiles, &table()), Err(ConvertError::Malformed));
}
