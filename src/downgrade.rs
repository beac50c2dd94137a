//! Rewriting chunk records of the newer format into the older one.

use vstd::prelude::*;
use crate::error::ConvertError;
use crate::ids::IdTable;
use crate::tag::{bound_last, key_is, lemma_lookup_with_last, lemma_without_twice, lookup, without, Compound, Tag};

verus! {

/// The error of the first element of `l` that fails, by `f`; `None` where
/// none does.
pub open spec fn first_error(l: Seq<Tag>, f: spec_fn(Tag) -> Option<ConvertError>) -> Option<ConvertError>
    decreases l.len(),
{
    if l.len() == 0 {
        None
    } else if f(l[0]) is Some {
        f(l[0])
    } else {
        first_error(l.drop_first(), f)
    }
}

/// The first error in `l` from position `i` on is that of `i`, or it comes
/// after `i`.
pub proof fn lemma_first_error_step(l: Seq<Tag>, i: int, f: spec_fn(Tag) -> Option<ConvertError>)
    requires
        0 <= i < l.len(),
    ensures
        first_error(l.subrange(i, l.len() as int), f)
            == if f(l[i]) is Some { f(l[i]) } else { first_error(l.subrange(i + 1, l.len() as int), f) },
{
    assert(l.subrange(i, l.len() as int).drop_first() == l.subrange(i + 1, l.len() as int));
}

/// Whether item stack `new` is `old` downgraded: a string `id` is replaced
/// by its legacy numeric identifier, anything else is kept.
pub open spec fn item_stack_downgraded(old: Seq<(String, Tag)>, new: Seq<(String, Tag)>, table: IdTable) -> bool {
    match lookup(old, "id"@) {
        Some(Tag::String(s)) => match table.get_spec(s@) {
            Some(n) => bound_last(new, old, "id"@, Tag::Short(n)),
            None => false,
        },
        _ => new == old,
    }
}

/// Whether item stack `c` holds a string `id` that the table lacks.
pub open spec fn item_stack_misses(c: Seq<(String, Tag)>, table: IdTable) -> bool {
    match lookup(c, "id"@) {
        Some(Tag::String(s)) => table.get_spec(s@) is None,
        _ => false,
    }
}

/// Whether item stack `c` cannot be downgraded: it has no `id`, or a string
/// `id` that the table lacks.
pub open spec fn item_stack_fails(c: Seq<(String, Tag)>, table: IdTable) -> bool {
    lookup(c, "id"@) is None || item_stack_misses(c, table)
}

/// Replaces a string `id` of an item stack with its legacy numeric one. A
/// stack without `id` is malformed.
pub fn downgrade_item_stack(item_stack: &mut Compound, table: &IdTable) -> (r: Result<(), ConvertError>)
    ensures
        lookup(old(item_stack).entries@, "id"@) is None ==> r == Err::<(), ConvertError>(ConvertError::Malformed)
            && *final(item_stack) == *old(item_stack),
        item_stack_misses(old(item_stack).entries@, *table) ==> r == Err::<(), ConvertError>(ConvertError::LookupMiss)
            && *final(item_stack) == *old(item_stack),
        !item_stack_fails(old(item_stack).entries@, *table) ==> r is Ok
            && item_stack_downgraded(old(item_stack).entries@, final(item_stack).entries@, *table),
{
    let n = match item_stack.get("id") {
        Some(Tag::String(ident)) => match table.new_to_old(ident.as_str()) {
            Some(n) => n,
            None => return Err(ConvertError::LookupMiss),
        },
        Some(_) => return Ok(()),
        None => return Err(ConvertError::Malformed),
    };
    item_stack.insert("id", Tag::Short(n));
    Ok(())
}

/// Whether `new` is the item-stack value `old` downgraded.
pub open spec fn item_tag_downgraded(old: Tag, new: Tag, table: IdTable) -> bool {
    match (old, new) {
        (Tag::Compound(o), Tag::Compound(n)) => item_stack_downgraded(o.entries@, n.entries@, table),
        _ => false,
    }
}

/// Whether the value `t` cannot be downgraded as an item stack.
pub open spec fn item_tag_fails(t: Tag, table: IdTable) -> bool {
    match t {
        Tag::Compound(c) => item_stack_fails(c.entries@, table),
        _ => true,
    }
}

/// Whether the value `t` is an item stack with a string `id` that the table lacks.
pub open spec fn item_tag_misses(t: Tag, table: IdTable) -> bool {
    match t {
        Tag::Compound(c) => item_stack_misses(c.entries@, table),
        _ => false,
    }
}

/// Why a value cannot be downgraded as an item stack, if it cannot.
pub open spec fn item_error(t: Tag, table: IdTable) -> Option<ConvertError> {
    if !item_tag_fails(t, table) {
        None
    } else if item_tag_misses(t, table) {
        Some(ConvertError::LookupMiss)
    } else {
        Some(ConvertError::Malformed)
    }
}

/// `a` where it is an error, else `b`: the first of two checks that fails.
pub open spec fn or_else(a: Option<ConvertError>, b: Option<ConvertError>) -> Option<ConvertError> {
    if a is Some { a } else { b }
}

/// Whether `r` is the outcome that error `e` calls for: `Ok` for none.
pub open spec fn outcome(r: Result<(), ConvertError>, e: Option<ConvertError>) -> bool {
    match e {
        None => r is Ok,
        Some(x) => r == Err::<(), ConvertError>(x),
    }
}

/// Downgrades a value that must be an item stack.
pub fn downgrade_item_tag(t: &mut Tag, table: &IdTable) -> (r: Result<(), ConvertError>)
    ensures
        r is Ok <==> !item_tag_fails(*old(t), *table),
        r is Ok ==> item_tag_downgraded(*old(t), *final(t), *table),
        r matches Err(e) ==> e == (if item_tag_misses(*old(t), *table) { ConvertError::LookupMiss } else { ConvertError::Malformed }),
{
    match t {
        Tag::Compound(c) => downgrade_item_stack(c, table),
        _ => Err(ConvertError::Malformed),
    }
}

/// Downgrades each item stack of a list, in order; fails on the first one
/// that cannot be downgraded.
pub fn downgrade_item_list(items: &mut Vec<Tag>, table: &IdTable) -> (r: Result<(), ConvertError>)
    ensures
        r is Ok <==> forall|i: int| 0 <= i < old(items)@.len() ==> !item_tag_fails(#[trigger] old(items)@[i], *table),
        outcome(r, first_error(old(items)@, |t: Tag| item_error(t, *table))),
        r is Ok ==> final(items)@.len() == old(items)@.len() && forall|i: int| 0 <= i < old(items)@.len()
            ==> item_tag_downgraded(#[trigger] old(items)@[i], final(items)@[i], *table),
{
    let ghost orig = items@;
    let mut rest: Vec<Tag> = Vec::new();
    core::mem::swap(&mut rest, items);
    let ghost mut i: int = 0;
    assert(orig.subrange(0, orig.len() as int) == orig);
    while rest.len() > 0
        invariant
            0 <= i <= orig.len(),
            orig == old(items)@,
            rest@ == orig.subrange(i, orig.len() as int),
            items@.len() == i,
            forall|j: int| 0 <= j < i ==> !item_tag_fails(#[trigger] orig[j], *table),
            forall|j: int| 0 <= j < i ==> item_tag_downgraded(#[trigger] orig[j], items@[j], *table),
            first_error(orig, |t: Tag| item_error(t, *table))
                == first_error(orig.subrange(i, orig.len() as int), |t: Tag| item_error(t, *table)),
        decreases rest@.len(),
    {
        let mut t = rest.remove(0);
        assert(t == orig[i]);
        proof { lemma_first_error_step(orig, i, |t: Tag| item_error(t, *table)); }
        let res = downgrade_item_tag(&mut t, table);
        if res.is_err() {
            assert(item_tag_fails(orig[i], *table));
            return res;
        }
        items.push(t);
        proof { i = i + 1; }
    }
    assert(orig.subrange(i, orig.len() as int).len() == 0);
    Ok(())
}

/// What a rich-text value reads as.
#[derive(Debug, Clone, PartialEq, Eq)]
pub enum SignPayload {
    /// The JSON value `null`.
    Null,
    /// A JSON string, with its contents.
    Text(String),
    /// A JSON number, as serde_json writes it.
    Number(String),
    /// Any other JSON value.
    Other,
    /// Text that is not JSON.
    NotJson,
}

/// What serde_json reads a text as.
pub uninterp spec fn json_reading(text: Seq<char>) -> SignPayload;

/// Relies on `serde_json::from_str::<serde_json::Value>` to parse the text,
/// and on serde_json's `Number` display to write a number back.
#[verifier::external_body]
fn read_json(text: &str) -> (r: SignPayload)
    ensures
        r == json_reading(text@),
{
    match serde_json::from_str::<serde_json::Value>(text) {
        Ok(serde_json::Value::Null) => SignPayload::Null,
        Ok(serde_json::Value::String(s)) => SignPayload::Text(s),
        Ok(serde_json::Value::Number(n)) => SignPayload::Number(n.to_string()),
        Ok(serde_json::Value::Bool(_)) => SignPayload::Other,
        Ok(serde_json::Value::Array(_)) => SignPayload::Other,
        Ok(serde_json::Value::Object(_)) => SignPayload::Other,
        Err(_) => SignPayload::NotJson,
    }
}

/// The plain text of a sign line: empty for null, the contents of a string,
/// the digits of a number, the raw text where it is not JSON; `None` for
/// any other value.
pub open spec fn rendered(p: SignPayload, raw: Seq<char>) -> Option<Seq<char>> {
    match p {
        SignPayload::Null => Some(Seq::empty()),
        SignPayload::Text(s) => Some(s@),
        SignPayload::Number(n) => Some(n@),
        SignPayload::Other => None,
        SignPayload::NotJson => Some(raw),
    }
}

/// Renders a parsed sign line as plain text; `raw` is the line as stored.
pub fn render_sign_payload(p: SignPayload, raw: String) -> (r: Result<String, ConvertError>)
    ensures
        match rendered(p, raw@) {
            Some(t) => r matches Ok(s) && s@ == t,
            None => r == Err::<String, ConvertError>(ConvertError::UnsupportedPayload),
        },
{
    match p {
        SignPayload::Null => Ok(String::new()),
        SignPayload::Text(s) => Ok(s),
        SignPayload::Number(n) => Ok(n),
        SignPayload::Other => Err(ConvertError::UnsupportedPayload),
        SignPayload::NotJson => Ok(raw),
    }
}

/// Replaces the rich-text line `text_key` of a sign with its plain text.
/// A line that is absent or not a string is malformed.
pub fn downgrade_sign_text(sign: &mut Compound, text_key: &str) -> (r: Result<(), ConvertError>)
    ensures
        match lookup(old(sign).entries@, text_key@) {
            Some(Tag::String(s0)) => match rendered(json_reading(s0@), s0@) {
                Some(t) => r is Ok && {
                    &&& final(sign).entries@.drop_last() == without(old(sign).entries@, text_key@)
                    &&& final(sign).entries@.last().0@ == text_key@
                    &&& lookup(final(sign).entries@, text_key@) matches Some(Tag::String(s)) && s@ == t
                    &&& forall|j: Seq<char>| j != text_key@ ==> #[trigger] lookup(final(sign).entries@, j)
                        == lookup(old(sign).entries@, j)
                },
                None => r == Err::<(), ConvertError>(ConvertError::UnsupportedPayload)
                    && final(sign).entries@ == old(sign).entries@,
            },
            _ => r == Err::<(), ConvertError>(ConvertError::Malformed) && final(sign).entries@ == old(sign).entries@,
        },
{
    let raw = match sign.get(text_key) {
        Some(Tag::String(s)) => s.clone(),
        _ => return Err(ConvertError::Malformed),
    };
    let payload = read_json(raw.as_str());
    let text = match render_sign_payload(payload, raw) {
        Ok(text) => text,
        Err(e) => return Err(e),
    };
    sign.insert(text_key, Tag::String(text));
    Ok(())
}

/// The living, equipped entities, which share a common rule set.
pub open spec fn is_mob(id: Seq<char>) -> bool {
    id == "Mob"@
        || id == "Monster"@
        || id == "Creeper"@
        || id == "Skeleton"@
        || id == "Spider"@
        || id == "Giant"@
        || id == "Zombie"@
        || id == "Slime"@
        || id == "Ghast"@
        || id == "PigZombie"@
        || id == "Enderman"@
        || id == "CaveSpider"@
        || id == "Silverfish"@
        || id == "Blaze"@
        || id == "LavaSlime"@
        || id == "EnderDragon"@
        || id == "WitherBoss"@
        || id == "Bat"@
        || id == "Witch"@
        || id == "Pig"@
        || id == "Sheep"@
        || id == "Cow"@
        || id == "Chicken"@
        || id == "Squid"@
        || id == "Wolf"@
        || id == "MushroomCow"@
        || id == "SnowMan"@
        || id == "Ozelot"@
        || id == "VillagerGolem"@
        || id == "Villager"@
}

/// The breedable entities, which carry a forced age.
pub open spec fn is_passive(id: Seq<char>) -> bool {
    id == "Pig"@
        || id == "Sheep"@
        || id == "Cow"@
        || id == "Chicken"@
        || id == "Wolf"@
        || id == "MushroomCow"@
        || id == "Ozelot"@
        || id == "Villager"@
}

/// The entities with a block reference `inTile`: arrows and thrown or
/// explosive projectiles.
pub open spec fn is_projectile(id: Seq<char>) -> bool {
    id == "Arrow"@
        || id == "Snowball"@
        || id == "ThrownEnderpearl"@
        || id == "ThrownPotion"@
        || id == "ThrownExpBottle"@
        || id == "Fireball"@
        || id == "SmallFireball"@
        || id == "WitherSkull"@
}

fn mob_id(id: &String) -> (r: bool)
    ensures
        r == is_mob(id@),
{
    key_is(id, "Mob")
        || key_is(id, "Monster")
        || key_is(id, "Creeper")
        || key_is(id, "Skeleton")
        || key_is(id, "Spider")
        || key_is(id, "Giant")
        || key_is(id, "Zombie")
        || key_is(id, "Slime")
        || key_is(id, "Ghast")
        || key_is(id, "PigZombie")
        || key_is(id, "Enderman")
        || key_is(id, "CaveSpider")
        || key_is(id, "Silverfish")
        || key_is(id, "Blaze")
        || key_is(id, "LavaSlime")
        || key_is(id, "EnderDragon")
        || key_is(id, "WitherBoss")
        || key_is(id, "Bat")
        || key_is(id, "Witch")
        || key_is(id, "Pig")
        || key_is(id, "Sheep")
        || key_is(id, "Cow")
        || key_is(id, "Chicken")
        || key_is(id, "Squid")
        || key_is(id, "Wolf")
        || key_is(id, "MushroomCow")
        || key_is(id, "SnowMan")
        || key_is(id, "Ozelot")
        || key_is(id, "VillagerGolem")
        || key_is(id, "Villager")
}

fn passive_id(id: &String) -> (r: bool)
    ensures
        r == is_passive(id@),
{
    key_is(id, "Pig")
        || key_is(id, "Sheep")
        || key_is(id, "Cow")
        || key_is(id, "Chicken")
        || key_is(id, "Wolf")
        || key_is(id, "MushroomCow")
        || key_is(id, "Ozelot")
        || key_is(id, "Villager")
}

fn projectile_id(id: &String) -> (r: bool)
    ensures
        r == is_projectile(id@),
{
    key_is(id, "Arrow")
        || key_is(id, "Snowball")
        || key_is(id, "ThrownEnderpearl")
        || key_is(id, "ThrownPotion")
        || key_is(id, "ThrownExpBottle")
        || key_is(id, "Fireball")
        || key_is(id, "SmallFireball")
        || key_is(id, "WitherSkull")
}

/// Whether the target version lacks field `k` of an entity with id `id`.
pub open spec fn entity_drops(id: Seq<char>, k: Seq<char>) -> bool {
    ||| id == "Item"@ && (k == "PickupDelay"@ || k == "Thrower"@ || k == "Owner"@)
    ||| id == "Arrow"@ && k == "life"@
    ||| id == "FallingSand"@ && k == "TileEntityData"@
    ||| is_mob(id) && (k == "HurtByTimestamp"@ || k == "HealF"@ || k == "Attributes"@
        || k == "AbsorptionAmount"@ || k == "Leashed"@ || k == "Leash"@ || k == "NoAI"@)
    ||| (id == "Zombie"@ || id == "PigZombie"@) && k == "CanBreakDoors"@
    ||| (id == "Slime"@ || id == "LavaSlime"@) && k == "wasOnGround"@
    ||| id == "PigZombie"@ && k == "HurtBy"@
    ||| is_passive(id) && k == "ForcedAge"@
    ||| id == "Chicken"@ && (k == "EggLayTime"@ || k == "IsChickenJockey"@)
    ||| id == "Villager"@ && (k == "Career"@ || k == "CareerLevel"@ || k == "Willing"@ || k == "Inventory"@)
}

/// Takes out the fields of an entity that the target version lacks.
fn drop_entity_fields(entity: &mut Compound, id: &String)
    ensures
        forall|k: Seq<char>| entity_drops(id@, k) ==> lookup(final(entity).entries@, k) is None,
        forall|k: Seq<char>| lookup(old(entity).entries@, k) is None ==> lookup(final(entity).entries@, k) is None,
        forall|k: Seq<char>| !entity_drops(id@, k) ==> #[trigger] lookup(final(entity).entries@, k)
            == lookup(old(entity).entries@, k),
{
    if key_is(id, "Item") {
        entity.remove("PickupDelay");
        entity.remove("Thrower");
        entity.remove("Owner");
    }
    if key_is(id, "Arrow") {
        entity.remove("life");
    }
    if key_is(id, "FallingSand") {
        entity.remove("TileEntityData");
    }
    if mob_id(id) {
        entity.remove("HurtByTimestamp");
        entity.remove("HealF");
        entity.remove("Attributes");
        entity.remove("AbsorptionAmount");
        entity.remove("Leashed");
        entity.remove("Leash");
        entity.remove("NoAI");
    }
    if key_is(id, "Zombie") || key_is(id, "PigZombie") {
        entity.remove("CanBreakDoors");
    }
    if key_is(id, "Slime") || key_is(id, "LavaSlime") {
        entity.remove("wasOnGround");
    }
    if key_is(id, "PigZombie") {
        entity.remove("HurtBy");
    }
    if passive_id(id) {
        entity.remove("ForcedAge");
    }
    if key_is(id, "Chicken") {
        entity.remove("EggLayTime");
        entity.remove("IsChickenJockey");
    }
    if key_is(id, "Villager") {
        entity.remove("Career");
        entity.remove("CareerLevel");
        entity.remove("Willing");
        entity.remove("Inventory");
    }
}

/// The value of an integer field of any width.
pub open spec fn int_value(t: Tag) -> Option<int> {
    match t {
        Tag::Byte(v) => Some(v as int),
        Tag::Short(v) => Some(v as int),
        Tag::Int(v) => Some(v as int),
        Tag::Long(v) => Some(v as int),
        _ => None,
    }
}

/// Reads an integer field of any width.
pub fn tag_as_i64(t: &Tag) -> (r: Option<i64>)
    ensures
        match int_value(*t) {
            Some(v) => r matches Some(x) && x as int == v,
            None => r is None,
        },
{
    match t {
        Tag::Byte(v) => Some(*v as i64),
        Tag::Short(v) => Some(*v as i64),
        Tag::Int(v) => Some(*v as i64),
        Tag::Long(v) => Some(*v),
        _ => None,
    }
}

/// How a decoration entity facing `f` moves its anchor tile, as
/// `(dx, dz)`: facing 0 is one tile towards negative z, 1 towards positive
/// x, 2 towards positive z, 3 towards negative x. Other values do not move it.
pub open spec fn facing_shift(f: int) -> (int, int) {
    if f == 0 {
        (0, -1)
    } else if f == 1 {
        (1, 0)
    } else if f == 2 {
        (0, 1)
    } else if f == 3 {
        (-1, 0)
    } else {
        (0, 0)
    }
}

/// The legacy direction byte and anchor shift `(direction, dx, dz)` of a
/// facing value. The direction byte keeps the facing's number.
pub fn facing_to_direction(facing: i8) -> (r: (i8, i32, i32))
    ensures
        r.0 == facing,
        r.1 as int == facing_shift(facing as int).0,
        r.2 as int == facing_shift(facing as int).1,
{
    if facing == 0 {
        (facing, 0, -1)
    } else if facing == 1 {
        (facing, 1, 0)
    } else if facing == 2 {
        (facing, 0, 1)
    } else if facing == 3 {
        (facing, -1, 0)
    } else {
        (facing, 0, 0)
    }
}

/// On the four legal facings the conversion is one to one, and each moves
/// the anchor by one tile along exactly one horizontal axis.
pub proof fn lemma_facing_bijective(f: int, g: int)
    requires
        0 <= f <= 3,
        0 <= g <= 3,
    ensures
        f != g ==> facing_shift(f) != facing_shift(g),
        (facing_shift(f).0 == 0) != (facing_shift(f).1 == 0),
        facing_shift(f).0 * facing_shift(f).0 + facing_shift(f).1 * facing_shift(f).1 == 1,
{
}

/// Half an item-frame rotation, rounded towards zero.
pub open spec fn halved(r: i8) -> int {
    if r >= 0 { r as int / 2 } else { -((-(r as int)) / 2) }
}

/// Half an item-frame rotation, rounded towards zero.
pub fn halve_rotation(r: i8) -> (h: i8)
    ensures
        h as int == halved(r),
{
    let v = r as i16;
    let w: i16 = if v >= 0 { v / 2 } else { -((-v) / 2) };
    w as i8
}

/// The stored byte of a legacy block number: 128 to 255 wrap to negative
/// bytes. `None` outside a byte's range.
pub fn legacy_block_byte(n: i16) -> (r: Option<i8>)
    ensures
        0 <= n <= 127 ==> r == Some(n as i8),
        128 <= n <= 255 ==> r == Some((n - 256) as i8),
        (n < 0 || n > 255) ==> r is None,
{
    if 0 <= n && n <= 127 {
        Some(n as i8)
    } else if 128 <= n && n <= 255 {
        Some((n - 256) as i8)
    } else {
        None
    }
}

/// Whether anchor coordinate `key` is an integer that stays within 32 bits
/// when moved by `d`.
pub open spec fn tile_ok(c: Seq<(String, Tag)>, key: Seq<char>, d: int) -> bool {
    lookup(c, key) matches Some(t) && int_value(t) matches Some(v) && i32::MIN <= v + d <= i32::MAX
}

/// Moves an anchor coordinate by `d`; it must be an integer that stays
/// within 32 bits.
fn shift_tile(entity: &mut Compound, key: &str, d: i32) -> (r: Result<(), ConvertError>)
    requires
        -1 <= d <= 1,
    ensures
        tile_ok(old(entity).entries@, key@, d as int) ==> r is Ok,
        r is Ok <==> tile_ok(old(entity).entries@, key@, d as int),
        r is Err ==> r == Err::<(), ConvertError>(ConvertError::Malformed),
        r is Ok ==> (lookup(old(entity).entries@, key@) matches Some(t) && int_value(t) matches Some(v)
            && bound_last(final(entity).entries@, old(entity).entries@, key@, Tag::Int((v + d) as i32))
            && forall|j: Seq<char>| #[trigger] lookup(final(entity).entries@, j)
                == if j == key@ { Some(Tag::Int((v + d) as i32)) } else { lookup(old(entity).entries@, j) }),
{
    let v = match entity.get(key) {
        Some(t) => match tag_as_i64(t) {
            Some(v) => v,
            None => return Err(ConvertError::Malformed),
        },
        None => return Err(ConvertError::Malformed),
    };
    if v < -2147483648 - d as i64 || v > 2147483647 - d as i64 {
        return Err(ConvertError::Malformed);
    }
    let moved = (v + d as i64) as i32;
    entity.insert(key, Tag::Int(moved));
    Ok(())
}

/// Whether the `Facing` of an entity, if any, can be converted: an integer
/// that fits a byte, with each anchor coordinate that it moves an integer
/// that stays within 32 bits.
pub open spec fn facing_ok(c: Seq<(String, Tag)>) -> bool {
    match lookup(c, "Facing"@) {
        None => true,
        Some(t) => match int_value(t) {
            Some(f) => -128 <= f <= 127
                && (facing_shift(f).1 != 0 ==> tile_ok(c, "TileZ"@, facing_shift(f).1))
                && (facing_shift(f).0 != 0 ==> tile_ok(c, "TileX"@, facing_shift(f).0)),
            None => false,
        },
    }
}

/// Whether `new` holds the legacy form of the facing of `old`: `Facing`
/// gone, `Direction` its byte, the anchor moved one tile as `facing_shift`
/// says, and an item-frame rotation halved. Without `Facing`, those fields
/// are as they were.
pub open spec fn facing_converted(old: Seq<(String, Tag)>, new: Seq<(String, Tag)>) -> bool {
    match lookup(old, "Facing"@) {
        None => {
            &&& lookup(new, "Facing"@) is None
            &&& lookup(new, "Direction"@) == lookup(old, "Direction"@)
            &&& lookup(new, "TileX"@) == lookup(old, "TileX"@)
            &&& lookup(new, "TileZ"@) == lookup(old, "TileZ"@)
            &&& lookup(new, "ItemRotation"@) == lookup(old, "ItemRotation"@)
        },
        Some(ft) => {
            let f = int_value(ft).unwrap();
            let (dx, dz) = facing_shift(f);
            &&& int_value(ft) is Some && -128 <= f <= 127
            &&& lookup(new, "Facing"@) is None
            &&& lookup(new, "Direction"@) == Some(Tag::Byte(f as i8))
            &&& dz != 0 ==> (lookup(old, "TileZ"@) matches Some(z) && int_value(z) matches Some(zv)
                && lookup(new, "TileZ"@) == Some(Tag::Int((zv + dz) as i32)))
            &&& dx != 0 ==> (lookup(old, "TileX"@) matches Some(x) && int_value(x) matches Some(xv)
                && lookup(new, "TileX"@) == Some(Tag::Int((xv + dx) as i32)))
            &&& dz == 0 ==> lookup(new, "TileZ"@) == lookup(old, "TileZ"@)
            &&& dx == 0 ==> lookup(new, "TileX"@) == lookup(old, "TileX"@)
            &&& match lookup(old, "ItemRotation"@) {
                Some(Tag::Byte(rot)) => lookup(new, "ItemRotation"@) == Some(Tag::Byte(halved(rot) as i8)),
                other => lookup(new, "ItemRotation"@) == other,
            }
        },
    }
}

/// Turns the unified `Facing` of a decoration entity into the legacy
/// `Direction` byte, moves the anchor tile to match, and halves an
/// item-frame rotation. Entities without `Facing` are left alone.
pub fn convert_facing(entity: &mut Compound) -> (r: Result<(), ConvertError>)
    ensures
        facing_ok(old(entity).entries@) ==> r is Ok,
        outcome(r, if facing_ok(old(entity).entries@) { None } else { Some(ConvertError::Malformed) }),
        lookup(old(entity).entries@, "Facing"@) is None ==> r is Ok && *final(entity) == *old(entity),
        lookup(old(entity).entries@, "Facing"@) matches Some(t) && int_value(t) is None
            ==> r == Err::<(), ConvertError>(ConvertError::Malformed),
        r is Ok ==> facing_converted(old(entity).entries@, final(entity).entries@),
        r is Ok ==> forall|j: Seq<char>| j != "Facing"@ && j != "Direction"@ && j != "TileX"@ && j != "TileZ"@
            && j != "ItemRotation"@ ==> #[trigger] lookup(final(entity).entries@, j) == lookup(old(entity).entries@, j),
{
    proof {
        lemma_names_distinct();
    }
    let f: i8 = match entity.get("Facing") {
        None => return Ok(()),
        Some(t) => match tag_as_i64(t) {
            Some(v) => if -128 <= v && v <= 127 {
                v as i8
            } else {
                return Err(ConvertError::Malformed);
            },
            None => return Err(ConvertError::Malformed),
        },
    };
    entity.remove("Facing");
    let (direction, dx, dz) = facing_to_direction(f);
    entity.insert("Direction", Tag::Byte(direction));
    if dz != 0 {
        shift_tile(entity, "TileZ", dz)?;
    }
    if dx != 0 {
        shift_tile(entity, "TileX", dx)?;
    }
    let rotation = match entity.get("ItemRotation") {
        Some(Tag::Byte(r)) => Some(*r),
        _ => None,
    };
    if let Some(r) = rotation {
        let h = halve_rotation(r);
        entity.insert("ItemRotation", Tag::Byte(h));
    }
    Ok(())
}

/// The stored byte of legacy block number `n`, 0 to 255.
pub open spec fn legacy_byte(n: i16) -> i8 {
    if n <= 127 { n as i8 } else { (n - 256) as i8 }
}

/// Whether block reference `key` of `new` is that of `old` downgraded: a
/// string identifier becomes the byte of its legacy number; anything else,
/// or nothing, stays.
pub open spec fn block_ref_done(old: Seq<(String, Tag)>, new: Seq<(String, Tag)>, key: Seq<char>, table: IdTable) -> bool {
    match lookup(old, key) {
        Some(Tag::String(s)) => table.get_spec(s@) matches Some(n) && 0 <= n <= 255
            && lookup(new, key) == Some(Tag::Byte(legacy_byte(n))),
        other => lookup(new, key) == other,
    }
}

/// Why item stack `key` cannot be downgraded, if it cannot; a missing one is
/// an error only where it is `required`.
pub open spec fn item_field_error(c: Seq<(String, Tag)>, key: Seq<char>, required: bool, table: IdTable) -> Option<ConvertError> {
    match lookup(c, key) {
        Some(t) => item_error(t, table),
        None => if required { Some(ConvertError::Malformed) } else { None },
    }
}

/// Why block reference `key` cannot be downgraded, if it cannot.
pub open spec fn block_ref_error(c: Seq<(String, Tag)>, key: Seq<char>, required: bool, table: IdTable) -> Option<ConvertError> {
    match lookup(c, key) {
        Some(Tag::String(s)) => match table.get_spec(s@) {
            Some(n) => if 0 <= n <= 255 { None } else { Some(ConvertError::Malformed) },
            None => Some(ConvertError::LookupMiss),
        },
        Some(_) => None,
        None => if required { Some(ConvertError::Malformed) } else { None },
    }
}

/// Whether item stack `key` of `new`, if `old` has one, is it downgraded.
pub open spec fn item_field_done(old: Seq<(String, Tag)>, new: Seq<(String, Tag)>, key: Seq<char>, table: IdTable) -> bool {
    match lookup(old, key) {
        Some(t) => lookup(new, key) matches Some(t2) && item_tag_downgraded(t, t2, table),
        None => lookup(new, key) is None,
    }
}

/// Whether list `key` of `new` holds the item stacks of that of `old`,
/// each downgraded, in order.
pub open spec fn item_list_done(old: Seq<(String, Tag)>, new: Seq<(String, Tag)>, key: Seq<char>, table: IdTable) -> bool {
    lookup(old, key) matches Some(Tag::List(ol)) && lookup(new, key) matches Some(Tag::List(nl))
        && nl@.len() == ol@.len()
        && forall|i: int| 0 <= i < ol@.len() ==> item_tag_downgraded(#[trigger] ol@[i], nl@[i], table)
}

/// Whether each effect record of `new` is that of `old` without `ShowParticles`.
pub open spec fn effect_list_done(old: Seq<Tag>, new: Seq<Tag>) -> bool {
    new.len() == old.len() && forall|i: int| 0 <= i < old.len() ==> (#[trigger] old[i] matches Tag::Compound(o)
        && new[i] matches Tag::Compound(n) && n.entries@ == without(o.entries@, "ShowParticles"@))
}

/// Whether a trade offer `new` is `old` downgraded: its reward experience
/// gone, the stacks it buys and sells downgraded, the rest kept.
pub open spec fn recipe_done(old: Seq<(String, Tag)>, new: Seq<(String, Tag)>, table: IdTable) -> bool {
    &&& lookup(new, "rewardExp"@) is None
    &&& item_field_done(old, new, "buy"@, table)
    &&& item_field_done(old, new, "sell"@, table)
    &&& item_field_done(old, new, "buyB"@, table)
    &&& forall|k: Seq<char>| k != "rewardExp"@ && k != "buy"@ && k != "sell"@ && k != "buyB"@
        ==> #[trigger] lookup(new, k) == lookup(old, k)
}

/// Whether the offers record `new` is `old` with each trade offer downgraded.
pub open spec fn offers_done(old: Seq<(String, Tag)>, new: Seq<(String, Tag)>, table: IdTable) -> bool {
    &&& lookup(old, "Recipes"@) matches Some(Tag::List(ol)) && lookup(new, "Recipes"@) matches Some(Tag::List(nl))
        && nl@.len() == ol@.len() && forall|i: int| 0 <= i < ol@.len() ==> (#[trigger] ol@[i] matches Tag::Compound(a)
            && nl@[i] matches Tag::Compound(b) && recipe_done(a.entries@, b.entries@, table))
    &&& forall|k: Seq<char>| k != "Recipes"@ ==> #[trigger] lookup(new, k) == lookup(old, k)
}

/// Whether block reference `key` can be downgraded: a string identifier
/// with a legacy number that fits a byte, any other value, or, unless
/// `required`, nothing.
pub open spec fn block_ref_ok(c: Seq<(String, Tag)>, key: Seq<char>, required: bool, table: IdTable) -> bool {
    match lookup(c, key) {
        Some(Tag::String(s)) => table.get_spec(s@) matches Some(n) && 0 <= n <= 255,
        Some(_) => true,
        None => !required,
    }
}

/// Replaces the block reference `key` with its legacy byte where it is a
/// string identifier. With `required`, a missing field is malformed.
fn downgrade_block_ref(c: &mut Compound, key: &str, required: bool, table: &IdTable) -> (r: Result<(), ConvertError>)
    ensures
        r is Ok ==> match lookup(old(c).entries@, key@) {
            Some(Tag::String(s)) => table.get_spec(s@) matches Some(n) && 0 <= n <= 255
                && bound_last(final(c).entries@, old(c).entries@, key@,
                    Tag::Byte(if n <= 127 { n as i8 } else { (n - 256) as i8 })),
            Some(_) => *final(c) == *old(c),
            None => !required && *final(c) == *old(c),
        },
        lookup(old(c).entries@, key@) matches Some(Tag::String(s)) && table.get_spec(s@) is None
            ==> r == Err::<(), ConvertError>(ConvertError::LookupMiss),
        block_ref_ok(old(c).entries@, key@, required, *table) ==> r is Ok,
        r is Ok ==> block_ref_done(old(c).entries@, final(c).entries@, key@, *table),
        outcome(r, block_ref_error(old(c).entries@, key@, required, *table)),
        r is Ok ==> forall|j: Seq<char>| j != key@ ==> #[trigger] lookup(final(c).entries@, j)
            == lookup(old(c).entries@, j),
{
    let n = match c.get(key) {
        Some(Tag::String(s)) => match table.new_to_old(s.as_str()) {
            Some(n) => n,
            None => return Err(ConvertError::LookupMiss),
        },
        Some(_) => return Ok(()),
        None => return if required { Err(ConvertError::Malformed) } else { Ok(()) },
    };
    let b = match legacy_block_byte(n) {
        Some(b) => b,
        None => return Err(ConvertError::Malformed),
    };
    c.insert(key, Tag::Byte(b));
    Ok(())
}

/// Downgrades the item stack under `key`; with `required`, a missing one is
/// malformed.
fn downgrade_item_field(c: &mut Compound, key: &str, required: bool, table: &IdTable) -> (r: Result<(), ConvertError>)
    ensures
        r is Ok ==> match lookup(old(c).entries@, key@) {
            Some(t) => exists|t2: Tag| item_tag_downgraded(t, t2, *table)
                && bound_last(final(c).entries@, old(c).entries@, key@, t2),
            None => !required && final(c).entries@ == old(c).entries@,
        },
        required && lookup(old(c).entries@, key@) is None ==> r == Err::<(), ConvertError>(ConvertError::Malformed),
        lookup(old(c).entries@, key@) matches Some(t) ==> (r is Ok <==> !item_tag_fails(t, *table)),
        r matches Err(e) ==> match lookup(old(c).entries@, key@) {
            Some(t) => e == (if item_tag_misses(t, *table) { ConvertError::LookupMiss } else { ConvertError::Malformed }),
            None => e == ConvertError::Malformed,
        },
        !required && lookup(old(c).entries@, key@) is None ==> r is Ok,
        outcome(r, item_field_error(old(c).entries@, key@, required, *table)),
        r is Ok ==> item_field_done(old(c).entries@, final(c).entries@, key@, *table),
        r is Ok ==> forall|j: Seq<char>| j != key@ ==> #[trigger] lookup(final(c).entries@, j)
            == lookup(old(c).entries@, j),
{
    let mut t = match c.remove(key) {
        Some(t) => t,
        None => return if required { Err(ConvertError::Malformed) } else { Ok(()) },
    };
    downgrade_item_tag(&mut t, table)?;
    proof { lemma_without_twice(old(c).entries@, key@); }
    c.insert(key, t);
    Ok(())
}

/// Why list `key` of item stacks cannot be downgraded, if it cannot.
pub open spec fn items_error(c: Seq<(String, Tag)>, key: Seq<char>, table: IdTable) -> Option<ConvertError> {
    match lookup(c, key) {
        Some(Tag::List(l)) => first_error(l@, |t: Tag| item_error(t, table)),
        _ => Some(ConvertError::Malformed),
    }
}

/// Whether `key` holds a list of item stacks that can all be downgraded.
pub open spec fn items_ok(c: Seq<(String, Tag)>, key: Seq<char>, table: IdTable) -> bool {
    lookup(c, key) matches Some(Tag::List(l))
        && forall|i: int| 0 <= i < l@.len() ==> !item_tag_fails(#[trigger] l@[i], table)
}

/// Downgrades every item stack of the list under `key`, which must be there.
fn downgrade_item_list_field(c: &mut Compound, key: &str, table: &IdTable) -> (r: Result<(), ConvertError>)
    ensures
        r is Ok ==> (lookup(old(c).entries@, key@) matches Some(Tag::List(l)) && exists|l2: Vec<Tag>| {
            &&& l2@.len() == l@.len()
            &&& forall|i: int| 0 <= i < l@.len() ==> item_tag_downgraded(#[trigger] l@[i], l2@[i], *table)
            &&& bound_last(final(c).entries@, old(c).entries@, key@, Tag::List(l2))
            &&& lookup(final(c).entries@, key@) == Some(Tag::List(l2))
        }),
        r is Ok ==> forall|j: Seq<char>| j != key@ ==> #[trigger] lookup(final(c).entries@, j)
            == lookup(old(c).entries@, j),
        items_ok(old(c).entries@, key@, *table) ==> r is Ok,
        outcome(r, items_error(old(c).entries@, key@, *table)),
{
    let mut l = match c.remove(key) {
        Some(Tag::List(l)) => l,
        _ => return Err(ConvertError::Malformed),
    };
    downgrade_item_list(&mut l, table)?;
    proof { lemma_without_twice(old(c).entries@, key@); }
    c.insert(key, Tag::List(l));
    Ok(())
}

/// Gives a minecart the single legacy id `Minecart` and its kind as `Type`:
/// 0 to ride, 1 with a chest, 2 with a furnace.
pub fn unify_minecart(entity: &mut Compound, kind: i32)
    ensures
        lookup(final(entity).entries@, "id"@) matches Some(Tag::String(s)) && s@ == "Minecart"@,
        lookup(final(entity).entries@, "Type"@) == Some(Tag::Int(kind)),
        forall|k: Seq<char>| k != "id"@ && k != "Type"@ ==> #[trigger] lookup(final(entity).entries@, k)
            == lookup(old(entity).entries@, k),
{
    let ghost s0 = entity.entries@;
    entity.insert("id", Tag::String("Minecart".to_owned()));
    let ghost s1 = entity.entries@;
    entity.insert("Type", Tag::Int(kind));
    proof {
        lemma_names_distinct();
        assert forall|k: Seq<char>| k != "id"@ && k != "Type"@ implies #[trigger] lookup(entity.entries@, k)
            == lookup(s0, k) by {
            lemma_lookup_with_last(s1, s0, "id"@, k);
            lemma_lookup_with_last(entity.entries@, s1, "Type"@, k);
        }
        lemma_lookup_with_last(entity.entries@, s1, "Type"@, "id"@);
    }
}

/// Takes the 1.8 `ShowParticles` flag out of each potion effect.
fn strip_show_particles(effects: &mut Vec<Tag>) -> (r: Result<(), ConvertError>)
    ensures
        (forall|i: int| 0 <= i < old(effects)@.len() ==> (#[trigger] old(effects)@[i]) is Compound) ==> r is Ok,
        r is Ok ==> final(effects)@.len() == old(effects)@.len(),
        r is Ok ==> forall|i: int| 0 <= i < final(effects)@.len() ==> (#[trigger] final(effects)@[i] matches Tag::Compound(c)
            && lookup(c.entries@, "ShowParticles"@) is None),
        r is Ok ==> effect_list_done(old(effects)@, final(effects)@),
        r is Ok <==> forall|i: int| 0 <= i < old(effects)@.len() ==> (#[trigger] old(effects)@[i]) is Compound,
        r is Err ==> r == Err::<(), ConvertError>(ConvertError::Malformed),
{
    let mut rest: Vec<Tag> = Vec::new();
    core::mem::swap(&mut rest, effects);
    let ghost n = rest@.len();
    let ghost orig = rest@;
    while rest.len() > 0
        invariant
            effects@.len() + rest@.len() == n,
            n == old(effects)@.len(),
            orig == old(effects)@,
            rest@ == orig.subrange(effects@.len() as int, n as int),
            forall|i: int| 0 <= i < effects@.len() ==> (#[trigger] effects@[i] matches Tag::Compound(c)
                && lookup(c.entries@, "ShowParticles"@) is None),
            effect_list_done(orig.subrange(0, effects@.len() as int), effects@),
        decreases rest@.len(),
    {
        let t = rest.remove(0);
        assert(t == orig[effects@.len() as int]);
        let ghost before = effects@;
        match t {
            Tag::Compound(mut c) => {
                c.remove("ShowParticles");
                effects.push(Tag::Compound(c));
                assert(orig.subrange(0, effects@.len() as int).drop_last() == orig.subrange(0, before.len() as int));
            },
            _ => return Err(ConvertError::Malformed),
        }
    }
    assert(orig.subrange(0, n as int) == orig);
    Ok(())
}

/// Whether an optional item stack `key` can be downgraded.
pub open spec fn opt_item_ok(c: Seq<(String, Tag)>, key: Seq<char>, table: IdTable) -> bool {
    match lookup(c, key) {
        Some(t) => !item_tag_fails(t, table),
        None => true,
    }
}

/// Whether a required item stack `key` is there and can be downgraded.
pub open spec fn req_item_ok(c: Seq<(String, Tag)>, key: Seq<char>, table: IdTable) -> bool {
    lookup(c, key) is Some && opt_item_ok(c, key, table)
}

/// Whether a trade offer can be downgraded: it buys and sells item stacks
/// that can be, and a second bought stack, if any, can be too.
pub open spec fn recipe_ok(c: Seq<(String, Tag)>, table: IdTable) -> bool {
    req_item_ok(c, "buy"@, table) && req_item_ok(c, "sell"@, table) && opt_item_ok(c, "buyB"@, table)
}

/// Whether a villager's `Offers`, if a record, holds a list of offers that
/// can all be downgraded.
pub open spec fn offers_ok(c: Seq<(String, Tag)>, table: IdTable) -> bool {
    match lookup(c, "Offers"@) {
        Some(Tag::Compound(o)) => lookup(o.entries@, "Recipes"@) matches Some(Tag::List(l))
            && forall|i: int| 0 <= i < l@.len() ==> (#[trigger] l@[i] matches Tag::Compound(rc)
                && recipe_ok(rc.entries@, table)),
        _ => true,
    }
}

/// Whether `ActiveEffects`, if a list, holds only records.
pub open spec fn effects_ok(c: Seq<(String, Tag)>) -> bool {
    match lookup(c, "ActiveEffects"@) {
        Some(Tag::List(l)) => forall|i: int| 0 <= i < l@.len() ==> (#[trigger] l@[i]) is Compound,
        _ => true,
    }
}

/// Why a trade-offer value cannot be downgraded, if it cannot.
pub open spec fn recipe_error(t: Tag, table: IdTable) -> Option<ConvertError> {
    match t {
        Tag::Compound(rc) => or_else(item_field_error(rc.entries@, "buy"@, true, table),
            or_else(item_field_error(rc.entries@, "sell"@, true, table),
                item_field_error(rc.entries@, "buyB"@, false, table))),
        _ => Some(ConvertError::Malformed),
    }
}

/// Why the `Recipes` of an offers record cannot be downgraded, if they cannot.
pub open spec fn recipes_error(o: Seq<(String, Tag)>, table: IdTable) -> Option<ConvertError> {
    match lookup(o, "Recipes"@) {
        Some(Tag::List(l)) => first_error(l@, |t: Tag| recipe_error(t, table)),
        _ => Some(ConvertError::Malformed),
    }
}

/// Downgrades one villager trade offer: drops its reward experience and
/// downgrades the item stacks it buys and sells.
fn downgrade_recipe(recipe: &mut Compound, table: &IdTable) -> (r: Result<(), ConvertError>)
    ensures
        recipe_ok(old(recipe).entries@, *table) ==> r is Ok,
        r is Ok ==> recipe_done(old(recipe).entries@, final(recipe).entries@, *table),
        outcome(r, recipe_error(Tag::Compound(*old(recipe)), *table)),
{
    proof {
        lemma_names_distinct();
    }
    recipe.remove("rewardExp");
    downgrade_item_field(recipe, "buy", true, table)?;
    downgrade_item_field(recipe, "sell", true, table)?;
    downgrade_item_field(recipe, "buyB", false, table)?;
    Ok(())
}

/// Downgrades each trade offer of a villager's `Offers`.
fn downgrade_offers(offers: &mut Compound, table: &IdTable) -> (r: Result<(), ConvertError>)
    ensures
        (lookup(old(offers).entries@, "Recipes"@) matches Some(Tag::List(l))
            && forall|i: int| 0 <= i < l@.len() ==> (#[trigger] l@[i] matches Tag::Compound(rc)
                && recipe_ok(rc.entries@, *table))) ==> r is Ok,
        r is Ok ==> offers_done(old(offers).entries@, final(offers).entries@, *table),
        outcome(r, recipes_error(old(offers).entries@, *table)),
{
    let mut recipes = match offers.remove("Recipes") {
        Some(Tag::List(l)) => l,
        _ => return Err(ConvertError::Malformed),
    };
    let mut done: Vec<Tag> = Vec::new();
    let ghost orig = recipes@;
    assert(orig.subrange(0, orig.len() as int) == orig);
    let ghost all_ok = forall|i: int| 0 <= i < orig.len() ==> (#[trigger] orig[i] matches Tag::Compound(rc)
        && recipe_ok(rc.entries@, *table));
    while recipes.len() > 0
        invariant
            orig.len() == done@.len() + recipes@.len(),
            recipes@ == orig.subrange(done@.len() as int, orig.len() as int),
            all_ok == forall|i: int| 0 <= i < orig.len() ==> (#[trigger] orig[i] matches Tag::Compound(rc)
                && recipe_ok(rc.entries@, *table)),
            lookup(old(offers).entries@, "Recipes"@) matches Some(Tag::List(l)) && l@ == orig,
            forall|i: int| 0 <= i < done@.len() ==> (#[trigger] orig[i] matches Tag::Compound(a)
                && done@[i] matches Tag::Compound(b) && recipe_done(a.entries@, b.entries@, *table)),
            forall|k: Seq<char>| k != "Recipes"@ ==> #[trigger] lookup(offers.entries@, k) == lookup(old(offers).entries@, k),
            first_error(orig, |t: Tag| recipe_error(t, *table))
                == first_error(orig.subrange(done@.len() as int, orig.len() as int), |t: Tag| recipe_error(t, *table)),
        decreases recipes@.len(),
    {
        let t = recipes.remove(0);
        assert(t == orig[done@.len() as int]);
        proof { lemma_first_error_step(orig, done@.len() as int, |t: Tag| recipe_error(t, *table)); }
        match t {
            Tag::Compound(mut c) => {
                downgrade_recipe(&mut c, table)?;
                done.push(Tag::Compound(c));
            },
            _ => return Err(ConvertError::Malformed),
        }
    }
    offers.insert("Recipes", Tag::List(done));
    Ok(())
}

/// Whether `new` is entity `old` downgraded, as far as its identity and the
/// fields that the target version lacks go.
pub open spec fn entity_downgraded(old: Seq<(String, Tag)>, new: Seq<(String, Tag)>, table: IdTable) -> bool {
    lookup(old, "id"@) matches Some(Tag::String(id)) && {
        &&& forall|k: Seq<char>| entity_drops(id@, k) ==> lookup(new, k) is None
        &&& forall|k: Seq<char>| !entity_touches(id@, k) ==> #[trigger] lookup(new, k) == lookup(old, k)
        &&& facing_converted(old, new)
        &&& minecart_kind(id@) matches Some(kind) ==> {
            &&& lookup(new, "id"@) matches Some(Tag::String(s)) && s@ == "Minecart"@
            &&& lookup(new, "Type"@) == Some(Tag::Int(kind))
        }
        &&& id@ == "MinecartChest"@ ==> item_list_done(old, new, "Items"@, table)
        &&& id@ == "Item"@ ==> lookup(old, "Item"@) is Some && item_field_done(old, new, "Item"@, table)
        &&& is_projectile(id@) ==> lookup(old, "inTile"@) is Some && block_ref_done(old, new, "inTile"@, table)
        &&& id@ == "ThrownPotion"@ ==> item_field_done(old, new, "Potion"@, table)
        &&& id@ == "ItemFrame"@ ==> item_field_done(old, new, "Item"@, table)
        &&& id@ == "FallingSand"@ ==> lookup(new, "Block"@) is None && match lookup(old, "Block"@) {
            Some(Tag::String(b)) => table.get_spec(b@) matches Some(n) && 0 <= n <= 255
                && lookup(new, "Tile"@) == Some(Tag::Byte(legacy_byte(n))),
            _ => lookup(new, "Tile"@) == lookup(old, "Tile"@),
        }
        &&& id@ == "FireworksRocketEntity"@ ==> lookup(old, "FireworksItem"@) is Some
            && item_field_done(old, new, "FireworksItem"@, table)
        &&& is_mob(id@) ==> item_list_done(old, new, "Equipment"@, table) && match lookup(old, "ActiveEffects"@) {
            Some(Tag::List(ol)) => lookup(new, "ActiveEffects"@) matches Some(Tag::List(nl)) && effect_list_done(ol@, nl@),
            other => lookup(new, "ActiveEffects"@) == other,
        }
        &&& (id@ == "Wolf"@ || id@ == "Ozelot"@) ==> lookup(new, "OwnerUUID"@) is None && match lookup(old, "OwnerUUID"@) {
            Some(o) => lookup(new, "Owner"@) == Some(o),
            None => lookup(new, "Owner"@) == lookup(old, "Owner"@),
        }
        &&& id@ == "Villager"@ ==> match lookup(old, "Offers"@) {
            Some(Tag::Compound(o)) => lookup(new, "Offers"@) matches Some(Tag::Compound(n))
                && offers_done(o.entries@, n.entries@, table),
            other => lookup(new, "Offers"@) == other,
        }
    }
}

/// The fields that the rules for an entity with id `id` may change: those
/// they drop, the facing fields, and those that a rule for that id rewrites.
pub open spec fn entity_touches(id: Seq<char>, k: Seq<char>) -> bool {
    ||| entity_drops(id, k)
    ||| k == "Facing"@ || k == "Direction"@ || k == "TileX"@ || k == "TileZ"@ || k == "ItemRotation"@
    ||| minecart_kind(id) is Some && (k == "id"@ || k == "Type"@)
    ||| id == "MinecartChest"@ && k == "Items"@
    ||| (id == "Item"@ || id == "ItemFrame"@) && k == "Item"@
    ||| is_projectile(id) && k == "inTile"@
    ||| id == "ThrownPotion"@ && k == "Potion"@
    ||| id == "FallingSand"@ && (k == "Block"@ || k == "Tile"@)
    ||| id == "FireworksRocketEntity"@ && k == "FireworksItem"@
    ||| is_mob(id) && (k == "ActiveEffects"@ || k == "Equipment"@)
    ||| (id == "Wolf"@ || id == "Ozelot"@) && (k == "OwnerUUID"@ || k == "Owner"@)
    ||| id == "Villager"@ && k == "Offers"@
}

/// Whether the rules for the entity with id `id` find every field they
/// need, in the shape they need, and every identifier in the table.
pub open spec fn entity_rules_ok(id: Seq<char>, c: Seq<(String, Tag)>, table: IdTable) -> bool {
    &&& id == "Item"@ ==> req_item_ok(c, "Item"@, table)
    &&& facing_ok(c)
    &&& is_projectile(id) ==> block_ref_ok(c, "inTile"@, true, table)
    &&& id == "ThrownPotion"@ ==> opt_item_ok(c, "Potion"@, table)
    &&& id == "ItemFrame"@ ==> opt_item_ok(c, "Item"@, table)
    &&& id == "FallingSand"@ ==> block_ref_ok(c, "Block"@, false, table)
    &&& id == "FireworksRocketEntity"@ ==> req_item_ok(c, "FireworksItem"@, table)
    &&& id == "MinecartChest"@ ==> items_ok(c, "Items"@, table)
    &&& is_mob(id) ==> effects_ok(c) && items_ok(c, "Equipment"@, table)
    &&& id == "Villager"@ ==> offers_ok(c, table)
}

/// Why the Villager offers of an entity cannot be downgraded, if they cannot.
pub open spec fn offers_error(c: Seq<(String, Tag)>, table: IdTable) -> Option<ConvertError> {
    match lookup(c, "Offers"@) {
        Some(Tag::Compound(o)) => recipes_error(o.entries@, table),
        _ => None,
    }
}

/// Why the rules for the entity with id `id` fail, if they do: the error of
/// the first rule, in the order they are applied, that finds a field missing
/// or misshapen or an identifier absent from the table.
pub open spec fn entity_rules_error(id: Seq<char>, c: Seq<(String, Tag)>, table: IdTable) -> Option<ConvertError> {
    let item = if id == "Item"@ { item_field_error(c, "Item"@, true, table) } else { None };
    let facing = if facing_ok(c) { None } else { Some(ConvertError::Malformed) };
    let in_tile = if is_projectile(id) { block_ref_error(c, "inTile"@, true, table) } else { None };
    let potion = if id == "ThrownPotion"@ { item_field_error(c, "Potion"@, false, table) } else { None };
    let frame = if id == "ItemFrame"@ { item_field_error(c, "Item"@, false, table) } else { None };
    let block = if id == "FallingSand"@ { block_ref_error(c, "Block"@, false, table) } else { None };
    let firework = if id == "FireworksRocketEntity"@ { item_field_error(c, "FireworksItem"@, true, table) } else { None };
    let chest = if id == "MinecartChest"@ { items_error(c, "Items"@, table) } else { None };
    let mob = if is_mob(id) {
        or_else(if effects_ok(c) { None } else { Some(ConvertError::Malformed) }, items_error(c, "Equipment"@, table))
    } else {
        None
    };
    let offers = if id == "Villager"@ { offers_error(c, table) } else { None };
    or_else(item, or_else(facing, or_else(in_tile, or_else(potion, or_else(frame, or_else(block,
        or_else(firework, or_else(chest, or_else(mob, offers)))))))))
}

/// Why an entity value cannot be downgraded, if it cannot.
pub open spec fn entity_error(t: Tag, table: IdTable) -> Option<ConvertError> {
    match t {
        Tag::Compound(c) => match lookup(c.entries@, "id"@) {
            Some(Tag::String(id)) => entity_rules_error(id@, c.entries@, table),
            _ => Some(ConvertError::Malformed),
        },
        _ => Some(ConvertError::Malformed),
    }
}

/// Whether an entity record can be downgraded.
pub open spec fn entity_convertible(t: Tag, table: IdTable) -> bool {
    t matches Tag::Compound(c) && lookup(c.entries@, "id"@) matches Some(Tag::String(id))
        && entity_rules_ok(id@, c.entries@, table)
}

/// The legacy `Type` of the minecart ids that the target version unifies.
pub open spec fn minecart_kind(id: Seq<char>) -> Option<i32> {
    if id == "MinecartRideable"@ {
        Some(0)
    } else if id == "MinecartChest"@ {
        Some(1)
    } else if id == "MinecartFurnace"@ {
        Some(2)
    } else {
        None
    }
}

/// Rewrites one entity into the target schema: the rules that apply are
/// chosen by its `id`.
pub fn downgrade_entity(entity: &mut Compound, table: &IdTable) -> (r: Result<(), ConvertError>)
    ensures
        outcome(r, entity_error(Tag::Compound(*old(entity)), *table)),
        r is Ok ==> entity_downgraded(old(entity).entries@, final(entity).entries@, *table),
        !(lookup(old(entity).entries@, "id"@) matches Some(Tag::String(_)))
            ==> r == Err::<(), ConvertError>(ConvertError::Malformed),
        has_id(old(entity).entries@, "Item"@) && lookup(old(entity).entries@, "Item"@) is None
            ==> r == Err::<(), ConvertError>(ConvertError::Malformed),
        has_id(old(entity).entries@, "Item"@) ==> match lookup(old(entity).entries@, "Item"@) {
            Some(t) => (item_tag_fails(t, *table) ==> r is Err) && (item_tag_misses(t, *table)
                ==> r == Err::<(), ConvertError>(ConvertError::LookupMiss)),
            None => true,
        },
        lookup(old(entity).entries@, "id"@) matches Some(Tag::String(id))
            && entity_rules_ok(id@, old(entity).entries@, *table) ==> r is Ok,
{
    proof {
        lemma_names_distinct();
    }
    let id: String = match entity.get("id") {
        Some(Tag::String(s)) => s.clone(),
        _ => return Err(ConvertError::Malformed),
    };
    if key_is(&id, "Item") {
        downgrade_item_field(entity, "Item", true, table)?;
    }
    convert_facing(entity)?;
    if projectile_id(&id) {
        downgrade_block_ref(entity, "inTile", true, table)?;
    }
    if key_is(&id, "ThrownPotion") {
        downgrade_item_field(entity, "Potion", false, table)?;
    }
    if key_is(&id, "ItemFrame") {
        downgrade_item_field(entity, "Item", false, table)?;
    }
    if key_is(&id, "FallingSand") {
        if let Some(Tag::String(block)) = entity.remove("Block") {
            let n = match table.new_to_old(block.as_str()) {
                Some(n) => n,
                None => return Err(ConvertError::LookupMiss),
            };
            let b = match legacy_block_byte(n) {
                Some(b) => b,
                None => return Err(ConvertError::Malformed),
            };
            entity.insert("Tile", Tag::Byte(b));
        }
    }
    if key_is(&id, "FireworksRocketEntity") {
        downgrade_item_field(entity, "FireworksItem", true, table)?;
    }
    if key_is(&id, "MinecartRideable") {
        unify_minecart(entity, 0);
    }
    if key_is(&id, "MinecartChest") {
        unify_minecart(entity, 1);
        downgrade_item_list_field(entity, "Items", table)?;
    }
    if key_is(&id, "MinecartFurnace") {
        unify_minecart(entity, 2);
    }
    if mob_id(&id) {
        match entity.remove("ActiveEffects") {
            Some(Tag::List(mut effects)) => {
                strip_show_particles(&mut effects)?;
                entity.insert("ActiveEffects", Tag::List(effects));
            },
            Some(other) => entity.insert("ActiveEffects", other),
            None => {},
        }
        downgrade_item_list_field(entity, "Equipment", table)?;
    }
    if key_is(&id, "Wolf") || key_is(&id, "Ozelot") {
        if let Some(owner) = entity.remove("OwnerUUID") {
            entity.insert("Owner", owner);
        }
    }
    if key_is(&id, "Villager") {
        match entity.remove("Offers") {
            Some(Tag::Compound(mut offers)) => {
                downgrade_offers(&mut offers, table)?;
                entity.insert("Offers", Tag::Compound(offers));
            },
            Some(other) => entity.insert("Offers", other),
            None => {},
        }
    }
    drop_entity_fields(entity, &id);
    Ok(())
}

/// Applies `downgrade_entity` to every entity of a list.
pub fn downgrade_entities(entities: &mut Vec<Tag>, table: &IdTable) -> (r: Result<(), ConvertError>)
    ensures
        outcome(r, first_error(old(entities)@, |t: Tag| entity_error(t, *table))),
        (forall|i: int| 0 <= i < old(entities)@.len() ==> entity_convertible(#[trigger] old(entities)@[i], *table))
            ==> r is Ok,
        r is Ok ==> final(entities)@.len() == old(entities)@.len() && forall|i: int| 0 <= i < old(entities)@.len()
            ==> (#[trigger] old(entities)@[i] matches Tag::Compound(o) && final(entities)@[i] matches Tag::Compound(n)
                && entity_downgraded(o.entries@, n.entries@, *table)),
{
    let ghost orig = entities@;
    let mut rest: Vec<Tag> = Vec::new();
    core::mem::swap(&mut rest, entities);
    let ghost mut i: int = 0;
    assert(orig.subrange(0, orig.len() as int) == orig);
    while rest.len() > 0
        invariant
            0 <= i <= orig.len(),
            orig == old(entities)@,
            rest@ == orig.subrange(i, orig.len() as int),
            entities@.len() == i,
            forall|j: int| 0 <= j < i ==> (#[trigger] orig[j] matches Tag::Compound(o) && entities@[j] matches Tag::Compound(n)
                && entity_downgraded(o.entries@, n.entries@, *table)),
            first_error(orig, |t: Tag| entity_error(t, *table))
                == first_error(orig.subrange(i, orig.len() as int), |t: Tag| entity_error(t, *table)),
        decreases rest@.len(),
    {
        let t = rest.remove(0);
        assert(t == orig[i]);
        proof { lemma_first_error_step(orig, i, |t: Tag| entity_error(t, *table)); }
        match t {
            Tag::Compound(mut c) => {
                downgrade_entity(&mut c, table)?;
                entities.push(Tag::Compound(c));
            },
            _ => return Err(ConvertError::Malformed),
        }
        proof { i = i + 1; }
    }
    Ok(())
}

/// Whether the target version lacks field `k` of a tile entity with id `id`.
pub open spec fn tile_entity_drops(id: Seq<char>, k: Seq<char>) -> bool {
    ||| k == "CustomName"@
    ||| id == "Furnace"@ && k == "CookTimeTotal"@
    ||| (id == "Trap"@ || id == "Cauldron"@) && k == "Lock"@
    ||| id == "Control"@ && (k == "SuccessCount"@ || k == "TrackOutput"@ || k == "LastOutput"@ || k == "CommandStats"@)
    ||| id == "Skull"@ && (k == "Owner"@ || k == "ExtraType"@)
}

/// Whether `new` is tile entity `old` downgraded, as far as its identity
/// and the fields that the target version lacks go.
pub open spec fn tile_entity_downgraded(old: Seq<(String, Tag)>, new: Seq<(String, Tag)>, table: IdTable) -> bool {
    lookup(old, "id"@) matches Some(Tag::String(id)) && {
        &&& forall|k: Seq<char>| tile_entity_drops(id@, k) ==> lookup(new, k) is None
        &&& forall|k: Seq<char>| !tile_entity_touches(id@, k) ==> #[trigger] lookup(new, k) == lookup(old, k)
        &&& is_container(id@) ==> item_list_done(old, new, "Items"@, table)
        &&& id@ == "RecordPlayer"@ ==> match lookup(old, "RecordItem"@) {
            Some(Tag::Compound(_)) => item_field_done(old, new, "RecordItem"@, table),
            other => lookup(new, "RecordItem"@) == other,
        }
        &&& id@ == "Sign"@ ==> {
            &&& sign_line_done(old, new, "Text1"@)
            &&& sign_line_done(old, new, "Text2"@)
            &&& sign_line_done(old, new, "Text3"@)
            &&& sign_line_done(old, new, "Text4"@)
        }
    }
}

/// The tile entities that hold an inventory.
pub open spec fn is_container(id: Seq<char>) -> bool {
    id == "Furnace"@ || id == "Chest"@ || id == "Trap"@ || id == "Cauldron"@
}

/// The fields that the rules for a tile entity with id `id` may change.
pub open spec fn tile_entity_touches(id: Seq<char>, k: Seq<char>) -> bool {
    ||| tile_entity_drops(id, k)
    ||| is_container(id) && k == "Items"@
    ||| id == "RecordPlayer"@ && k == "RecordItem"@
    ||| id == "Sign"@ && (k == "Text1"@ || k == "Text2"@ || k == "Text3"@ || k == "Text4"@)
}

/// Whether sign line `key` is a string whose rich text can be rendered.
pub open spec fn sign_line_ok(c: Seq<(String, Tag)>, key: Seq<char>) -> bool {
    lookup(c, key) matches Some(Tag::String(s)) && rendered(json_reading(s@), s@) is Some
}

/// Whether the rules for the tile entity with id `id` find every field they
/// need, in the shape they need, and every identifier in the table.
pub open spec fn tile_entity_rules_ok(id: Seq<char>, c: Seq<(String, Tag)>, table: IdTable) -> bool {
    &&& is_container(id) ==> items_ok(c, "Items"@, table)
    &&& id == "RecordPlayer"@ ==> match lookup(c, "RecordItem"@) {
        Some(Tag::Compound(rc)) => !item_stack_fails(rc.entries@, table),
        _ => true,
    }
    &&& id == "Sign"@ ==> sign_line_ok(c, "Text1"@) && sign_line_ok(c, "Text2"@) && sign_line_ok(c, "Text3"@)
        && sign_line_ok(c, "Text4"@)
}

/// Why sign line `key` cannot be converted, if it cannot.
pub open spec fn sign_line_error(c: Seq<(String, Tag)>, key: Seq<char>) -> Option<ConvertError> {
    match lookup(c, key) {
        Some(Tag::String(s)) => if rendered(json_reading(s@), s@) is Some { None } else { Some(ConvertError::UnsupportedPayload) },
        _ => Some(ConvertError::Malformed),
    }
}

/// Why the rules for the tile entity with id `id` fail, if they do: the
/// error of the first rule, in the order they are applied, that fails.
pub open spec fn tile_entity_rules_error(id: Seq<char>, c: Seq<(String, Tag)>, table: IdTable) -> Option<ConvertError> {
    let items = if is_container(id) { items_error(c, "Items"@, table) } else { None };
    let record = if id == "RecordPlayer"@ {
        match lookup(c, "RecordItem"@) {
            Some(Tag::Compound(_)) => item_field_error(c, "RecordItem"@, true, table),
            _ => None,
        }
    } else {
        None
    };
    let sign = if id == "Sign"@ {
        or_else(sign_line_error(c, "Text1"@), or_else(sign_line_error(c, "Text2"@),
            or_else(sign_line_error(c, "Text3"@), sign_line_error(c, "Text4"@))))
    } else {
        None
    };
    or_else(items, or_else(record, sign))
}

/// Why a tile-entity value cannot be downgraded, if it cannot.
pub open spec fn tile_entity_error(t: Tag, table: IdTable) -> Option<ConvertError> {
    match t {
        Tag::Compound(c) => match lookup(c.entries@, "id"@) {
            Some(Tag::String(id)) => tile_entity_rules_error(id@, c.entries@, table),
            _ => Some(ConvertError::Malformed),
        },
        _ => Some(ConvertError::Malformed),
    }
}

/// Whether a tile-entity record can be downgraded.
pub open spec fn tile_entity_convertible(t: Tag, table: IdTable) -> bool {
    t matches Tag::Compound(c) && lookup(c.entries@, "id"@) matches Some(Tag::String(id))
        && tile_entity_rules_ok(id@, c.entries@, table)
}

/// Whether record `c` has the string id `name`.
pub open spec fn has_id(c: Seq<(String, Tag)>, name: Seq<char>) -> bool {
    lookup(c, "id"@) matches Some(Tag::String(id)) && id@ == name
}

/// Whether line `key` of sign `new` holds the plain text of that line of `old`.
pub open spec fn sign_line_done(old: Seq<(String, Tag)>, new: Seq<(String, Tag)>, key: Seq<char>) -> bool {
    lookup(old, key) matches Some(Tag::String(s0)) && rendered(json_reading(s0@), s0@) matches Some(t)
        && lookup(new, key) matches Some(Tag::String(s)) && s@ == t
}

/// Rewrites one tile entity into the target schema: the rules that apply
/// are chosen by its `id`.
pub fn downgrade_tile_entity(tile_entity: &mut Compound, table: &IdTable) -> (r: Result<(), ConvertError>)
    ensures
        outcome(r, tile_entity_error(Tag::Compound(*old(tile_entity)), *table)),
        r is Ok ==> tile_entity_downgraded(old(tile_entity).entries@, final(tile_entity).entries@, *table),
        !(lookup(old(tile_entity).entries@, "id"@) matches Some(Tag::String(_)))
            ==> r == Err::<(), ConvertError>(ConvertError::Malformed),
        lookup(old(tile_entity).entries@, "id"@) matches Some(Tag::String(id))
            && tile_entity_rules_ok(id@, old(tile_entity).entries@, *table) ==> r is Ok,
{
    proof {
        lemma_names_distinct();
    }
    let id: String = match tile_entity.get("id") {
        Some(Tag::String(s)) => s.clone(),
        _ => return Err(ConvertError::Malformed),
    };
    if key_is(&id, "Furnace") || key_is(&id, "Chest") || key_is(&id, "Trap") || key_is(&id, "Cauldron") {
        downgrade_item_list_field(tile_entity, "Items", table)?;
    }
    if key_is(&id, "RecordPlayer") {
        let is_record = match tile_entity.get("RecordItem") {
            Some(Tag::Compound(_)) => true,
            _ => false,
        };
        if is_record {
            downgrade_item_field(tile_entity, "RecordItem", true, table)?;
        }
    }
    if key_is(&id, "Sign") {
        downgrade_sign_text(tile_entity, "Text1")?;
        downgrade_sign_text(tile_entity, "Text2")?;
        downgrade_sign_text(tile_entity, "Text3")?;
        downgrade_sign_text(tile_entity, "Text4")?;
    }
    tile_entity.remove("CustomName");
    if key_is(&id, "Furnace") {
        tile_entity.remove("CookTimeTotal");
    }
    if key_is(&id, "Trap") || key_is(&id, "Cauldron") {
        tile_entity.remove("Lock");
    }
    if key_is(&id, "Control") {
        tile_entity.remove("SuccessCount");
        tile_entity.remove("TrackOutput");
        tile_entity.remove("LastOutput");
        tile_entity.remove("CommandStats");
    }
    if key_is(&id, "Skull") {
        tile_entity.remove("Owner");
        tile_entity.remove("ExtraType");
    }
    Ok(())
}

/// Applies `downgrade_tile_entity` to every tile entity of a list.
pub fn downgrade_tile_entities(tile_entities: &mut Vec<Tag>, table: &IdTable) -> (r: Result<(), ConvertError>)
    ensures
        outcome(r, first_error(old(tile_entities)@, |t: Tag| tile_entity_error(t, *table))),
        (forall|i: int| 0 <= i < old(tile_entities)@.len() ==> tile_entity_convertible(#[trigger] old(tile_entities)@[i], *table))
            ==> r is Ok,
        r is Ok ==> final(tile_entities)@.len() == old(tile_entities)@.len() && forall|i: int| 0 <= i < old(tile_entities)@.len()
            ==> (#[trigger] old(tile_entities)@[i] matches Tag::Compound(o) && final(tile_entities)@[i] matches Tag::Compound(n)
                && tile_entity_downgraded(o.entries@, n.entries@, *table)),
{
    let ghost orig = tile_entities@;
    let mut rest: Vec<Tag> = Vec::new();
    core::mem::swap(&mut rest, tile_entities);
    let ghost mut i: int = 0;
    assert(orig.subrange(0, orig.len() as int) == orig);
    while rest.len() > 0
        invariant
            0 <= i <= orig.len(),
            orig == old(tile_entities)@,
            rest@ == orig.subrange(i, orig.len() as int),
            tile_entities@.len() == i,
            forall|j: int| 0 <= j < i ==> (#[trigger] orig[j] matches Tag::Compound(o) && tile_entities@[j] matches Tag::Compound(n)
                && tile_entity_downgraded(o.entries@, n.entries@, *table)),
            first_error(orig, |t: Tag| tile_entity_error(t, *table))
                == first_error(orig.subrange(i, orig.len() as int), |t: Tag| tile_entity_error(t, *table)),
        decreases rest@.len(),
    {
        let t = rest.remove(0);
        assert(t == orig[i]);
        proof { lemma_first_error_step(orig, i, |t: Tag| tile_entity_error(t, *table)); }
        match t {
            Tag::Compound(mut c) => {
                downgrade_tile_entity(&mut c, table)?;
                tile_entities.push(Tag::Compound(c));
            },
            _ => return Err(ConvertError::Malformed),
        }
        proof { i = i + 1; }
    }
    Ok(())
}

/// Whether `new` is scheduled tick `old` with a string block reference `i`
/// replaced by its legacy number.
pub open spec fn tile_tick_downgraded(old: Seq<(String, Tag)>, new: Seq<(String, Tag)>, table: IdTable) -> bool {
    match lookup(old, "i"@) {
        Some(Tag::String(s)) => table.get_spec(s@) matches Some(n) && bound_last(new, old, "i"@, Tag::Int(n as i32)),
        Some(_) => new == old,
        None => false,
    }
}

/// Whether a scheduled tick can be downgraded: a record with a block
/// reference `i` that, where it is a string, the table knows.
pub open spec fn tile_tick_convertible(t: Tag, table: IdTable) -> bool {
    t matches Tag::Compound(c) && match lookup(c.entries@, "i"@) {
        Some(Tag::String(s)) => table.get_spec(s@) is Some,
        Some(_) => true,
        None => false,
    }
}

/// Why a scheduled tick cannot be downgraded, if it cannot.
pub open spec fn tile_tick_error(t: Tag, table: IdTable) -> Option<ConvertError> {
    match t {
        Tag::Compound(c) => match lookup(c.entries@, "i"@) {
            Some(Tag::String(s)) => if table.get_spec(s@) is Some { None } else { Some(ConvertError::LookupMiss) },
            Some(_) => None,
            None => Some(ConvertError::Malformed),
        },
        _ => Some(ConvertError::Malformed),
    }
}

/// Replaces a string block reference of one scheduled tick with its legacy
/// number.
pub fn downgrade_tile_tick(tick: &mut Compound, table: &IdTable) -> (r: Result<(), ConvertError>)
    ensures
        r is Ok ==> tile_tick_downgraded(old(tick).entries@, final(tick).entries@, *table),
        lookup(old(tick).entries@, "i"@) is None ==> r == Err::<(), ConvertError>(ConvertError::Malformed),
        lookup(old(tick).entries@, "i"@) matches Some(Tag::String(s)) ==> (r is Ok <==> table.get_spec(s@) is Some),
        lookup(old(tick).entries@, "i"@) matches Some(Tag::String(s)) && table.get_spec(s@) is None
            ==> r == Err::<(), ConvertError>(ConvertError::LookupMiss),
        lookup(old(tick).entries@, "i"@) matches Some(x) && !(x is String)
            ==> r is Ok && *final(tick) == *old(tick),
{
    let n = match tick.get("i") {
        Some(Tag::String(s)) => match table.new_to_old(s.as_str()) {
            Some(n) => n,
            None => return Err(ConvertError::LookupMiss),
        },
        Some(_) => return Ok(()),
        None => return Err(ConvertError::Malformed),
    };
    tick.insert("i", Tag::Int(n as i32));
    Ok(())
}

/// Applies `downgrade_tile_tick` to every scheduled tick of a list.
pub fn downgrade_tile_ticks(ticks: &mut Vec<Tag>, table: &IdTable) -> (r: Result<(), ConvertError>)
    ensures
        outcome(r, first_error(old(ticks)@, |t: Tag| tile_tick_error(t, *table))),
        (forall|i: int| 0 <= i < old(ticks)@.len() ==> tile_tick_convertible(#[trigger] old(ticks)@[i], *table))
            ==> r is Ok,
        r is Ok ==> final(ticks)@.len() == old(ticks)@.len() && forall|i: int| 0 <= i < old(ticks)@.len()
            ==> (#[trigger] old(ticks)@[i] matches Tag::Compound(o) && final(ticks)@[i] matches Tag::Compound(n)
                && tile_tick_downgraded(o.entries@, n.entries@, *table)),
{
    let ghost orig = ticks@;
    let mut rest: Vec<Tag> = Vec::new();
    core::mem::swap(&mut rest, ticks);
    let ghost mut i: int = 0;
    assert(orig.subrange(0, orig.len() as int) == orig);
    while rest.len() > 0
        invariant
            0 <= i <= orig.len(),
            orig == old(ticks)@,
            rest@ == orig.subrange(i, orig.len() as int),
            ticks@.len() == i,
            forall|j: int| 0 <= j < i ==> (#[trigger] orig[j] matches Tag::Compound(o) && ticks@[j] matches Tag::Compound(n)
                && tile_tick_downgraded(o.entries@, n.entries@, *table)),
        first_error(orig, |t: Tag| tile_tick_error(t, *table))
                == first_error(orig.subrange(i, orig.len() as int), |t: Tag| tile_tick_error(t, *table)),
            forall|j: int| 0 <= j < i ==> tile_tick_error(#[trigger] orig[j], *table) is None,
        decreases rest@.len(),
    {
        let t = rest.remove(0);
        assert(t == orig[i]);
        proof { lemma_first_error_step(orig, i, |t: Tag| tile_tick_error(t, *table)); }
        match t {
            Tag::Compound(mut c) => {
                downgrade_tile_tick(&mut c, table)?;
                ticks.push(Tag::Compound(c));
            },
            _ => return Err(ConvertError::Malformed),
        }
        proof { i = i + 1; }
    }
    assert(orig.subrange(i, orig.len() as int).len() == 0);
    Ok(())
}

/// Whether `new` is level data `old` downgraded: the version marker, the
/// inhabited-time counter and the lighting flag are gone; each entity, tile
/// entity and scheduled tick is downgraded in place; every other field keeps
/// its value.
pub open spec fn level_downgraded(old: Seq<(String, Tag)>, new: Seq<(String, Tag)>, table: IdTable) -> bool {
    &&& lookup(new, "V"@) is None
    &&& lookup(new, "InhabitedTime"@) is None
    &&& lookup(new, "LightPopulated"@) is None
    &&& lookup(old, "Entities"@) matches Some(Tag::List(oe))
        && lookup(new, "Entities"@) matches Some(Tag::List(ne))
        && ne@.len() == oe@.len() && forall|i: int| 0 <= i < oe@.len()
            ==> (#[trigger] oe@[i] matches Tag::Compound(o) && ne@[i] matches Tag::Compound(n)
                && entity_downgraded(o.entries@, n.entries@, table))
    &&& lookup(old, "TileEntities"@) matches Some(Tag::List(ot))
        && lookup(new, "TileEntities"@) matches Some(Tag::List(nt))
        && nt@.len() == ot@.len() && forall|i: int| 0 <= i < ot@.len()
            ==> (#[trigger] ot@[i] matches Tag::Compound(o) && nt@[i] matches Tag::Compound(n)
                && tile_entity_downgraded(o.entries@, n.entries@, table))
    &&& match lookup(old, "TileTicks"@) {
        Some(Tag::List(ok)) => lookup(new, "TileTicks"@) matches Some(Tag::List(nk))
            && nk@.len() == ok@.len() && forall|i: int| 0 <= i < ok@.len()
                ==> (#[trigger] ok@[i] matches Tag::Compound(o) && nk@[i] matches Tag::Compound(n)
                    && tile_tick_downgraded(o.entries@, n.entries@, table)),
        other => lookup(new, "TileTicks"@) == other,
    }
    &&& forall|k: Seq<char>| k != "V"@ && k != "InhabitedTime"@ && k != "LightPopulated"@ && k != "Entities"@
        && k != "TileEntities"@ && k != "TileTicks"@ ==> #[trigger] lookup(new, k) == lookup(old, k)
}

/// Why level data cannot be downgraded, if it cannot: the first failure
/// among its entities, then its tile entities, then its scheduled ticks.
pub open spec fn level_error(c: Seq<(String, Tag)>, table: IdTable) -> Option<ConvertError> {
    or_else(
        match lookup(c, "Entities"@) {
            Some(Tag::List(l)) => first_error(l@, |t: Tag| entity_error(t, table)),
            _ => Some(ConvertError::Malformed),
        },
        or_else(
            match lookup(c, "TileEntities"@) {
                Some(Tag::List(l)) => first_error(l@, |t: Tag| tile_entity_error(t, table)),
                _ => Some(ConvertError::Malformed),
            },
            match lookup(c, "TileTicks"@) {
                Some(Tag::List(l)) => first_error(l@, |t: Tag| tile_tick_error(t, table)),
                _ => None,
            },
        ),
    )
}

/// Why a chunk record cannot be downgraded, if it cannot.
pub open spec fn chunk_error(c: Seq<(String, Tag)>, table: IdTable) -> Option<ConvertError> {
    match lookup(c, "Level"@) {
        Some(Tag::Compound(l)) => level_error(l.entries@, table),
        _ => Some(ConvertError::Malformed),
    }
}

/// Whether level data can be downgraded: it has lists of entities and tile
/// entities that can all be, and its scheduled ticks, where a list, can be too.
pub open spec fn level_convertible(c: Seq<(String, Tag)>, table: IdTable) -> bool {
    &&& lookup(c, "Entities"@) matches Some(Tag::List(l))
        && forall|i: int| 0 <= i < l@.len() ==> entity_convertible(#[trigger] l@[i], table)
    &&& lookup(c, "TileEntities"@) matches Some(Tag::List(l))
        && forall|i: int| 0 <= i < l@.len() ==> tile_entity_convertible(#[trigger] l@[i], table)
    &&& match lookup(c, "TileTicks"@) {
        Some(Tag::List(l)) => forall|i: int| 0 <= i < l@.len() ==> tile_tick_convertible(#[trigger] l@[i], table),
        _ => true,
    }
}

/// Rewrites a chunk's level data into the target schema: downgrades its
/// entities, tile entities and scheduled ticks, and drops the version
/// marker, the inhabited-time counter and the lighting flag.
pub fn downgrade_level(level: &mut Compound, table: &IdTable) -> (r: Result<(), ConvertError>)
    ensures
        r is Ok ==> level_downgraded(old(level).entries@, final(level).entries@, *table),
        level_convertible(old(level).entries@, *table) ==> r is Ok,
        outcome(r, level_error(old(level).entries@, *table)),
        !(lookup(old(level).entries@, "Entities"@) matches Some(Tag::List(_)))
            ==> r == Err::<(), ConvertError>(ConvertError::Malformed),
{
    proof {
        lemma_names_distinct();
    }
    let mut entities = match level.remove("Entities") {
        Some(Tag::List(l)) => l,
        _ => return Err(ConvertError::Malformed),
    };
    let ghost ents = entities@;
    downgrade_entities(&mut entities, table)?;
    assert(first_error(ents, |t: Tag| entity_error(t, *table)) is None);
    level.insert("Entities", Tag::List(entities));
    let mut tile_entities = match level.remove("TileEntities") {
        Some(Tag::List(l)) => l,
        _ => return Err(ConvertError::Malformed),
    };
    let ghost tiles = tile_entities@;
    downgrade_tile_entities(&mut tile_entities, table)?;
    assert(first_error(tiles, |t: Tag| tile_entity_error(t, *table)) is None);
    level.insert("TileEntities", Tag::List(tile_entities));
    assert(lookup(level.entries@, "TileTicks"@) == lookup(old(level).entries@, "TileTicks"@));
    match level.remove("TileTicks") {
        Some(Tag::List(mut ticks)) => {
            let ghost tk = ticks@;
            downgrade_tile_ticks(&mut ticks, table)?;
            assert(first_error(tk, |t: Tag| tile_tick_error(t, *table)) is None);
            level.insert("TileTicks", Tag::List(ticks));
        },
        Some(other) => level.insert("TileTicks", other),
        None => {},
    }
    level.remove("V");
    level.remove("InhabitedTime");
    level.remove("LightPopulated");
    Ok(())
}

/// Rewrites a whole chunk record, whose level data is under `Level`; every
/// other field keeps its value.
pub fn downgrade_chunk(chunk: &mut Compound, table: &IdTable) -> (r: Result<(), ConvertError>)
    ensures
        outcome(r, chunk_error(old(chunk).entries@, *table)),
        r is Ok ==> (lookup(old(chunk).entries@, "Level"@) matches Some(Tag::Compound(ol))
            && lookup(final(chunk).entries@, "Level"@) matches Some(Tag::Compound(nl))
            && level_downgraded(ol.entries@, nl.entries@, *table)),
        r is Ok ==> forall|k: Seq<char>| k != "Level"@ ==> #[trigger] lookup(final(chunk).entries@, k)
            == lookup(old(chunk).entries@, k),
        (lookup(old(chunk).entries@, "Level"@) matches Some(Tag::Compound(ol))
            && level_convertible(ol.entries@, *table)) ==> r is Ok,
        !(lookup(old(chunk).entries@, "Level"@) matches Some(Tag::Compound(_)))
            ==> r == Err::<(), ConvertError>(ConvertError::Malformed),
{
    let mut level = match chunk.remove("Level") {
        Some(Tag::Compound(c)) => c,
        _ => return Err(ConvertError::Malformed),
    };
    downgrade_level(&mut level, table)?;
    chunk.insert("Level", Tag::Compound(level));
    Ok(())
}

/// Downgrading an item stack that was already downgraded leaves it as it is.
pub proof fn lemma_item_stack_downgrade_idempotent(
    old: Seq<(String, Tag)>,
    mid: Seq<(String, Tag)>,
    new: Seq<(String, Tag)>,
    table: IdTable,
)
    requires
        item_stack_downgraded(old, mid, table),
        item_stack_downgraded(mid, new, table),
    ensures
        new == mid,
{
}

/// Downgrading a scheduled tick that was already downgraded leaves it as it is.
pub proof fn lemma_tile_tick_downgrade_idempotent(
    old: Seq<(String, Tag)>,
    mid: Seq<(String, Tag)>,
    new: Seq<(String, Tag)>,
    table: IdTable,
)
    requires
        tile_tick_downgraded(old, mid, table),
        tile_tick_downgraded(mid, new, table),
    ensures
        new == mid,
{
}

/// The lengths of the field names and ids that the rules use, and the
/// characters that tell apart names of equal length.
pub proof fn lemma_names_distinct()
    ensures
        "AbsorptionAmount"@.len() == 16,
        "AbsorptionAmount"@[0] == 'A',
        "ActiveEffects"@.len() == 13,
        "ActiveEffects"@[0] == 'A',
        "Arrow"@.len() == 5,
        "Arrow"@[0] == 'A',
        "Attributes"@.len() == 10,
        "Attributes"@[0] == 'A',
        "Block"@.len() == 5,
        "Block"@[0] == 'B',
        "CanBreakDoors"@.len() == 13,
        "CanBreakDoors"@[0] == 'C',
        "CanBreakDoors"@[1] == 'a',
        "Career"@.len() == 6,
        "Career"@[0] == 'C',
        "CareerLevel"@.len() == 11,
        "CareerLevel"@[0] == 'C',
        "Cauldron"@.len() == 8,
        "Cauldron"@[0] == 'C',
        "Chest"@.len() == 5,
        "Chest"@[0] == 'C',
        "Chicken"@.len() == 7,
        "Chicken"@[0] == 'C',
        "Chicken"@[1] == 'h',
        "CommandStats"@.len() == 12,
        "CommandStats"@[0] == 'C',
        "Control"@.len() == 7,
        "Control"@[0] == 'C',
        "Control"@[1] == 'o',
        "CookTimeTotal"@.len() == 13,
        "CookTimeTotal"@[0] == 'C',
        "CookTimeTotal"@[1] == 'o',
        "CustomName"@.len() == 10,
        "CustomName"@[0] == 'C',
        "Direction"@.len() == 9,
        "Direction"@[0] == 'D',
        "EggLayTime"@.len() == 10,
        "EggLayTime"@[0] == 'E',
        "Entities"@.len() == 8,
        "Entities"@[0] == 'E',
        "Equipment"@.len() == 9,
        "Equipment"@[0] == 'E',
        "Equipment"@[1] == 'q',
        "ExtraType"@.len() == 9,
        "ExtraType"@[0] == 'E',
        "ExtraType"@[1] == 'x',
        "Facing"@.len() == 6,
        "Facing"@[0] == 'F',
        "FallingSand"@.len() == 11,
        "FallingSand"@[0] == 'F',
        "Fireball"@.len() == 8,
        "Fireball"@[0] == 'F',
        "FireworksItem"@.len() == 13,
        "FireworksItem"@[0] == 'F',
        "FireworksRocketEntity"@.len() == 21,
        "ForcedAge"@.len() == 9,
        "ForcedAge"@[0] == 'F',
        "Furnace"@.len() == 7,
        "Furnace"@[0] == 'F',
        "HealF"@.len() == 5,
        "HealF"@[0] == 'H',
        "HurtBy"@.len() == 6,
        "HurtBy"@[0] == 'H',
        "HurtByTimestamp"@.len() == 15,
        "HurtByTimestamp"@[0] == 'H',
        "InhabitedTime"@.len() == 13,
        "InhabitedTime"@[0] == 'I',
        "Inventory"@.len() == 9,
        "Inventory"@[0] == 'I',
        "Inventory"@[1] == 'n',
        "IsChickenJockey"@.len() == 15,
        "IsChickenJockey"@[0] == 'I',
        "Item"@.len() == 4,
        "Item"@[0] == 'I',
        "ItemFrame"@.len() == 9,
        "ItemFrame"@[0] == 'I',
        "ItemFrame"@[1] == 't',
        "ItemRotation"@.len() == 12,
        "ItemRotation"@[0] == 'I',
        "Items"@.len() == 5,
        "Items"@[0] == 'I',
        "LastOutput"@.len() == 10,
        "LastOutput"@[0] == 'L',
        "LavaSlime"@.len() == 9,
        "LavaSlime"@[0] == 'L',
        "Leash"@.len() == 5,
        "Leash"@[0] == 'L',
        "Leashed"@.len() == 7,
        "Leashed"@[0] == 'L',
        "LightPopulated"@.len() == 14,
        "LightPopulated"@[0] == 'L',
        "Lock"@.len() == 4,
        "Lock"@[0] == 'L',
        "Minecart"@.len() == 8,
        "Minecart"@[0] == 'M',
        "MinecartChest"@.len() == 13,
        "MinecartChest"@[0] == 'M',
        "MinecartFurnace"@.len() == 15,
        "MinecartFurnace"@[0] == 'M',
        "MinecartRideable"@.len() == 16,
        "MinecartRideable"@[0] == 'M',
        "NoAI"@.len() == 4,
        "NoAI"@[0] == 'N',
        "Offers"@.len() == 6,
        "Offers"@[0] == 'O',
        "Offers"@[1] == 'f',
        "Owner"@.len() == 5,
        "Owner"@[0] == 'O',
        "OwnerUUID"@.len() == 9,
        "OwnerUUID"@[0] == 'O',
        "Ozelot"@.len() == 6,
        "Ozelot"@[0] == 'O',
        "Ozelot"@[1] == 'z',
        "PickupDelay"@.len() == 11,
        "PickupDelay"@[0] == 'P',
        "PigZombie"@.len() == 9,
        "PigZombie"@[0] == 'P',
        "Potion"@.len() == 6,
        "Potion"@[0] == 'P',
        "Recipes"@.len() == 7,
        "Recipes"@[0] == 'R',
        "RecordItem"@.len() == 10,
        "RecordItem"@[0] == 'R',
        "RecordPlayer"@.len() == 12,
        "RecordPlayer"@[0] == 'R',
        "ShowParticles"@.len() == 13,
        "ShowParticles"@[0] == 'S',
        "ShowParticles"@[1] == 'h',
        "Sign"@.len() == 4,
        "Sign"@[0] == 'S',
        "Skull"@.len() == 5,
        "Skull"@[0] == 'S',
        "Skull"@[1] == 'k',
        "Slime"@.len() == 5,
        "Slime"@[0] == 'S',
        "Slime"@[1] == 'l',
        "SmallFireball"@.len() == 13,
        "SmallFireball"@[0] == 'S',
        "SmallFireball"@[1] == 'm',
        "Snowball"@.len() == 8,
        "Snowball"@[0] == 'S',
        "SuccessCount"@.len() == 12,
        "SuccessCount"@[0] == 'S',
        "Text1"@.len() == 5,
        "Text1"@[0] == 'T',
        "Text1"@[1] == 'e',
        "Text1"@[4] == '1',
        "Text2"@.len() == 5,
        "Text2"@[0] == 'T',
        "Text2"@[1] == 'e',
        "Text2"@[4] == '2',
        "Text3"@.len() == 5,
        "Text3"@[0] == 'T',
        "Text3"@[1] == 'e',
        "Text3"@[4] == '3',
        "Text4"@.len() == 5,
        "Text4"@[0] == 'T',
        "Text4"@[1] == 'e',
        "Text4"@[4] == '4',
        "Thrower"@.len() == 7,
        "Thrower"@[0] == 'T',
        "ThrownEnderpearl"@.len() == 16,
        "ThrownEnderpearl"@[0] == 'T',
        "ThrownExpBottle"@.len() == 15,
        "ThrownExpBottle"@[0] == 'T',
        "ThrownPotion"@.len() == 12,
        "ThrownPotion"@[0] == 'T',
        "ThrownPotion"@[1] == 'h',
        "Tile"@.len() == 4,
        "Tile"@[0] == 'T',
        "Tile"@[1] == 'i',
        "TileEntities"@.len() == 12,
        "TileEntities"@[0] == 'T',
        "TileEntities"@[1] == 'i',
        "TileEntityData"@.len() == 14,
        "TileEntityData"@[0] == 'T',
        "TileTicks"@.len() == 9,
        "TileTicks"@[0] == 'T',
        "TileX"@.len() == 5,
        "TileX"@[0] == 'T',
        "TileX"@[1] == 'i',
        "TileX"@[4] == 'X',
        "TileZ"@.len() == 5,
        "TileZ"@[0] == 'T',
        "TileZ"@[1] == 'i',
        "TileZ"@[4] == 'Z',
        "TrackOutput"@.len() == 11,
        "TrackOutput"@[0] == 'T',
        "Trap"@.len() == 4,
        "Trap"@[0] == 'T',
        "Trap"@[1] == 'r',
        "Type"@.len() == 4,
        "Type"@[0] == 'T',
        "Type"@[1] == 'y',
        "V"@.len() == 1,
        "V"@[0] == 'V',
        "Villager"@.len() == 8,
        "Villager"@[0] == 'V',
        "Willing"@.len() == 7,
        "Willing"@[0] == 'W',
        "WitherSkull"@.len() == 11,
        "WitherSkull"@[0] == 'W',
        "Wolf"@.len() == 4,
        "Wolf"@[0] == 'W',
        "Zombie"@.len() == 6,
        "Zombie"@[0] == 'Z',
        "buy"@.len() == 3,
        "buyB"@.len() == 4,
        "buyB"@[0] == 'b',
        "i"@.len() == 1,
        "i"@[0] == 'i',
        "id"@.len() == 2,
        "inTile"@.len() == 6,
        "inTile"@[0] == 'i',
        "life"@.len() == 4,
        "life"@[0] == 'l',
        "rewardExp"@.len() == 9,
        "rewardExp"@[0] == 'r',
        "sell"@.len() == 4,
        "sell"@[0] == 's',
        "wasOnGround"@.len() == 11,
        "wasOnGround"@[0] == 'w',
{
    reveal_strlit("AbsorptionAmount");
    reveal_strlit("ActiveEffects");
    reveal_strlit("Arrow");
    reveal_strlit("Attributes");
    reveal_strlit("Block");
    reveal_strlit("CanBreakDoors");
    reveal_strlit("Career");
    reveal_strlit("CareerLevel");
    reveal_strlit("Cauldron");
    reveal_strlit("Chest");
    reveal_strlit("Chicken");
    reveal_strlit("CommandStats");
    reveal_strlit("Control");
    reveal_strlit("CookTimeTotal");
    reveal_strlit("CustomName");
    reveal_strlit("Direction");
    reveal_strlit("EggLayTime");
    reveal_strlit("Entities");
    reveal_strlit("Equipment");
    reveal_strlit("ExtraType");
    reveal_strlit("Facing");
    reveal_strlit("FallingSand");
    reveal_strlit("Fireball");
    reveal_strlit("FireworksItem");
    reveal_strlit("FireworksRocketEntity");
    reveal_strlit("ForcedAge");
    reveal_strlit("Furnace");
    reveal_strlit("HealF");
    reveal_strlit("HurtBy");
    reveal_strlit("HurtByTimestamp");
    reveal_strlit("InhabitedTime");
    reveal_strlit("Inventory");
    reveal_strlit("IsChickenJockey");
    reveal_strlit("Item");
    reveal_strlit("ItemFrame");
    reveal_strlit("ItemRotation");
    reveal_strlit("Items");
    reveal_strlit("LastOutput");
    reveal_strlit("LavaSlime");
    reveal_strlit("Leash");
    reveal_strlit("Leashed");
    reveal_strlit("LightPopulated");
    reveal_strlit("Lock");
    reveal_strlit("Minecart");
    reveal_strlit("MinecartChest");
    reveal_strlit("MinecartFurnace");
    reveal_strlit("MinecartRideable");
    reveal_strlit("NoAI");
    reveal_strlit("Offers");
    reveal_strlit("Owner");
    reveal_strlit("OwnerUUID");
    reveal_strlit("Ozelot");
    reveal_strlit("PickupDelay");
    reveal_strlit("PigZombie");
    reveal_strlit("Potion");
    reveal_strlit("Recipes");
    reveal_strlit("RecordItem");
    reveal_strlit("RecordPlayer");
    reveal_strlit("ShowParticles");
    reveal_strlit("Sign");
    reveal_strlit("Skull");
    reveal_strlit("Slime");
    reveal_strlit("SmallFireball");
    reveal_strlit("Snowball");
    reveal_strlit("SuccessCount");
    reveal_strlit("Text1");
    reveal_strlit("Text2");
    reveal_strlit("Text3");
    reveal_strlit("Text4");
    reveal_strlit("Thrower");
    reveal_strlit("ThrownEnderpearl");
    reveal_strlit("ThrownExpBottle");
    reveal_strlit("ThrownPotion");
    reveal_strlit("Tile");
    reveal_strlit("TileEntities");
    reveal_strlit("TileEntityData");
    reveal_strlit("TileTicks");
    reveal_strlit("TileX");
    reveal_strlit("TileZ");
    reveal_strlit("TrackOutput");
    reveal_strlit("Trap");
    reveal_strlit("Type");
    reveal_strlit("V");
    reveal_strlit("Villager");
    reveal_strlit("Willing");
    reveal_strlit("WitherSkull");
    reveal_strlit("Wolf");
    reveal_strlit("Zombie");
    reveal_strlit("buy");
    reveal_strlit("buyB");
    reveal_strlit("i");
    reveal_strlit("id");
    reveal_strlit("inTile");
    reveal_strlit("life");
    reveal_strlit("rewardExp");
    reveal_strlit("sell");
    reveal_strlit("wasOnGround");
}

} // verus!
