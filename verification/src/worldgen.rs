//! The decisions of the world-generation scanners that do not need the
//! terrain: the results they report, the frequency checks of buried treasure
//! and pillager outposts, the village exclusion of outposts, the numbering and
//! seeding of the containers that a structure places, and small placement
//! helpers.

use vstd::prelude::*;

use core::hash::Hash;
use rustc_hash::FxHashMap;

use crate::catalog::{
    linear_spec, village_placement, CandidateStructure, ContainerSeedShortcut, DecorationSeedSpec,
    ScanKind, ScanSupport,
};
use crate::decoration_seed::{container_loot_seed, loot_seed_outcome};
use crate::error::{is_structure_error, is_usage_error, Error};
use crate::legacy_random::{
    lcg_step, next_int_spec, next_long_spec, scramble, top_bits, LegacyRandom48,
};
use crate::placement::{floor_div, is_placement_chunk, is_placement_chunk_spec};
use crate::template_scan::{lowest_height, lowest_of};
use vstd::wrapping::{i64_specs, u64_specs};

verus! {

/// The lowest block of the overworld.
pub const OVERWORLD_MIN_Y: i32 = -64;

/// The sea level of the overworld.
pub const OVERWORLD_SEA_LEVEL: i32 = 63;

/// The lowest block of the nether.
pub const NETHER_MIN_Y: i32 = 0;

/// The lava sea level of the nether.
pub const NETHER_SEA_LEVEL: i32 = 32;

/// The salt of the buried treasure frequency check.
pub const FREQUENCY_SALT: u32 = 10_387_320;

/// Chunks around a pillager outpost that must hold no village.
pub const VILLAGE_EXCLUSION_RADIUS: i32 = 10;

/// A container found in a structure, with its loot seed.
#[derive(Clone, Debug, PartialEq, Eq)]
pub struct Chest {
    pub structure_chunk_x: i32,
    pub structure_chunk_z: i32,
    pub x: i32,
    pub y: i32,
    pub z: i32,
    pub loot_table: String,
    pub ordinal: i32,
    pub loot_seed: i64,
}

/// The result of scanning one candidate chunk.
#[derive(Debug, PartialEq, Eq)]
pub struct Scan {
    pub valid_structure: bool,
    pub chests: Vec<Chest>,
}

/// The scan of a chunk where the structure does not generate.
pub fn invalid_scan() -> (scan: Scan)
    ensures
        !scan.valid_structure,
        scan.chests@.len() == 0,
{
    Scan { valid_structure: false, chests: Vec::new() }
}

impl ScanKind {
    /// The lowest block of the structure's dimension.
    pub fn min_y(self) -> (y: i32)
        ensures
            y == (if self == ScanKind::BastionRemnant {
                NETHER_MIN_Y
            } else {
                OVERWORLD_MIN_Y
            }),
    {
        match self {
            ScanKind::BastionRemnant => NETHER_MIN_Y,
            _ => OVERWORLD_MIN_Y,
        }
    }

    /// The sea level of the structure's dimension.
    pub fn sea_level(self) -> (y: i32)
        ensures
            y == (if self == ScanKind::BastionRemnant {
                NETHER_SEA_LEVEL
            } else {
                OVERWORLD_SEA_LEVEL
            }),
    {
        match self {
            ScanKind::BastionRemnant => NETHER_SEA_LEVEL,
            _ => OVERWORLD_SEA_LEVEL,
        }
    }

    /// The registry id of the structure that the scan generates; villages
    /// are identified by their plains variant.
    pub fn identifier(self) -> (id: &'static str)
        ensures
            id@ == scan_kind_id(self),
    {
        proof {
            reveal_strlit("minecraft:ancient_city");
            reveal_strlit("minecraft:bastion_remnant");
            reveal_strlit("minecraft:desert_pyramid");
            reveal_strlit("minecraft:igloo");
            reveal_strlit("minecraft:village_plains");
            reveal_strlit("minecraft:pillager_outpost");
            reveal_strlit("minecraft:buried_treasure");
            reveal_strlit("minecraft:shipwreck");
        }
        match self {
            ScanKind::AncientCity => "minecraft:ancient_city",
            ScanKind::BastionRemnant => "minecraft:bastion_remnant",
            ScanKind::DesertPyramid => "minecraft:desert_pyramid",
            ScanKind::Igloo => "minecraft:igloo",
            ScanKind::Village => "minecraft:village_plains",
            ScanKind::PillagerOutpost => "minecraft:pillager_outpost",
            ScanKind::BuriedTreasure => "minecraft:buried_treasure",
            ScanKind::Shipwreck => "minecraft:shipwreck",
        }
    }
}

/// The registry id of the structure that a scan kind generates.
pub open spec fn scan_kind_id(kind: ScanKind) -> Seq<char> {
    match kind {
        ScanKind::AncientCity => "minecraft:ancient_city"@,
        ScanKind::BastionRemnant => "minecraft:bastion_remnant"@,
        ScanKind::DesertPyramid => "minecraft:desert_pyramid"@,
        ScanKind::Igloo => "minecraft:igloo"@,
        ScanKind::Village => "minecraft:village_plains"@,
        ScanKind::PillagerOutpost => "minecraft:pillager_outpost"@,
        ScanKind::BuriedTreasure => "minecraft:buried_treasure"@,
        ScanKind::Shipwreck => "minecraft:shipwreck"@,
    }
}

// ---------------------------------------------------------------------------
// Frequency checks

/// The region seed of a frequency check:
/// `chunk_x * 341873128712 + chunk_z * 132897987541 + seed + salt`, wrapping.
pub open spec fn region_seed_spec(seed: u64, chunk_x: i32, chunk_z: i32, salt: u32) -> u64 {
    u64_specs::wrapping_add(
        u64_specs::wrapping_add(
            u64_specs::wrapping_add(
                u64_specs::wrapping_mul((chunk_x as i64) as u64, 341_873_128_712u64),
                u64_specs::wrapping_mul((chunk_z as i64) as u64, 132_897_987_541u64),
            ),
            seed,
        ),
        salt as u64,
    )
}

/// The region seed of a frequency check.
pub fn get_region_seed(seed: u64, chunk_x: i32, chunk_z: i32, salt: u32) -> (num: u64)
    ensures
        num == region_seed_spec(seed, chunk_x, chunk_z, salt),
{
    let num = ((chunk_x as i64) as u64).wrapping_mul(341_873_128_712u64).wrapping_add(
        ((chunk_z as i64) as u64).wrapping_mul(132_897_987_541u64),
    );
    num.wrapping_add(seed).wrapping_add(salt as u64)
}

/// The largest 24-bit draw below which `nextFloat() < 0.01f32`: `0.01f32` is
/// `10737418 / 2^30`, so `u / 2^24 < 0.01f32` exactly when `64 u < 10737418`.
pub open spec fn buried_treasure_threshold() -> int {
    167_773
}

/// Buried treasure generates in a chunk when the first float of the region
/// random is below `0.01`.
pub open spec fn buried_treasure_passes_spec(world_seed: i64, chunk_x: i32, chunk_z: i32) -> bool {
    let seed = region_seed_spec(world_seed as u64, chunk_x, chunk_z, FREQUENCY_SALT);
    top_bits(lcg_step(scramble(seed as i64)), 24) < buried_treasure_threshold()
}

/// Whether buried treasure passes its frequency check in the chunk.
pub fn buried_treasure_frequency_passes(world_seed: i64, chunk_x: i32, chunk_z: i32) -> (passes: bool)
    ensures
        passes == buried_treasure_passes_spec(world_seed, chunk_x, chunk_z),
{
    let region_seed = get_region_seed(world_seed as u64, chunk_x, chunk_z, FREQUENCY_SALT);
    let mut random = LegacyRandom48::new(region_seed as i64);
    let u = random.next(24);
    u < 167_773
}

/// The seed of the pillager outpost check: the chunk coordinates rounded down
/// to multiples of 16, the X one xor the Z one divided by 16, xor the world seed.
pub open spec fn pillager_seed(world_seed: i64, chunk_x: i32, chunk_z: i32) -> i64 {
    let i = chunk_x >> 4i32;
    let j = chunk_z >> 4i32;
    (((i << 4i32) ^ j) as i64) ^ world_seed
}

/// A pillager outpost may generate when, after one `nextInt()`, `nextInt(5)` is 0.
pub open spec fn pillager_passes_spec(world_seed: i64, chunk_x: i32, chunk_z: i32) -> bool {
    let s0 = scramble(pillager_seed(world_seed, chunk_x, chunk_z));
    next_int_spec(lcg_step(s0), 5).1 == 0
}

/// Whether a pillager outpost passes its frequency check in the chunk.
pub fn pillager_frequency_passes(world_seed: i64, chunk_x: i32, chunk_z: i32) -> (passes: bool)
    ensures
        passes == pillager_passes_spec(world_seed, chunk_x, chunk_z),
{
    let i = chunk_x >> 4;
    let j = chunk_z >> 4;
    let shifted = i << 4;
    let combined = ((shifted ^ j) as i64) ^ world_seed;
    let mut random = LegacyRandom48::new(combined);
    random.next(32);
    random.next_int(5) == 0
}

/// Whether a village is placed within `VILLAGE_EXCLUSION_RADIUS` chunks (in
/// both axes) of the chunk.
pub open spec fn village_nearby_spec(world_seed: i64, chunk_x: i32, chunk_z: i32) -> bool {
    exists|dx: int, dz: int|
        -10 <= dx <= 10 && -10 <= dz <= 10 && #[trigger] is_placement_chunk_spec(
            world_seed,
            (chunk_x + dx) as i32,
            (chunk_z + dz) as i32,
            linear_spec(34, 8, 10_387_312),
        )
}

/// Whether a village is placed near the chunk, which keeps pillager outposts away.
pub fn has_village_nearby(world_seed: i64, chunk_x: i32, chunk_z: i32) -> (nearby: bool)
    requires
        i32::MIN + 10 <= chunk_x <= i32::MAX - 10,
        i32::MIN + 10 <= chunk_z <= i32::MAX - 10,
    ensures
        nearby == village_nearby_spec(world_seed, chunk_x, chunk_z),
{
    let radius = VILLAGE_EXCLUSION_RADIUS;
    let placement = village_placement();
    let mut dx: i32 = -radius;
    while dx <= radius
        invariant
            radius == 10,
            -10 <= dx <= 11,
            placement == linear_spec(34, 8, 10_387_312),
            i32::MIN + 10 <= chunk_x <= i32::MAX - 10,
            i32::MIN + 10 <= chunk_z <= i32::MAX - 10,
            forall|a: int, b: int|
                -10 <= a < dx && -10 <= b <= 10 ==> !#[trigger] is_placement_chunk_spec(
                    world_seed,
                    (chunk_x + a) as i32,
                    (chunk_z + b) as i32,
                    linear_spec(34, 8, 10_387_312),
                ),
        decreases 11 - dx,
    {
        let mut dz: i32 = -radius;
        while dz <= radius
            invariant
                radius == 10,
                -10 <= dx <= 10,
                -10 <= dz <= 11,
                placement == linear_spec(34, 8, 10_387_312),
                i32::MIN + 10 <= chunk_x <= i32::MAX - 10,
                i32::MIN + 10 <= chunk_z <= i32::MAX - 10,
                forall|a: int, b: int|
                    -10 <= a < dx && -10 <= b <= 10 ==> !#[trigger] is_placement_chunk_spec(
                        world_seed,
                        (chunk_x + a) as i32,
                        (chunk_z + b) as i32,
                        linear_spec(34, 8, 10_387_312),
                    ),
                forall|b: int|
                    -10 <= b < dz ==> !#[trigger] is_placement_chunk_spec(
                        world_seed,
                        (chunk_x + dx) as i32,
                        (chunk_z + b) as i32,
                        linear_spec(34, 8, 10_387_312),
                    ),
            decreases 11 - dz,
        {
            let other_x = chunk_x + dx;
            let other_z = chunk_z + dz;
            if is_placement_chunk(world_seed, other_x, other_z, placement) {
                proof {
                    assert(is_placement_chunk_spec(
                        world_seed,
                        (chunk_x + dx) as i32,
                        (chunk_z + dz) as i32,
                        linear_spec(34, 8, 10_387_312),
                    ));
                }
                return true;
            }
            dz = dz + 1;
        }
        dx = dx + 1;
    }
    false
}

// ---------------------------------------------------------------------------
// Small placement helpers

/// The loot table of a shipwreck data marker.
pub open spec fn shipwreck_marker_table(marker: Seq<char>) -> Option<Seq<char>> {
    if marker == "map_chest"@ {
        Some("minecraft:chests/shipwreck_map"@)
    } else if marker == "supply_chest"@ {
        Some("minecraft:chests/shipwreck_supply"@)
    } else if marker == "treasure_chest"@ {
        Some("minecraft:chests/shipwreck_treasure"@)
    } else {
        None
    }
}

/// The loot table that a shipwreck data marker fills its chest from.
pub fn shipwreck_marker_loot_table(marker: &str) -> (table: Option<&'static str>)
    ensures
        match shipwreck_marker_table(marker@) {
            Some(t) => table matches Some(s) && s@ == t,
            None => table is None,
        },
{
    if crate::strings::str_eq(marker, "map_chest") {
        Some("minecraft:chests/shipwreck_map")
    } else if crate::strings::str_eq(marker, "supply_chest") {
        Some("minecraft:chests/shipwreck_supply")
    } else if crate::strings::str_eq(marker, "treasure_chest") {
        Some("minecraft:chests/shipwreck_treasure")
    } else {
        None
    }
}

/// One step of the linear congruential generator of biome zoom:
/// `value * (value * 6364136223846793005 + 1442695040888963407) + c`, wrapping.
pub open spec fn lcg_next_spec(value: i64, c: i64) -> i64 {
    i64_specs::wrapping_add(
        i64_specs::wrapping_mul(
            value,
            i64_specs::wrapping_add(
                i64_specs::wrapping_mul(value, 6_364_136_223_846_793_005i64),
                1_442_695_040_888_963_407i64,
            ),
        ),
        c,
    )
}

/// One step of the linear congruential generator of biome zoom.
pub fn lcg_next(value: i64, c: i64) -> (next: i64)
    ensures
        next == lcg_next_spec(value, c),
{
    let value = value.wrapping_mul(
        value.wrapping_mul(6_364_136_223_846_793_005).wrapping_add(1_442_695_040_888_963_407),
    );
    value.wrapping_add(c)
}

/// The facing of a structure piece.
#[derive(Clone, Copy, Debug, PartialEq, Eq, Structural)]
pub enum Direction {
    Down,
    Up,
    North,
    South,
    West,
    East,
}

/// The world X of a piece-local position, as vanilla's `StructurePiece.getWorldX`.
pub open spec fn world_x_spec(facing: Direction, min_x: int, max_x: int, local_x: int, local_z: int) -> int {
    match facing {
        Direction::North | Direction::South => min_x + local_x,
        Direction::West => max_x - local_z,
        Direction::East => min_x + local_z,
        Direction::Down | Direction::Up => local_x,
    }
}

/// The world Z of a piece-local position, as vanilla's `StructurePiece.getWorldZ`.
pub open spec fn world_z_spec(facing: Direction, min_z: int, max_z: int, local_x: int, local_z: int) -> int {
    match facing {
        Direction::North => max_z - local_z,
        Direction::South => min_z + local_z,
        Direction::West | Direction::East => min_z + local_x,
        Direction::Down | Direction::Up => local_z,
    }
}

/// The world X of a piece-local position.
pub fn chest_world_x(facing: Direction, min_x: i32, max_x: i32, local_x: i32, local_z: i32) -> (x: i32)
    requires
        i32::MIN <= world_x_spec(facing, min_x as int, max_x as int, local_x as int, local_z as int)
            <= i32::MAX,
    ensures
        x == world_x_spec(facing, min_x as int, max_x as int, local_x as int, local_z as int),
{
    match facing {
        Direction::North | Direction::South => min_x + local_x,
        Direction::West => max_x - local_z,
        Direction::East => min_x + local_z,
        Direction::Down | Direction::Up => local_x,
    }
}

/// The world Z of a piece-local position.
pub fn chest_world_z(facing: Direction, min_z: i32, max_z: i32, local_x: i32, local_z: i32) -> (z: i32)
    requires
        i32::MIN <= world_z_spec(facing, min_z as int, max_z as int, local_x as int, local_z as int)
            <= i32::MAX,
    ensures
        z == world_z_spec(facing, min_z as int, max_z as int, local_x as int, local_z as int),
{
    match facing {
        Direction::North => max_z - local_z,
        Direction::South => min_z + local_z,
        Direction::West | Direction::East => min_z + local_x,
        Direction::Down | Direction::Up => local_z,
    }
}

// ---------------------------------------------------------------------------
// Numbering and seeding the containers of a structure

/// rustc-hash's `FxBuildHasher`, the hasher of `FxHashMap`; a value of it holds
/// no state that the library reads.
#[verifier::external_type_specification]
#[verifier::external_body]
pub struct ExFxBuildHasher(rustc_hash::FxBuildHasher);

/// Keys whose equality and hash are the derived ones of a tuple of integers,
/// so that a hash map keyed by them behaves as a map of their values.
pub(crate) trait PlainKey {}

impl PlainKey for (i32, i32) {}

impl PlainKey for (i32, i32, i32) {}

/// `HashMap::get` on an `FxHashMap` (std's `HashMap` with rustc-hash's
/// `FxBuildHasher`), copying the value out. The hasher only spreads the keys:
/// the map answers with the value last inserted under an equal key.
#[verifier::external_body]
pub(crate) fn fx_get<K: PlainKey + Eq + Hash, V: Copy>(map: &FxHashMap<K, V>, key: &K) -> (found: Option<V>)
    ensures
        found == (if map@.contains_key(*key) {
            Some(map@[*key])
        } else {
            None::<V>
        }),
{
    match map.get(key) {
        Some(value) => Some(*value),
        None => None,
    }
}

/// `HashMap::insert` on an `FxHashMap`: sets the value of `key`, replacing
/// the value of an equal key; the old value that it returns is dropped.
#[verifier::external_body]
pub(crate) fn fx_insert<K: PlainKey + Eq + Hash, V>(map: &mut FxHashMap<K, V>, key: K, value: V)
    ensures
        final(map)@ == old(map)@.insert(key, value),
{
    map.insert(key, value);
}

/// `HashMap::remove` on an `FxHashMap`: takes the value of `key` out of the
/// map, if it holds one.
#[verifier::external_body]
pub(crate) fn fx_remove<K: PlainKey + Eq + Hash, V>(map: &mut FxHashMap<K, V>, key: &K) -> (taken: Option<V>)
    ensures
        match taken {
            Some(v) => old(map)@.contains_key(*key) && v == old(map)@[*key] && final(map)@ == old(
                map,
            )@.remove(*key),
            None => !old(map)@.contains_key(*key) && final(map)@ == old(map)@,
        },
{
    map.remove(key)
}

/// A container position and loot table as a structure template places it.
#[derive(Clone, Debug)]
pub struct RawChest {
    pub x: i32,
    pub y: i32,
    pub z: i32,
    pub loot_table: String,
}

/// The decoration chunk of a container.
pub open spec fn chest_chunk(c: RawChest) -> (i32, i32) {
    ((c.x as int / 16) as i32, (c.z as int / 16) as i32)
}

/// The state of numbering containers: the next ordinal of each decoration
/// chunk, the containers kept so far, and where each position was kept.
pub type ChestNumbering = (Map<(i32, i32), i32>, Seq<Chest>, Map<(i32, i32, i32), usize>);

/// Numbering and seeding one more raw container `c`: it takes the next ordinal
/// of its decoration chunk and the loot seed of that ordinal; at a position
/// already seen it replaces the earlier container in place.
pub open spec fn seed_step(
    world_seed: i64,
    c: RawChest,
    structure_chunk: (i32, i32),
    decoration: DecorationSeedSpec,
    state: ChestNumbering,
) -> Result<ChestNumbering, Seq<char>> {
    let (ordinals, visible, index) = state;
    let key = chest_chunk(c);
    let ordinal: i32 = if ordinals.contains_key(key) {
        ordinals[key]
    } else {
        0
    };
    match loot_seed_outcome(world_seed, key.0, key.1, decoration, ordinal) {
        Err(e) => Err(e),
        Ok(seed) => {
            let chest = Chest {
                structure_chunk_x: structure_chunk.0,
                structure_chunk_z: structure_chunk.1,
                x: c.x,
                y: c.y,
                z: c.z,
                loot_table: c.loot_table,
                ordinal: ordinal,
                loot_seed: seed,
            };
            let position = (c.x, c.y, c.z);
            let next_ordinals = ordinals.insert(key, (ordinal + 1) as i32);
            if index.contains_key(position) {
                Ok((next_ordinals, visible.update(index[position] as int, chest), index))
            } else {
                Ok((next_ordinals, visible.push(chest), index.insert(position, visible.len() as usize)))
            }
        },
    }
}

/// Numbering and seeding the first `n` raw containers, in order.
pub open spec fn seed_chests_spec(
    world_seed: i64,
    raw: Seq<RawChest>,
    structure_chunk: (i32, i32),
    decoration: DecorationSeedSpec,
    n: int,
) -> Result<ChestNumbering, Seq<char>>
    decreases n,
{
    if n <= 0 {
        Ok((Map::empty(), Seq::empty(), Map::empty()))
    } else {
        match seed_chests_spec(world_seed, raw, structure_chunk, decoration, n - 1) {
            Err(e) => Err(e),
            Ok(state) => seed_step(world_seed, raw[n - 1], structure_chunk, decoration, state),
        }
    }
}

/// Numbers and seeds one more container.
fn seed_one(
    world_seed: i64,
    chest: &RawChest,
    structure_chunk: (i32, i32),
    decoration: DecorationSeedSpec,
    ordinals: &mut FxHashMap<(i32, i32), i32>,
    visible: &mut Vec<Chest>,
    index: &mut FxHashMap<(i32, i32, i32), usize>,
    bound: i32,
) -> (result: Result<(), Error>)
    requires
        0 <= bound < i32::MAX,
        forall|key: (i32, i32)|
            #[trigger] old(ordinals)@.contains_key(key) ==> 0 <= old(ordinals)@[key] <= bound,
        forall|p: (i32, i32, i32)|
            #[trigger] old(index)@.contains_key(p) ==> old(index)@[p] < old(visible)@.len(),
    ensures
        match seed_step(
            world_seed,
            *chest,
            structure_chunk,
            decoration,
            (old(ordinals)@, old(visible)@, old(index)@),
        ) {
            Ok(state) => result is Ok && state == (final(ordinals)@, final(visible)@, final(index)@),
            Err(message) => is_usage_error(result, message),
        },
        forall|key: (i32, i32)|
            #[trigger] final(ordinals)@.contains_key(key) ==> 0 <= final(ordinals)@[key] <= bound + 1,
        forall|p: (i32, i32, i32)|
            #[trigger] final(index)@.contains_key(p) ==> final(index)@[p] < final(visible)@.len(),
{
    let chunk_x = floor_div(chest.x as i64, 16) as i32;
    let chunk_z = floor_div(chest.z as i64, 16) as i32;
    let key = (chunk_x, chunk_z);
    assert(key == chest_chunk(*chest));
    let current_ordinal = match fx_get(ordinals, &key) {
        Some(ordinal) => ordinal,
        None => 0,
    };
    fx_insert(ordinals, key, current_ordinal + 1);
    let loot_seed = match container_loot_seed(world_seed, chunk_x, chunk_z, decoration, current_ordinal) {
        Ok(seed) => seed,
        Err(e) => {
            return Err(e);
        },
    };
    let prediction = Chest {
        structure_chunk_x: structure_chunk.0,
        structure_chunk_z: structure_chunk.1,
        x: chest.x,
        y: chest.y,
        z: chest.z,
        loot_table: chest.loot_table.clone(),
        ordinal: current_ordinal,
        loot_seed,
    };
    let position = (prediction.x, prediction.y, prediction.z);
    match fx_get(index, &position) {
        Some(idx) => {
            visible.set(idx, prediction);
        },
        None => {
            fx_insert(index, position, visible.len());
            visible.push(prediction);
        },
    }
    Ok(())
}

/// Numbers the containers of a structure per decoration chunk, gives each the
/// loot seed of its ordinal, and keeps one container per position.
pub fn dedup_and_seed_chests(
    world_seed: i64,
    raw: Vec<RawChest>,
    structure_chunk: (i32, i32),
    decoration: DecorationSeedSpec,
) -> (result: Result<Vec<Chest>, Error>)
    requires
        raw@.len() < i32::MAX,
    ensures
        match seed_chests_spec(world_seed, raw@, structure_chunk, decoration, raw@.len() as int) {
            Ok((_, visible, _)) => result matches Ok(v) && v@ == visible,
            Err(message) => is_usage_error(result, message),
        },
{
    let mut next_ordinal_by_chunk: FxHashMap<(i32, i32), i32> = FxHashMap::default();
    let mut visible: Vec<Chest> = Vec::new();
    let mut index_by_position: FxHashMap<(i32, i32, i32), usize> = FxHashMap::default();
    let mut k: usize = 0;
    while k < raw.len()
        invariant
            raw@.len() < i32::MAX,
            k <= raw@.len(),
            seed_chests_spec(world_seed, raw@, structure_chunk, decoration, k as int) == Ok::<
                ChestNumbering,
                Seq<char>,
            >((next_ordinal_by_chunk@, visible@, index_by_position@)),
            forall|key: (i32, i32)|
                #[trigger] next_ordinal_by_chunk@.contains_key(key) ==> 0
                    <= next_ordinal_by_chunk@[key] <= k,
            forall|p: (i32, i32, i32)|
                #[trigger] index_by_position@.contains_key(p) ==> index_by_position@[p]
                    < visible@.len(),
        decreases raw.len() - k,
    {
        match seed_one(
            world_seed,
            &raw[k],
            structure_chunk,
            decoration,
            &mut next_ordinal_by_chunk,
            &mut visible,
            &mut index_by_position,
            k as i32,
        ) {
            Ok(()) => {},
            Err(e) => {
                proof {
                    lemma_seed_error_persists(world_seed, raw@, structure_chunk, decoration, k + 1);
                }
                return Err(e);
            },
        }
        k = k + 1;
    }
    Ok(visible)
}

/// Once numbering fails, it fails with the same message for every longer prefix.
proof fn lemma_seed_error_persists(
    world_seed: i64,
    raw: Seq<RawChest>,
    structure_chunk: (i32, i32),
    decoration: DecorationSeedSpec,
    n: int,
)
    requires
        0 <= n <= raw.len(),
        seed_chests_spec(world_seed, raw, structure_chunk, decoration, n) is Err,
    ensures
        seed_chests_spec(world_seed, raw, structure_chunk, decoration, raw.len() as int)
            == seed_chests_spec(world_seed, raw, structure_chunk, decoration, n),
    decreases raw.len() - n,
{
    if n < raw.len() {
        lemma_seed_error_persists(world_seed, raw, structure_chunk, decoration, n + 1);
    }
}

/// The position of a container.
pub open spec fn chest_position(c: Chest) -> (i32, i32, i32) {
    (c.x, c.y, c.z)
}

/// The position index of a numbering points at the one kept container of
/// each position.
pub open spec fn numbering_consistent(state: ChestNumbering) -> bool {
    let (_, visible, index) = state;
    &&& forall|k: int|
        0 <= k < visible.len() ==> index.contains_key(chest_position(#[trigger] visible[k]))
            && index[chest_position(visible[k])] == k
    &&& forall|p: (i32, i32, i32)| #[trigger] index.contains_key(p) ==> index[p] < visible.len()
}

/// Every successful numbering step keeps the index consistent.
proof fn lemma_seed_step_consistent(
    world_seed: i64,
    c: RawChest,
    structure_chunk: (i32, i32),
    decoration: DecorationSeedSpec,
    state: ChestNumbering,
)
    requires
        numbering_consistent(state),
        state.1.len() < usize::MAX,
    ensures
        seed_step(world_seed, c, structure_chunk, decoration, state) matches Ok(next)
            ==> numbering_consistent(next) && next.1.len() <= state.1.len() + 1,
{
    let (ordinals, visible, index) = state;
    let position = (c.x, c.y, c.z);
    let key = chest_chunk(c);
    let ordinal: i32 = if ordinals.contains_key(key) {
        ordinals[key]
    } else {
        0
    };
    if let Ok(next) = seed_step(world_seed, c, structure_chunk, decoration, state) {
        let (_, visible2, index2) = next;
        let seed = loot_seed_outcome(world_seed, key.0, key.1, decoration, ordinal)->Ok_0;
        let chest = Chest {
            structure_chunk_x: structure_chunk.0,
            structure_chunk_z: structure_chunk.1,
            x: c.x,
            y: c.y,
            z: c.z,
            loot_table: c.loot_table,
            ordinal: ordinal,
            loot_seed: seed,
        };
        if index.contains_key(position) {
            let i = index[position] as int;
            assert(visible2 == visible.update(i, chest));
            assert forall|k: int| 0 <= k < visible2.len() implies index2.contains_key(
                chest_position(#[trigger] visible2[k]),
            ) && index2[chest_position(visible2[k])] == k by {
                if k != i {
                    assert(visible2[k] == visible[k]);
                } else {
                    assert(visible2[k] == chest);
                }
            }
        } else {
            assert(visible2 == visible.push(chest));
            assert(index2 == index.insert(position, visible.len() as usize));
            assert forall|k: int| 0 <= k < visible2.len() implies index2.contains_key(
                chest_position(#[trigger] visible2[k]),
            ) && index2[chest_position(visible2[k])] == k by {
                if k == visible.len() {
                    assert(visible2[k] == chest);
                }
                if k < visible.len() {
                    assert(visible2[k] == visible[k]);
                    assert(index.contains_key(chest_position(visible[k])));
                    assert(chest_position(visible[k]) != position);
                }
            }
        }
    }
}

/// Every successful numbering of a prefix is consistent.
proof fn lemma_seed_chests_consistent(
    world_seed: i64,
    raw: Seq<RawChest>,
    structure_chunk: (i32, i32),
    decoration: DecorationSeedSpec,
    n: int,
)
    requires
        n < usize::MAX,
    ensures
        seed_chests_spec(world_seed, raw, structure_chunk, decoration, n) matches Ok(state)
            ==> numbering_consistent(state) && state.1.len() <= if n < 0 {
            0
        } else {
            n
        },
    decreases n,
{
    if n > 0 {
        lemma_seed_chests_consistent(world_seed, raw, structure_chunk, decoration, n - 1);
        if let Ok(state) = seed_chests_spec(world_seed, raw, structure_chunk, decoration, n - 1) {
            lemma_seed_step_consistent(world_seed, raw[n - 1], structure_chunk, decoration, state);
        }
    }
}

/// A structure reports at most one container per block position: a later
/// container at the same position replaces the earlier one.
pub proof fn law_one_chest_per_position(
    world_seed: i64,
    raw: Seq<RawChest>,
    structure_chunk: (i32, i32),
    decoration: DecorationSeedSpec,
)
    requires
        raw.len() < i32::MAX,
    ensures
        seed_chests_spec(world_seed, raw, structure_chunk, decoration, raw.len() as int) matches Ok(
            (_, visible, _),
        ) ==> forall|i: int, j: int|
            0 <= i < j < visible.len() ==> chest_position(#[trigger] visible[i])
                != chest_position(#[trigger] visible[j]),
{
    lemma_seed_chests_consistent(world_seed, raw, structure_chunk, decoration, raw.len() as int);
}

/// Whether a reported container belongs to `structure_chunk` and carries the
/// loot seed that the decoration parameters give its own chunk and ordinal.
pub open spec fn seeded_by_catalog(
    c: Chest,
    world_seed: i64,
    decoration: DecorationSeedSpec,
    structure_chunk: (i32, i32),
) -> bool {
    &&& (c.structure_chunk_x, c.structure_chunk_z) == structure_chunk
    &&& loot_seed_outcome(
        world_seed,
        (c.x as int / 16) as i32,
        (c.z as int / 16) as i32,
        decoration,
        c.ordinal,
    ) == Ok::<i64, Seq<char>>(c.loot_seed)
}

/// Every container of a successful numbering of a prefix is seeded by the
/// decoration parameters.
proof fn lemma_seed_chests_by_catalog(
    world_seed: i64,
    raw: Seq<RawChest>,
    structure_chunk: (i32, i32),
    decoration: DecorationSeedSpec,
    n: int,
)
    requires
        n < usize::MAX,
    ensures
        seed_chests_spec(world_seed, raw, structure_chunk, decoration, n) matches Ok(state)
            ==> forall|k: int|
            0 <= k < state.1.len() ==> seeded_by_catalog(
                #[trigger] state.1[k],
                world_seed,
                decoration,
                structure_chunk,
            ),
    decreases n,
{
    if n > 0 {
        lemma_seed_chests_by_catalog(world_seed, raw, structure_chunk, decoration, n - 1);
        lemma_seed_chests_consistent(world_seed, raw, structure_chunk, decoration, n - 1);
        if let Ok(state) = seed_chests_spec(world_seed, raw, structure_chunk, decoration, n - 1) {
            let c = raw[n - 1];
            if let Ok(next) = seed_step(world_seed, c, structure_chunk, decoration, state) {
                let (ordinals, visible, index) = state;
                let key = chest_chunk(c);
                let ordinal: i32 = if ordinals.contains_key(key) {
                    ordinals[key]
                } else {
                    0
                };
                let seed = loot_seed_outcome(world_seed, key.0, key.1, decoration, ordinal)->Ok_0;
                let chest = Chest {
                    structure_chunk_x: structure_chunk.0,
                    structure_chunk_z: structure_chunk.1,
                    x: c.x,
                    y: c.y,
                    z: c.z,
                    loot_table: c.loot_table,
                    ordinal: ordinal,
                    loot_seed: seed,
                };
                assert(seeded_by_catalog(chest, world_seed, decoration, structure_chunk));
                let position = (c.x, c.y, c.z);
                if index.contains_key(position) {
                    assert(index[position] < visible.len());
                }
                assert forall|k: int| 0 <= k < next.1.len() implies seeded_by_catalog(
                    #[trigger] next.1[k],
                    world_seed,
                    decoration,
                    structure_chunk,
                ) by {
                    if index.contains_key(position) {
                        if k != index[position] as int {
                            assert(next.1[k] == visible[k]);
                        } else {
                            assert(next.1[k] == chest);
                        }
                    } else {
                        if k < visible.len() {
                            assert(next.1[k] == visible[k]);
                        } else {
                            assert(next.1[k] == chest);
                        }
                    }
                }
            }
        }
    }
}

/// The containers that a structure reports carry the loot seeds that the
/// catalog's decoration parameters give: each container's seed is the seed
/// of its own decoration chunk and ordinal.
pub proof fn law_seeds_follow_catalog(
    world_seed: i64,
    raw: Seq<RawChest>,
    structure_chunk: (i32, i32),
    decoration: DecorationSeedSpec,
)
    requires
        raw.len() < usize::MAX,
    ensures
        seed_chests_spec(world_seed, raw, structure_chunk, decoration, raw.len() as int) matches Ok(
            (_, visible, _),
        ) ==> forall|k: int|
            0 <= k < visible.len() ==> seeded_by_catalog(
                #[trigger] visible[k],
                world_seed,
                decoration,
                structure_chunk,
            ),
{
    lemma_seed_chests_by_catalog(world_seed, raw, structure_chunk, decoration, raw.len() as int);
}

/// A block `offset` blocks into chunk `chunk` (0 to 15) lies in that chunk.
pub(crate) proof fn lemma_block_in_chunk(chunk: int, offset: int)
    requires
        0 <= offset < 16,
    ensures
        (chunk * 16 + offset) / 16 == chunk,
{
    vstd::arithmetic::div_mod::lemma_fundamental_div_mod_converse(chunk * 16 + offset, 16, chunk, offset);
}

/// The four chests of a desert pyramid lie in the structure's chunk, so each
/// carries the loot seed of its own decoration chunk and ordinal, as the
/// catalog's decoration parameters give it.
pub proof fn law_pyramid_seeds_follow_catalog(
    chest: Chest,
    world_seed: i64,
    chunk_x: i32,
    chunk_z: i32,
    facing: Direction,
    base_y: i32,
    decoration: DecorationSeedSpec,
    k: int,
)
    requires
        0 <= k < 4,
        facing != Direction::Up && facing != Direction::Down,
        is_pyramid_chest(chest, world_seed, chunk_x, chunk_z, facing, base_y, decoration, k),
    ensures
        seeded_by_catalog(chest, world_seed, decoration, (chunk_x, chunk_z)),
{
    lemma_block_in_chunk(chunk_x as int, chest.x - chunk_x * 16);
    lemma_block_in_chunk(chunk_z as int, chest.z - chunk_z * 16);
}

/// A buried treasure's chest lies in the structure's chunk, so it carries
/// the loot seed of its own decoration chunk and ordinal.
pub proof fn law_treasure_seeds_follow_catalog(
    chest: Chest,
    world_seed: i64,
    chunk_x: i32,
    chunk_z: i32,
    y: i32,
    decoration: DecorationSeedSpec,
    seed: i64,
)
    requires
        loot_seed_outcome(world_seed, chunk_x, chunk_z, decoration, 0) == Ok::<i64, Seq<char>>(seed),
        is_treasure_chest(chest, chunk_x, chunk_z, y, seed),
    ensures
        seeded_by_catalog(chest, world_seed, decoration, (chunk_x, chunk_z)),
{
    lemma_block_in_chunk(chunk_x as int, 9);
    lemma_block_in_chunk(chunk_z as int, 9);
}

/// Buried treasure passes in about one chunk in a hundred: the first
/// `nextFloat()` of the chunk's region random is its first 24-bit draw `u`
/// over `2^24`, and the check passes exactly when that float is below
/// `0.01f32`, the `f32` nearest to `0.01`, which is `10737418 / 2^30`; on
/// 24-bit draws that is exactly `u / 2^24 < 1/100`.
pub proof fn law_treasure_one_in_a_hundred(world_seed: i64, chunk_x: i32, chunk_z: i32)
    ensures
        ({
            let seed = region_seed_spec(world_seed as u64, chunk_x, chunk_z, FREQUENCY_SALT);
            let u = top_bits(lcg_step(scramble(seed as i64)), 24) as int;
            &&& buried_treasure_passes_spec(world_seed, chunk_x, chunk_z) <==> u * 0x4000_0000 < 10_737_418
                * 0x100_0000
            &&& buried_treasure_passes_spec(world_seed, chunk_x, chunk_z) <==> 100 * u < 0x100_0000
        }),
{
}

/// The frame of a piece as vanilla's `StructurePiece.getWorldX/Z` lays it
/// out in its box `min_x..=max_x`, `min_z..=max_z`: a south-facing piece
/// starts at its north-west corner and runs local Z toward +Z and local X
/// toward +X; north mirrors south in Z, west mirrors east in X; an east- or
/// west-facing piece runs local X along +Z, and local Z along +X (east) or
/// -X (west).
pub proof fn law_piece_frame(min_x: int, max_x: int, min_z: int, max_z: int, lx: int, lz: int)
    ensures
        world_z_spec(Direction::South, min_z, max_z, lx, 0) == min_z,
        world_z_spec(Direction::South, min_z, max_z, lx, lz + 1) == world_z_spec(
            Direction::South,
            min_z,
            max_z,
            lx,
            lz,
        ) + 1,
        world_z_spec(Direction::South, min_z, max_z, lx, lz) + world_z_spec(
            Direction::North,
            min_z,
            max_z,
            lx,
            lz,
        ) == min_z + max_z,
        forall|d: Direction|
            (d == Direction::North || d == Direction::South) ==> world_x_spec(d, min_x, max_x, 0, lz)
                == min_x && #[trigger] world_x_spec(d, min_x, max_x, lx + 1, lz) == world_x_spec(
                d,
                min_x,
                max_x,
                lx,
                lz,
            ) + 1,
        world_x_spec(Direction::East, min_x, max_x, lx, 0) == min_x,
        world_x_spec(Direction::East, min_x, max_x, lx, lz + 1) == world_x_spec(
            Direction::East,
            min_x,
            max_x,
            lx,
            lz,
        ) + 1,
        world_x_spec(Direction::East, min_x, max_x, lx, lz) + world_x_spec(
            Direction::West,
            min_x,
            max_x,
            lx,
            lz,
        ) == min_x + max_x,
        forall|d: Direction|
            (d == Direction::East || d == Direction::West) ==> world_z_spec(d, min_z, max_z, 0, lz)
                == min_z && #[trigger] world_z_spec(d, min_z, max_z, lx + 1, lz) == world_z_spec(
                d,
                min_z,
                max_z,
                lx,
                lz,
            ) + 1,
{
}

/// The chests of a desert pyramid lie in its 21 x 21 footprint at the
/// chunk's corner, two blocks from the centre column `(10, 10)` along an axis:
/// chest `k` of a south-facing pyramid is at local `(10, 8)`, `(12, 10)`,
/// `(10, 12)`, `(8, 10)` in turn, counted from the north-west corner, and the
/// four chests stand at four different positions for every facing.
pub proof fn law_pyramid_chest_layout(chunk_x: i32, chunk_z: i32, facing: Direction, j: int, k: int)
    requires
        facing != Direction::Up && facing != Direction::Down,
        0 <= j < 4,
        0 <= k < 4,
    ensures
        ({
            let min_x = chunk_x * 16;
            let min_z = chunk_z * 16;
            let p = pyramid_chest_local(k);
            let x = world_x_spec(facing, min_x, min_x + 20, p.0, p.1);
            let z = world_z_spec(facing, min_z, min_z + 20, p.0, p.1);
            &&& min_x <= x <= min_x + 20 && min_z <= z <= min_z + 20
            &&& (x - min_x == 10 && (z - min_z == 8 || z - min_z == 12)) || (z - min_z == 10 && (x
                - min_x == 8 || x - min_x == 12))
            &&& facing == Direction::South ==> (x - min_x, z - min_z) == p
        }),
        j != k ==> ({
            let min_x = chunk_x * 16;
            let min_z = chunk_z * 16;
            let pj = pyramid_chest_local(j);
            let pk = pyramid_chest_local(k);
            (world_x_spec(facing, min_x, min_x + 20, pj.0, pj.1), world_z_spec(facing, min_z, min_z + 20, pj.0, pj.1))
                != (world_x_spec(facing, min_x, min_x + 20, pk.0, pk.1), world_z_spec(
                facing,
                min_z,
                min_z + 20,
                pk.0,
                pk.1,
            ))
        }),
        pyramid_chest_local(0) == (10int, 8int),
        pyramid_chest_local(1) == (12int, 10int),
        pyramid_chest_local(2) == (10int, 12int),
        pyramid_chest_local(3) == (8int, 10int),
{
}

/// The pillager outpost check reads the chunk coordinates only to 16-chunk
/// precision: chunks of one 16 x 16 block of chunks all pass or all fail.
pub proof fn law_pillager_check_per_block(world_seed: i64, x1: i32, z1: i32, x2: i32, z2: i32)
    requires
        x1 >> 4i32 == x2 >> 4i32,
        z1 >> 4i32 == z2 >> 4i32,
    ensures
        pillager_passes_spec(world_seed, x1, z1) == pillager_passes_spec(world_seed, x2, z2),
{
}

// ---------------------------------------------------------------------------
// Scanner decisions

/// The message for a structure without a full scanner.
pub open spec fn no_scanner_text(name: Seq<char>) -> Seq<char> {
    "Rust chests and find do not support "@ + name + " yet"@
}

/// The scan kind of a catalog entry, or the structure error for an entry that
/// only supports candidate calculation.
pub fn scan_kind_for(structure: &CandidateStructure) -> (result: Result<ScanKind, Error>)
    ensures
        match structure.support {
            ScanSupport::Full(kind) => result == Ok::<ScanKind, Error>(kind),
            ScanSupport::CandidatesOnly => is_structure_error(result, no_scanner_text(structure.name@)),
        },
{
    match structure.support {
        ScanSupport::Full(kind) => Ok(kind),
        ScanSupport::CandidatesOnly => {
            let mut message = "Rust chests and find do not support ".to_owned();
            message.append(structure.name);
            message.append(" yet");
            proof {
                assert(message@ =~= no_scanner_text(structure.name@));
            }
            Err(Error::Structure(message))
        },
    }
}

/// The message for a scanned structure without decoration seed parameters.
pub open spec fn no_decoration_text(name: Seq<char>) -> Seq<char> {
    name + " scanner has no static decoration seed specification"@
}

/// The decoration seed parameters that a scanner seeds containers with.
pub fn scanner_decoration(structure: &CandidateStructure) -> (result: Result<DecorationSeedSpec, Error>)
    ensures
        match structure.decoration {
            Some(spec) => result == Ok::<DecorationSeedSpec, Error>(spec),
            None => result matches Err(Error::Worldgen(m)) && m@ == no_decoration_text(structure.name@),
        },
{
    match structure.decoration {
        Some(spec) => Ok(spec),
        None => {
            let mut message = String::new();
            message.append(structure.name);
            message.append(" scanner has no static decoration seed specification");
            proof {
                assert(message@ =~= no_decoration_text(structure.name@));
            }
            Err(Error::Worldgen(message))
        },
    }
}

/// The seed of the chunk random of a structure: the world seed's generator
/// draws two longs `a` and `b`; the seed is `x * a ^ z * b ^ world_seed`.
pub open spec fn chunk_random_seed_spec(world_seed: i64, chunk_x: i32, chunk_z: i32) -> i64 {
    let (s1, a) = next_long_spec(scramble(world_seed));
    let (s2, b) = next_long_spec(s1);
    i64_specs::wrapping_mul(chunk_x as i64, a) ^ i64_specs::wrapping_mul(chunk_z as i64, b)
        ^ world_seed
}

/// The seed of the chunk random (and feature random) of a structure start.
pub fn chunk_random_seed(world_seed: i64, chunk_x: i32, chunk_z: i32) -> (seed: i64)
    ensures
        seed == chunk_random_seed_spec(world_seed, chunk_x, chunk_z),
{
    let mut random = LegacyRandom48::new(world_seed);
    let x_mult = random.next_long();
    let z_mult = random.next_long();
    (chunk_x as i64).wrapping_mul(x_mult) ^ (chunk_z as i64).wrapping_mul(z_mult) ^ world_seed
}

/// The chunk random of a structure start.
pub fn chunk_random(world_seed: i64, chunk_x: i32, chunk_z: i32) -> (random: LegacyRandom48)
    ensures
        random.state() == scramble(chunk_random_seed_spec(world_seed, chunk_x, chunk_z)),
{
    LegacyRandom48::new(chunk_random_seed(world_seed, chunk_x, chunk_z))
}

/// The piece-local positions of the four chests of a desert pyramid, in order.
pub open spec fn pyramid_chest_local(k: int) -> (int, int) {
    if k == 0 {
        (10, 8)
    } else if k == 1 {
        (12, 10)
    } else if k == 2 {
        (10, 12)
    } else {
        (8, 10)
    }
}

/// The first of the four pyramid chests whose loot seed is refused, if any.
pub open spec fn pyramid_seed_error(
    world_seed: i64,
    chunk_x: i32,
    chunk_z: i32,
    decoration: DecorationSeedSpec,
    k: int,
) -> Option<Seq<char>>
    decreases 4 - k,
{
    if k < 0 || k >= 4 {
        None
    } else {
        match loot_seed_outcome(world_seed, chunk_x, chunk_z, decoration, k as i32) {
            Err(m) => Some(m),
            Ok(_) => pyramid_seed_error(world_seed, chunk_x, chunk_z, decoration, k + 1),
        }
    }
}

/// Whether `chest` is the `k`-th chest of a desert pyramid whose piece box
/// starts at chunk `(chunk_x, chunk_z)`, faces `facing` and has its floor at
/// `base_y`.
pub open spec fn is_pyramid_chest(
    chest: Chest,
    world_seed: i64,
    chunk_x: i32,
    chunk_z: i32,
    facing: Direction,
    base_y: i32,
    decoration: DecorationSeedSpec,
    k: int,
) -> bool {
    let min_x = chunk_x * 16;
    let min_z = chunk_z * 16;
    let local = pyramid_chest_local(k);
    &&& chest.structure_chunk_x == chunk_x
    &&& chest.structure_chunk_z == chunk_z
    &&& chest.x == world_x_spec(facing, min_x, min_x + 20, local.0, local.1)
    &&& chest.y == base_y - 11
    &&& chest.z == world_z_spec(facing, min_z, min_z + 20, local.0, local.1)
    &&& chest.loot_table@ == "minecraft:chests/desert_pyramid"@
    &&& chest.ordinal == k
    &&& loot_seed_outcome(world_seed, chunk_x, chunk_z, decoration, k as i32) == Ok::<i64, Seq<char>>(
        chest.loot_seed,
    )
}

/// The block corner `(chunk_x * 16, chunk_z * 16)` of a desert pyramid's
/// chunk, or the error for the axis whose block coordinate overflows.
pub fn desert_pyramid_origin(chunk_x: i32, chunk_z: i32) -> (result: Result<(i32, i32), Error>)
    ensures
        !(i32::MIN <= chunk_x * 16 <= i32::MAX) ==> (result matches Err(Error::Worldgen(m)) && m@
            == pyramid_overflow_text("x"@)),
        i32::MIN <= chunk_x * 16 <= i32::MAX && !(i32::MIN <= chunk_z * 16 <= i32::MAX) ==> (
        result matches Err(Error::Worldgen(m)) && m@ == pyramid_overflow_text("z"@)),
        i32::MIN <= chunk_x * 16 <= i32::MAX && i32::MIN <= chunk_z * 16 <= i32::MAX ==> result
            == Ok::<(i32, i32), Error>(((chunk_x * 16) as i32, (chunk_z * 16) as i32)),
{
    proof {
        reveal_strlit("x");
        reveal_strlit("z");
    }
    let min_x = match chunk_x.checked_mul(16) {
        Some(v) => v,
        None => {
            let message = "desert pyramid chunk x overflowed".to_owned();
            proof {
                reveal_strlit("desert pyramid chunk x overflowed");
                reveal_strlit("desert pyramid chunk ");
                reveal_strlit(" overflowed");
                assert(message@ =~= pyramid_overflow_text("x"@));
            }
            return Err(Error::Worldgen(message));
        },
    };
    let min_z = match chunk_z.checked_mul(16) {
        Some(v) => v,
        None => {
            let message = "desert pyramid chunk z overflowed".to_owned();
            proof {
                reveal_strlit("desert pyramid chunk z overflowed");
                reveal_strlit("desert pyramid chunk ");
                reveal_strlit(" overflowed");
                assert(message@ =~= pyramid_overflow_text("z"@));
            }
            return Err(Error::Worldgen(message));
        },
    };
    Ok((min_x, min_z))
}

/// Whether a desert pyramid stands clear of the sea: the block below the
/// surface at each of its four corners lies at or above sea level.
pub fn pyramid_above_sea(corner_heights: [i32; 4], sea_level: i32) -> (stands: bool)
    requires
        forall|k: int| 0 <= k < 4 ==> #[trigger] corner_heights[k] > i32::MIN,
    ensures
        stands == forall|k: int| 0 <= k < 4 ==> #[trigger] corner_heights[k] - 1 >= sea_level,
{
    let mut k: usize = 0;
    while k < 4
        invariant
            k <= 4,
            forall|j: int| 0 <= j < 4 ==> #[trigger] corner_heights[j] > i32::MIN,
            forall|j: int| 0 <= j < k ==> #[trigger] corner_heights[j] - 1 >= sea_level,
        decreases 4 - k,
    {
        if corner_heights[k] - 1 < sea_level {
            return false;
        }
        k = k + 1;
    }
    true
}

/// The floor height of a desert pyramid: the lowest surface height of its
/// footprint, lowered by the `nextInt(3)` draw `ground_draw`.
pub fn pyramid_floor(heights: &Vec<i32>, ground_draw: i32) -> (floor: i32)
    requires
        i32::MIN <= lowest_height(heights@) - ground_draw <= i32::MAX,
    ensures
        floor == lowest_height(heights@) - ground_draw,
{
    let lowest = lowest_of(heights);
    lowest - ground_draw
}

/// The message for a structure chunk whose block coordinate overflows.
pub open spec fn pyramid_overflow_text(axis: Seq<char>) -> Seq<char> {
    "desert pyramid chunk "@ + axis + " overflowed"@
}

/// The four chests of a desert pyramid, from its facing and floor height.
pub fn desert_pyramid_chests(
    world_seed: i64,
    chunk_x: i32,
    chunk_z: i32,
    facing: Direction,
    base_y: i32,
    decoration: DecorationSeedSpec,
) -> (result: Result<Vec<Chest>, Error>)
    requires
        chunk_x * 16 > i32::MAX || chunk_x * 16 < i32::MIN || chunk_x * 16 + 20 <= i32::MAX,
        chunk_z * 16 > i32::MAX || chunk_z * 16 < i32::MIN || chunk_z * 16 + 20 <= i32::MAX,
        base_y >= i32::MIN + 11,
    ensures
        !(i32::MIN <= chunk_x * 16 <= i32::MAX) ==> (result matches Err(Error::Worldgen(m)) && m@
            == pyramid_overflow_text("x"@)),
        i32::MIN <= chunk_x * 16 <= i32::MAX && !(i32::MIN <= chunk_z * 16 <= i32::MAX) ==> (
        result matches Err(Error::Worldgen(m)) && m@ == pyramid_overflow_text("z"@)),
        i32::MIN <= chunk_x * 16 <= i32::MAX && i32::MIN <= chunk_z * 16 <= i32::MAX ==> match
            pyramid_seed_error(world_seed, chunk_x, chunk_z, decoration, 0) {
            Some(m) => is_usage_error(result, m),
            None => result matches Ok(v) && v@.len() == 4 && forall|k: int|
                0 <= k < 4 ==> is_pyramid_chest(
                    #[trigger] v@[k],
                    world_seed,
                    chunk_x,
                    chunk_z,
                    facing,
                    base_y,
                    decoration,
                    k,
                ),
        },
{
    proof {
        reveal_strlit("x");
        reveal_strlit("z");
    }
    let (min_x, min_z) = match desert_pyramid_origin(chunk_x, chunk_z) {
        Ok(corner) => corner,
        Err(e) => return Err(e),
    };
    let z_axis = match facing {
        Direction::North | Direction::South => true,
        _ => false,
    };
    let (box_width, box_depth) = if z_axis {
        (21i32, 21i32)
    } else {
        (21i32, 21i32)
    };
    let max_x = min_x + box_width - 1;
    let max_z = min_z + box_depth - 1;
    let locals: [(i32, i32); 4] = [(10, 8), (12, 10), (10, 12), (8, 10)];
    let mut chests: Vec<Chest> = Vec::new();
    let mut k: usize = 0;
    while k < 4
        invariant
            k <= 4,
            min_x == chunk_x * 16,
            min_z == chunk_z * 16,
            max_x == min_x + 20,
            max_z == min_z + 20,
            base_y >= i32::MIN + 11,
            locals@ == seq![(10i32, 8i32), (12i32, 10i32), (10i32, 12i32), (8i32, 10i32)],
            chests@.len() == k,
            pyramid_seed_error(world_seed, chunk_x, chunk_z, decoration, 0) == pyramid_seed_error(
                world_seed,
                chunk_x,
                chunk_z,
                decoration,
                k as int,
            ),
            forall|j: int|
                0 <= j < k ==> is_pyramid_chest(
                    #[trigger] chests@[j],
                    world_seed,
                    chunk_x,
                    chunk_z,
                    facing,
                    base_y,
                    decoration,
                    j,
                ),
        decreases 4 - k,
    {
        let (local_x, local_z) = locals[k];
        proof {
            assert((local_x as int, local_z as int) == pyramid_chest_local(k as int));
        }
        let loot_seed = match container_loot_seed(world_seed, chunk_x, chunk_z, decoration, k as i32) {
            Ok(seed) => seed,
            Err(e) => {
                return Err(e);
            },
        };
        let chest = Chest {
            structure_chunk_x: chunk_x,
            structure_chunk_z: chunk_z,
            x: chest_world_x(facing, min_x, max_x, local_x, local_z),
            y: base_y - 11,
            z: chest_world_z(facing, min_z, max_z, local_x, local_z),
            loot_table: "minecraft:chests/desert_pyramid".to_owned(),
            ordinal: k as i32,
            loot_seed,
        };
        chests.push(chest);
        k = k + 1;
    }
    Ok(chests)
}

/// The message for a buried treasure chest coordinate that overflows.
pub open spec fn treasure_overflow_text(axis: Seq<char>) -> Seq<char> {
    "buried treasure chest "@ + axis + " overflowed"@
}

/// The chest of a buried treasure in chunk `(chunk_x, chunk_z)`: at block
/// 9, 9 of the chunk and height `y`, the first container of the chunk, with
/// loot seed `seed`.
pub open spec fn is_treasure_chest(chest: Chest, chunk_x: i32, chunk_z: i32, y: i32, seed: i64) -> bool {
    &&& chest.structure_chunk_x == chunk_x
    &&& chest.structure_chunk_z == chunk_z
    &&& chest.x == chunk_x * 16 + 9
    &&& chest.y == y
    &&& chest.z == chunk_z * 16 + 9
    &&& chest.loot_table@ == "minecraft:chests/buried_treasure"@
    &&& chest.ordinal == 0
    &&& chest.loot_seed == seed
}

/// What a buried treasure scan reports once the structure is placed: the
/// chest stands at block 9, 9 of the chunk, at `chest_y` when the terrain
/// offers a supporting block and nowhere otherwise.
pub fn buried_treasure_scan(
    world_seed: i64,
    chunk_x: i32,
    chunk_z: i32,
    chest_y: Option<i32>,
    decoration: DecorationSeedSpec,
) -> (result: Result<Scan, Error>)
    ensures
        !(chunk_x * 16 + 9 <= i32::MAX && chunk_x * 16 >= i32::MIN) ==> (result matches Err(
            Error::Worldgen(m),
        ) && m@ == treasure_overflow_text("x"@)),
        chunk_x * 16 + 9 <= i32::MAX && chunk_x * 16 >= i32::MIN && !(chunk_z * 16 + 9 <= i32::MAX
            && chunk_z * 16 >= i32::MIN) ==> (result matches Err(Error::Worldgen(m)) && m@
            == treasure_overflow_text("z"@)),
        chunk_x * 16 + 9 <= i32::MAX && chunk_x * 16 >= i32::MIN && chunk_z * 16 + 9 <= i32::MAX
            && chunk_z * 16 >= i32::MIN ==> match chest_y {
            None => result matches Ok(scan) && scan.valid_structure && scan.chests@.len() == 0,
            Some(y) => match loot_seed_outcome(world_seed, chunk_x, chunk_z, decoration, 0) {
                Err(m) => is_usage_error(result, m),
                Ok(seed) => result matches Ok(scan) && scan.valid_structure && scan.chests@.len()
                    == 1 && is_treasure_chest(scan.chests@[0], chunk_x, chunk_z, y, seed),
            },
        },
{
    proof {
        reveal_strlit("x");
        reveal_strlit("z");
        reveal_strlit("buried treasure chest ");
        reveal_strlit(" overflowed");
    }
    let chest_x = match chunk_x.checked_mul(16) {
        Some(v) => v.checked_add(9),
        None => None,
    };
    let chest_x = match chest_x {
        Some(v) => v,
        None => {
            let message = "buried treasure chest x overflowed".to_owned();
            proof {
                reveal_strlit("buried treasure chest x overflowed");
                assert(message@ =~= treasure_overflow_text("x"@));
            }
            return Err(Error::Worldgen(message));
        },
    };
    let chest_z = match chunk_z.checked_mul(16) {
        Some(v) => v.checked_add(9),
        None => None,
    };
    let chest_z = match chest_z {
        Some(v) => v,
        None => {
            let message = "buried treasure chest z overflowed".to_owned();
            proof {
                reveal_strlit("buried treasure chest z overflowed");
                assert(message@ =~= treasure_overflow_text("z"@));
            }
            return Err(Error::Worldgen(message));
        },
    };
    let chest_y = match chest_y {
        Some(y) => y,
        None => {
            return Ok(Scan { valid_structure: true, chests: Vec::new() });
        },
    };
    let loot_seed = match container_loot_seed(world_seed, chunk_x, chunk_z, decoration, 0) {
        Ok(seed) => seed,
        Err(e) => {
            return Err(e);
        },
    };
    let mut chests: Vec<Chest> = Vec::new();
    chests.push(
        Chest {
            structure_chunk_x: chunk_x,
            structure_chunk_z: chunk_z,
            x: chest_x,
            y: chest_y,
            z: chest_z,
            loot_table: "minecraft:chests/buried_treasure".to_owned(),
            ordinal: 0,
            loot_seed,
        },
    );
    Ok(Scan { valid_structure: true, chests })
}


/// Whether the nether's weighted structure choice takes the bastion before
/// the fortress: the chunk random's first `nextInt(5)` is at least 2.
pub open spec fn bastion_first_spec(world_seed: i64, chunk_x: i32, chunk_z: i32) -> bool {
    next_int_spec(scramble(chunk_random_seed_spec(world_seed, chunk_x, chunk_z)), 5).1 >= 2
}

/// Whether the nether's weighted structure choice takes the bastion first;
/// otherwise the bastion is reached only where the fortress may not stand.
pub fn bastion_selected_first(world_seed: i64, chunk_x: i32, chunk_z: i32) -> (first: bool)
    ensures
        first == bastion_first_spec(world_seed, chunk_x, chunk_z),
{
    let mut random = chunk_random(world_seed, chunk_x, chunk_z);
    random.next_int(5) >= 2
}

/// The village variants in the order of the weighted choice, each with its
/// index among the surface structures.
pub open spec fn village_variant(k: int) -> (Seq<char>, i32) {
    if k == 0 {
        ("minecraft:village_desert"@, 21)
    } else if k == 1 {
        ("minecraft:village_plains"@, 22)
    } else if k == 2 {
        ("minecraft:village_savanna"@, 23)
    } else if k == 3 {
        ("minecraft:village_snowy"@, 24)
    } else {
        ("minecraft:village_taiga"@, 25)
    }
}

/// The village variants, in the order from which the weighted choice removes
/// them, each with its index among the surface structures.
pub fn village_variants() -> (variants: Vec<(&'static str, i32)>)
    ensures
        variants@.len() == 5,
        forall|k: int|
            0 <= k < 5 ==> (#[trigger] variants@[k]).0@ == village_variant(k).0 && variants@[k].1
                == village_variant(k).1,
{
    proof {
        reveal_strlit("minecraft:village_desert");
        reveal_strlit("minecraft:village_plains");
        reveal_strlit("minecraft:village_savanna");
        reveal_strlit("minecraft:village_snowy");
        reveal_strlit("minecraft:village_taiga");
    }
    let mut variants: Vec<(&'static str, i32)> = Vec::new();
    variants.push(("minecraft:village_desert", 21));
    variants.push(("minecraft:village_plains", 22));
    variants.push(("minecraft:village_savanna", 23));
    variants.push(("minecraft:village_snowy", 24));
    variants.push(("minecraft:village_taiga", 25));
    variants
}

/// The decoration seed parameters of a village variant: its index among the
/// surface structures, step 4, no ordinal offset, seeded directly.
pub fn village_decoration(structure_index: i32) -> (spec: DecorationSeedSpec)
    ensures
        spec == (DecorationSeedSpec {
            structure_index,
            step: 4,
            ordinal_offset: 0,
            shortcut: ContainerSeedShortcut::Direct,
        }),
{
    DecorationSeedSpec {
        structure_index,
        step: 4,
        ordinal_offset: 0,
        shortcut: ContainerSeedShortcut::Direct,
    }
}

} // verus!
