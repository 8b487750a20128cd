//! Placing a structure template in the world and predicting the loot seeds of
//! the chests that its data markers create.
//!
//! Placing a template loads every randomizable container first; loading draws
//! one long from the decoration random of the container's chunk, whether or
//! not the container has a loot table. The data markers run afterwards, and
//! each chest marker draws the next long of its chunk's random as its loot seed.

use vstd::prelude::*;

use rustc_hash::FxHashMap;

use crate::catalog::{shipwreck_decoration, shipwreck_decoration_spec, DecorationSeedSpec};
use crate::decoration_seed::{
    container_loot_seed, feature_state, loot_seed_outcome, next_int_spec, next_long_spec,
    DecorationRandom, RandomState,
};
use crate::error::{is_usage_error, Error};
use crate::template_data::{TemplateBlockPos, TemplateChest, TemplateContainerData, TemplateMarker};
use crate::worldgen::{
    fx_get, fx_insert, fx_remove, lemma_block_in_chunk, seeded_by_catalog, shipwreck_marker_loot_table,
    shipwreck_marker_table, Chest, RawChest, Scan,
};

verus! {

/// The rotation of a placed template.
#[derive(Clone, Copy, Debug, PartialEq, Eq, Structural)]
pub enum Rotation {
    Unrotated,
    Clockwise90,
    Clockwise180,
    Counterclockwise90,
}

/// A template-local position `(x, z)` rotated around the pivot `(px, pz)`, as
/// vanilla's `StructureTemplate.transform` does without mirroring.
pub open spec fn rotate_xz(rotation: Rotation, x: int, z: int, px: int, pz: int) -> (int, int) {
    match rotation {
        Rotation::Unrotated => (x, z),
        Rotation::Clockwise90 => (px + pz - z, pz - px + x),
        Rotation::Clockwise180 => (px + px - x, pz + pz - z),
        Rotation::Counterclockwise90 => (px - pz + z, px + pz - x),
    }
}

/// A draw of `nextInt(next_int_bound)` that the random of one chunk makes
/// before any container is loaded.
#[derive(Clone, Copy, Debug)]
pub struct RandomPrefix {
    pub chunk: (i32, i32),
    pub next_int_bound: i32,
}

/// A template placed at `origin` with a rotation around `pivot`.
#[derive(Clone, Copy, Debug)]
pub struct TemplatePlacement {
    pub template: TemplateContainerData,
    pub origin: (i32, i32, i32),
    pub rotation: Rotation,
    pub pivot: (i32, i32, i32),
}

/// Whether a value fits an `i32`.
pub open spec fn fits_i32(v: int) -> bool {
    i32::MIN <= v <= i32::MAX
}

/// Whether the world position of the template-local position `(x, y, z)`
/// fits the `i32` range.
pub open spec fn position_fits(p: TemplatePlacement, x: int, y: int, z: int) -> bool {
    let w = world_position_spec(p, x, y, z);
    fits_i32(w.0) && fits_i32(w.1) && fits_i32(w.2)
}

/// The largest template-local X and Z of the template's corners.
pub open spec fn far_corner(p: TemplatePlacement) -> (int, int) {
    (
        if p.template.size[0] > 0 {
            p.template.size[0] - 1
        } else {
            0
        },
        if p.template.size[2] > 0 {
            p.template.size[2] - 1
        } else {
            0
        },
    )
}

/// Whether the world positions of the template's four corners fit the
/// `i32` range.
pub open spec fn corners_fit(p: TemplatePlacement) -> bool {
    let c = far_corner(p);
    &&& position_fits(p, 0, 0, 0)
    &&& position_fits(p, c.0, 0, 0)
    &&& position_fits(p, 0, 0, c.1)
    &&& position_fits(p, c.0, 0, c.1)
}

/// Whether every position that placing the template computes fits the `i32`
/// range: its corners, its randomizable containers, its data markers and
/// the block below each marker.
pub open spec fn placement_ok(p: TemplatePlacement) -> bool {
    &&& corners_fit(p)
    &&& forall|k: int|
        0 <= k < p.template.randomizable_containers@.len() ==> {
            let c = #[trigger] p.template.randomizable_containers@[k];
            position_fits(p, c.x as int, c.y as int, c.z as int)
        }
    &&& forall|k: int|
        0 <= k < p.template.markers@.len() ==> {
            let m = #[trigger] p.template.markers@[k];
            &&& position_fits(p, m.x as int, m.y as int, m.z as int)
            &&& i32::MIN <= world_position_spec(p, m.x as int, m.y as int, m.z as int).1 - 1
        }
    &&& p.template.markers@.len() < 0x7FFF_FFFF
}

/// The world position of the template-local position `(x, y, z)`.
pub open spec fn world_position_spec(p: TemplatePlacement, x: int, y: int, z: int) -> (int, int, int) {
    let r = rotate_xz(p.rotation, x, z, p.pivot.0 as int, p.pivot.2 as int);
    (p.origin.0 + r.0, p.origin.1 + y, p.origin.2 + r.1)
}

/// The decoration chunk of a world position.
pub open spec fn decoration_chunk_spec(position: (int, int, int)) -> (i32, i32) {
    ((position.0 / 16) as i32, (position.2 / 16) as i32)
}

/// The smallest and largest world X and Z of the template's corners.
pub open spec fn horizontal_bounds_spec(p: TemplatePlacement) -> (int, int, int, int) {
    let max_x = if p.template.size[0] > 0 {
        p.template.size[0] - 1
    } else {
        0
    };
    let max_z = if p.template.size[2] > 0 {
        p.template.size[2] - 1
    } else {
        0
    };
    let a = world_position_spec(p, 0, 0, 0);
    let b = world_position_spec(p, max_x, 0, 0);
    let c = world_position_spec(p, 0, 0, max_z);
    let d = world_position_spec(p, max_x, 0, max_z);
    (
        min4(a.0, b.0, c.0, d.0),
        max4(a.0, b.0, c.0, d.0),
        min4(a.2, b.2, c.2, d.2),
        max4(a.2, b.2, c.2, d.2),
    )
}

/// The least of four integers.
pub open spec fn min4(a: int, b: int, c: int, d: int) -> int {
    let ab = if a <= b {
        a
    } else {
        b
    };
    let cd = if c <= d {
        c
    } else {
        d
    };
    if ab <= cd {
        ab
    } else {
        cd
    }
}

/// The greatest of four integers.
pub open spec fn max4(a: int, b: int, c: int, d: int) -> int {
    let ab = if a >= b {
        a
    } else {
        b
    };
    let cd = if c >= d {
        c
    } else {
        d
    };
    if ab >= cd {
        ab
    } else {
        cd
    }
}

/// The state that the random of `chunk` starts from: the chunk's feature
/// random, after the prefix draw when the prefix names this chunk.
pub open spec fn random_start(
    world_seed: i64,
    decoration: DecorationSeedSpec,
    chunk: (i32, i32),
    prefix: Option<RandomPrefix>,
) -> RandomState {
    let start = feature_state(world_seed, chunk.0, chunk.1, decoration);
    match prefix {
        Some(pre) => if pre.chunk == chunk {
            next_int_spec(start, pre.next_int_bound).0
        } else {
            start
        },
        None => start,
    }
}

/// One long from the random of `chunk`, created on first use.
pub open spec fn draw_long(
    randoms: Map<(i32, i32), RandomState>,
    world_seed: i64,
    decoration: DecorationSeedSpec,
    prefix: Option<RandomPrefix>,
    chunk: (i32, i32),
) -> (Map<(i32, i32), RandomState>, i64) {
    let state = if randoms.contains_key(chunk) {
        randoms[chunk]
    } else {
        random_start(world_seed, decoration, chunk, prefix)
    };
    let (next, value) = next_long_spec(state);
    (randoms.insert(chunk, next), value)
}

/// The chunk randoms after loading the first `k` randomizable containers.
pub open spec fn container_randoms(
    p: TemplatePlacement,
    world_seed: i64,
    decoration: DecorationSeedSpec,
    prefix: Option<RandomPrefix>,
    k: int,
) -> Map<(i32, i32), RandomState>
    decreases k,
{
    if k <= 0 {
        Map::empty()
    } else {
        let c = p.template.randomizable_containers@[k - 1];
        let position = world_position_spec(p, c.x as int, c.y as int, c.z as int);
        draw_long(
            container_randoms(p, world_seed, decoration, prefix, k - 1),
            world_seed,
            decoration,
            prefix,
            decoration_chunk_spec(position),
        ).0
    }
}

/// A chest as the specification describes it: structure chunk, position,
/// loot table, ordinal and loot seed.
pub type ChestView = (i32, i32, i32, i32, i32, Seq<char>, i32, i64);

/// The view of a chest.
pub open spec fn chest_view(c: Chest) -> ChestView {
    (c.structure_chunk_x, c.structure_chunk_z, c.x, c.y, c.z, c.loot_table@, c.ordinal, c.loot_seed)
}

/// The state after running the first `k` data markers: the chunk randoms, the
/// next visible ordinal of each chunk, and the chests so far. A chest marker
/// places its chest one block below itself.
pub open spec fn marker_chests(
    p: TemplatePlacement,
    world_seed: i64,
    structure_chunk: (i32, i32),
    decoration: DecorationSeedSpec,
    prefix: Option<RandomPrefix>,
    k: int,
) -> (Map<(i32, i32), RandomState>, Map<(i32, i32), i32>, Seq<ChestView>)
    decreases k,
{
    if k <= 0 {
        (
            container_randoms(
                p,
                world_seed,
                decoration,
                prefix,
                p.template.randomizable_containers@.len() as int,
            ),
            Map::empty(),
            Seq::empty(),
        )
    } else {
        let (randoms, ordinals, chests) = marker_chests(
            p,
            world_seed,
            structure_chunk,
            decoration,
            prefix,
            k - 1,
        );
        let m = p.template.markers@[k - 1];
        match shipwreck_marker_table(m.metadata@) {
            None => (randoms, ordinals, chests),
            Some(table) => {
                let marker = world_position_spec(p, m.x as int, m.y as int, m.z as int);
                let position = (marker.0, marker.1 - 1, marker.2);
                let chunk = decoration_chunk_spec(position);
                let ordinal: i32 = if ordinals.contains_key(chunk) {
                    ordinals[chunk]
                } else {
                    0
                };
                let (randoms2, seed) = draw_long(randoms, world_seed, decoration, prefix, chunk);
                (
                    randoms2,
                    ordinals.insert(chunk, (ordinal + 1) as i32),
                    chests.push(
                        (
                            structure_chunk.0,
                            structure_chunk.1,
                            position.0 as i32,
                            position.1 as i32,
                            position.2 as i32,
                            table,
                            ordinal,
                            seed,
                        ),
                    ),
                )
            },
        }
    }
}

/// The chunk randoms in a map, as states.
pub open spec fn random_states(m: Map<(i32, i32), DecorationRandom>) -> Map<(i32, i32), RandomState> {
    Map::new(|c: (i32, i32)| m.contains_key(c), |c: (i32, i32)| m[c].state())
}

/// The prefix draws a positive bound.
pub open spec fn prefix_ok(prefix: Option<RandomPrefix>) -> bool {
    prefix matches Some(pre) ==> pre.next_int_bound > 0
}

/// Draws one long from the random of `chunk`, creating it on first use.
fn draw_for_chunk(
    randoms: &mut FxHashMap<(i32, i32), DecorationRandom>,
    world_seed: i64,
    decoration: DecorationSeedSpec,
    chunk: (i32, i32),
    prefix: Option<RandomPrefix>,
) -> (value: i64)
    requires
        prefix_ok(prefix),
    ensures
        (random_states(final(randoms)@), value) == draw_long(
            random_states(old(randoms)@),
            world_seed,
            decoration,
            prefix,
            chunk,
        ),
{
    let mut random = match fx_remove(randoms, &chunk) {
        Some(random) => random,
        None => {
            let mut random = DecorationRandom::for_feature(world_seed, chunk.0, chunk.1, decoration);
            match prefix {
                Some(pre) => {
                    if pre.chunk.0 == chunk.0 && pre.chunk.1 == chunk.1 {
                        random.next_int(pre.next_int_bound);
                    }
                },
                None => {},
            }
            random
        },
    };
    let value = random.next_long();
    let ghost before = old(randoms)@;
    fx_insert(randoms, chunk, random);
    proof {
        assert(random_states(randoms@) =~= random_states(before).insert(chunk, random.state()));
    }
    value
}

impl TemplatePlacement {
    /// The world position of a template-local position, computed wide.
    fn wide_position(&self, x: i32, y: i32, z: i32) -> (position: (i64, i64, i64))
        ensures
            (position.0 as int, position.1 as int, position.2 as int) == world_position_spec(
                *self,
                x as int,
                y as int,
                z as int,
            ),
    {
        let (rx, rz) = rotate_wide(self.rotation, x, z, self.pivot.0, self.pivot.2);
        (self.origin.0 as i64 + rx, self.origin.1 as i64 + y as i64, self.origin.2 as i64 + rz)
    }

    /// Whether the world position of a template-local position fits `i32`.
    fn position_fits_at(&self, x: i32, y: i32, z: i32) -> (ok: bool)
        ensures
            ok == position_fits(*self, x as int, y as int, z as int),
    {
        let w = self.wide_position(x, y, z);
        i32::MIN as i64 <= w.0 && w.0 <= i32::MAX as i64 && i32::MIN as i64 <= w.1 && w.1
            <= i32::MAX as i64 && i32::MIN as i64 <= w.2 && w.2 <= i32::MAX as i64
    }

    /// Whether every position that placing the template computes fits `i32`.
    pub fn fits(&self) -> (ok: bool)
        ensures
            ok == placement_ok(*self),
    {
        let max_x = if self.template.size[0] > 0 {
            self.template.size[0] - 1
        } else {
            0
        };
        let max_z = if self.template.size[2] > 0 {
            self.template.size[2] - 1
        } else {
            0
        };
        if !(self.position_fits_at(0, 0, 0) && self.position_fits_at(max_x, 0, 0)
            && self.position_fits_at(0, 0, max_z) && self.position_fits_at(max_x, 0, max_z)) {
            return false;
        }
        let containers = self.template.randomizable_containers;
        let mut k: usize = 0;
        while k < containers.len()
            invariant
                corners_fit(*self),
                containers@ == self.template.randomizable_containers@,
                k <= containers@.len(),
                forall|j: int|
                    0 <= j < k ==> {
                        let c = #[trigger] containers@[j];
                        position_fits(*self, c.x as int, c.y as int, c.z as int)
                    },
            decreases containers.len() - k,
        {
            let c: TemplateBlockPos = containers[k];
            if !self.position_fits_at(c.x, c.y, c.z) {
                return false;
            }
            k = k + 1;
        }
        let markers = self.template.markers;
        if markers.len() >= 0x7FFF_FFFF {
            return false;
        }
        let mut k: usize = 0;
        while k < markers.len()
            invariant
                corners_fit(*self),
                forall|j: int|
                    0 <= j < self.template.randomizable_containers@.len() ==> {
                        let c = #[trigger] self.template.randomizable_containers@[j];
                        position_fits(*self, c.x as int, c.y as int, c.z as int)
                    },
                markers@ == self.template.markers@,
                markers@.len() < 0x7FFF_FFFF,
                k <= markers@.len(),
                forall|j: int|
                    0 <= j < k ==> {
                        let m = #[trigger] markers@[j];
                        &&& position_fits(*self, m.x as int, m.y as int, m.z as int)
                        &&& i32::MIN <= world_position_spec(*self, m.x as int, m.y as int, m.z as int).1 - 1
                    },
            decreases markers.len() - k,
        {
            let m: TemplateMarker = markers[k];
            if !self.position_fits_at(m.x, m.y, m.z) {
                return false;
            }
            let w = self.wide_position(m.x, m.y, m.z);
            if w.1 - 1 < i32::MIN as i64 {
                return false;
            }
            k = k + 1;
        }
        true
    }

    /// The world position of a template-local position.
    pub fn world_position(&self, x: i32, y: i32, z: i32) -> (position: (i32, i32, i32))
        requires
            position_fits(*self, x as int, y as int, z as int),
        ensures
            (position.0 as int, position.1 as int, position.2 as int) == world_position_spec(
                *self,
                x as int,
                y as int,
                z as int,
            ),
    {
        let w = self.wide_position(x, y, z);
        (w.0 as i32, w.1 as i32, w.2 as i32)
    }

    /// The smallest and largest world X and Z of the template's corners.
    pub fn horizontal_bounds(&self) -> (bounds: (i32, i32, i32, i32))
        requires
            corners_fit(*self),
        ensures
            (bounds.0 as int, bounds.1 as int, bounds.2 as int, bounds.3 as int)
                == horizontal_bounds_spec(*self),
    {
        let max_x = if self.template.size[0] > 0 {
            self.template.size[0] - 1
        } else {
            0
        };
        let max_z = if self.template.size[2] > 0 {
            self.template.size[2] - 1
        } else {
            0
        };
        let a = self.world_position(0, 0, 0);
        let b = self.world_position(max_x, 0, 0);
        let c = self.world_position(0, 0, max_z);
        let d = self.world_position(max_x, 0, max_z);
        (min_of4(a.0, b.0, c.0, d.0), max_of4(a.0, b.0, c.0, d.0), min_of4(a.2, b.2, c.2, d.2), max_of4(a.2, b.2, c.2, d.2))
    }

    /// The chunk of the template's north-west corner, whose random the
    /// placement of a beached shipwreck draws its prefix from.
    pub fn first_intersecting_chunk(&self) -> (chunk: (i32, i32))
        requires
            corners_fit(*self),
        ensures
            chunk.0 == horizontal_bounds_spec(*self).0 / 16,
            chunk.1 == horizontal_bounds_spec(*self).2 / 16,
    {
        let (min_x, _, min_z, _) = self.horizontal_bounds();
        (crate::placement::floor_div(min_x as i64, 16) as i32, crate::placement::floor_div(min_z as i64, 16) as i32)
    }

    /// The chests that the template's data markers create, with their loot
    /// seeds, after its randomizable containers have drawn theirs.
    pub fn collect_chests(
        &self,
        world_seed: i64,
        structure_chunk: (i32, i32),
        decoration: DecorationSeedSpec,
        random_prefix: Option<RandomPrefix>,
    ) -> (chests: Vec<Chest>)
        requires
            placement_ok(*self),
            prefix_ok(random_prefix),
        ensures
            chests@.map_values(|c: Chest| chest_view(c)) == marker_chests(
                *self,
                world_seed,
                structure_chunk,
                decoration,
                random_prefix,
                self.template.markers@.len() as int,
            ).2,
    {
        let mut random_by_chunk: FxHashMap<(i32, i32), DecorationRandom> = FxHashMap::default();
        let containers = self.template.randomizable_containers;
        let mut k: usize = 0;
        proof {
            assert(random_states(random_by_chunk@) =~= Map::<(i32, i32), RandomState>::empty());
        }
        while k < containers.len()
            invariant
                placement_ok(*self),
                prefix_ok(random_prefix),
                containers@ == self.template.randomizable_containers@,
                k <= containers@.len(),
                random_states(random_by_chunk@) == container_randoms(
                    *self,
                    world_seed,
                    decoration,
                    random_prefix,
                    k as int,
                ),
            decreases containers.len() - k,
        {
            let c = containers[k];
            let position = self.world_position(c.x, c.y, c.z);
            let chunk = decoration_chunk(position);
            draw_for_chunk(&mut random_by_chunk, world_seed, decoration, chunk, random_prefix);
            k = k + 1;
        }
        let mut next_visible_ordinal: FxHashMap<(i32, i32), i32> = FxHashMap::default();
        let mut chests: Vec<Chest> = Vec::new();
        let markers = self.template.markers;
        let mut k: usize = 0;
        proof {
            assert(chests@.map_values(|c: Chest| chest_view(c)) =~= Seq::<ChestView>::empty());
        }
        while k < markers.len()
            invariant
                placement_ok(*self),
                prefix_ok(random_prefix),
                markers@ == self.template.markers@,
                k <= markers@.len(),
                marker_chests(*self, world_seed, structure_chunk, decoration, random_prefix, k as int)
                    == (
                    random_states(random_by_chunk@),
                    next_visible_ordinal@,
                    chests@.map_values(|c: Chest| chest_view(c)),
                ),
                forall|key: (i32, i32)|
                    #[trigger] next_visible_ordinal@.contains_key(key) ==> 0
                        <= next_visible_ordinal@[key] <= k,
            decreases markers.len() - k,
        {
            let marker = markers[k];
            match shipwreck_marker_loot_table(marker.metadata) {
                None => {},
                Some(loot_table) => {
                    let marker_pos = self.world_position(marker.x, marker.y, marker.z);
                    let position = (marker_pos.0, marker_pos.1 - 1, marker_pos.2);
                    let chunk = decoration_chunk(position);
                    let ordinal = match fx_get(&next_visible_ordinal, &chunk) {
                        Some(o) => o,
                        None => 0,
                    };
                    let loot_seed = draw_for_chunk(
                        &mut random_by_chunk,
                        world_seed,
                        decoration,
                        chunk,
                        random_prefix,
                    );
                    let ghost before = chests@.map_values(|c: Chest| chest_view(c));
                    let chest = Chest {
                        structure_chunk_x: structure_chunk.0,
                        structure_chunk_z: structure_chunk.1,
                        x: position.0,
                        y: position.1,
                        z: position.2,
                        loot_table: loot_table.to_owned(),
                        ordinal,
                        loot_seed,
                    };
                    chests.push(chest);
                    fx_insert(&mut next_visible_ordinal, chunk, ordinal + 1);
                    proof {
                        assert(chests@.map_values(|c: Chest| chest_view(c)) =~= before.push(
                            chest_view(chest),
                        ));
                    }
                },
            }
            k = k + 1;
        }
        chests
    }
}

/// The least of four values.
fn min_of4(a: i32, b: i32, c: i32, d: i32) -> (m: i32)
    ensures
        m as int == min4(a as int, b as int, c as int, d as int),
{
    let ab = if a <= b {
        a
    } else {
        b
    };
    let cd = if c <= d {
        c
    } else {
        d
    };
    if ab <= cd {
        ab
    } else {
        cd
    }
}

/// The greatest of four values.
fn max_of4(a: i32, b: i32, c: i32, d: i32) -> (m: i32)
    ensures
        m as int == max4(a as int, b as int, c as int, d as int),
{
    let ab = if a >= b {
        a
    } else {
        b
    };
    let cd = if c >= d {
        c
    } else {
        d
    };
    if ab >= cd {
        ab
    } else {
        cd
    }
}

/// Where a template placed at `position`, turned by `rotation` about its
/// origin, puts its chest `c`.
pub open spec fn placed_chest_position(c: TemplateChest, position: (i32, i32, i32), rotation: Rotation) -> (int, int, int) {
    let r = rotate_xz(rotation, c.x as int, c.z as int, 0, 0);
    (position.0 + r.0, position.1 + c.y, position.2 + r.1)
}

/// Whether every chest of a template placed at `position` with `rotation`
/// lands in the `i32` range.
pub open spec fn placed_chests_fit(chests: Seq<TemplateChest>, position: (i32, i32, i32), rotation: Rotation) -> bool {
    forall|k: int|
        0 <= k < chests.len() ==> {
            let p = placed_chest_position(#[trigger] chests[k], position, rotation);
            fits_i32(p.0) && fits_i32(p.1) && fits_i32(p.2)
        }
}

/// Whether `raw` is the container that chest `c` of a template placed at
/// `position` with `rotation` becomes.
pub open spec fn is_placed_chest(raw: RawChest, c: TemplateChest, position: (i32, i32, i32), rotation: Rotation) -> bool {
    let p = placed_chest_position(c, position, rotation);
    &&& raw.x == p.0
    &&& raw.y == p.1
    &&& raw.z == p.2
    &&& raw.loot_table@ == c.loot_table@
}

/// The world position of a template chest, computed wide.
fn placed_chest_wide(c: TemplateChest, position: (i32, i32, i32), rotation: Rotation) -> (p: (i64, i64, i64))
    ensures
        (p.0 as int, p.1 as int, p.2 as int) == placed_chest_position(c, position, rotation),
{
    let r = rotate_wide(rotation, c.x, c.z, 0, 0);
    (position.0 as i64 + r.0, position.1 as i64 + c.y as i64, position.2 as i64 + r.1)
}

/// Whether every chest of `template` placed at `position` with `rotation`
/// lands in the `i32` range.
pub fn template_chests_fit(template: &TemplateContainerData, position: (i32, i32, i32), rotation: Rotation) -> (ok: bool)
    ensures
        ok == placed_chests_fit(template.chests@, position, rotation),
{
    let chests = template.chests;
    let mut k: usize = 0;
    while k < chests.len()
        invariant
            chests@ == template.chests@,
            k <= chests@.len(),
            placed_chests_fit(chests@.take(k as int), position, rotation),
        decreases chests.len() - k,
    {
        let p = placed_chest_wide(chests[k], position, rotation);
        if !(i32::MIN as i64 <= p.0 && p.0 <= i32::MAX as i64 && i32::MIN as i64 <= p.1 && p.1
            <= i32::MAX as i64 && i32::MIN as i64 <= p.2 && p.2 <= i32::MAX as i64) {
            proof {
                assert(!({
                    let q = placed_chest_position(chests@[k as int], position, rotation);
                    fits_i32(q.0) && fits_i32(q.1) && fits_i32(q.2)
                }));
            }
            return false;
        }
        proof {
            assert forall|j: int| 0 <= j < k + 1 implies {
                let q = placed_chest_position(#[trigger] chests@.take(k + 1)[j], position, rotation);
                fits_i32(q.0) && fits_i32(q.1) && fits_i32(q.2)
            } by {
                if j < k {
                    assert(chests@.take(k + 1)[j] == chests@.take(k as int)[j]);
                }
            }
        }
        k = k + 1;
    }
    proof {
        assert(chests@.take(chests@.len() as int) =~= chests@);
    }
    true
}

/// Appends the chests of `template` placed at `position` with `rotation`,
/// each turned about the template's origin, in the template's order.
pub fn place_template_chests(
    template: &TemplateContainerData,
    position: (i32, i32, i32),
    rotation: Rotation,
    output: &mut Vec<RawChest>,
)
    requires
        placed_chests_fit(template.chests@, position, rotation),
    ensures
        final(output)@.len() == old(output)@.len() + template.chests@.len(),
        forall|j: int| 0 <= j < old(output)@.len() ==> #[trigger] final(output)@[j] == old(output)@[j],
        forall|k: int|
            0 <= k < template.chests@.len() ==> is_placed_chest(
                #[trigger] final(output)@[old(output)@.len() + k],
                template.chests@[k],
                position,
                rotation,
            ),
{
    let chests = template.chests;
    let ghost before = old(output)@;
    let mut k: usize = 0;
    while k < chests.len()
        invariant
            chests@ == template.chests@,
            placed_chests_fit(chests@, position, rotation),
            k <= chests@.len(),
            output@.len() == before.len() + k,
            forall|j: int| 0 <= j < before.len() ==> #[trigger] output@[j] == before[j],
            forall|i: int|
                0 <= i < k ==> is_placed_chest(
                    #[trigger] output@[before.len() + i],
                    chests@[i],
                    position,
                    rotation,
                ),
        decreases chests.len() - k,
    {
        let c = chests[k];
        let p = placed_chest_wide(c, position, rotation);
        proof {
            assert({
                let q = placed_chest_position(chests@[k as int], position, rotation);
                fits_i32(q.0) && fits_i32(q.1) && fits_i32(q.2)
            });
        }
        output.push(RawChest { x: p.0 as i32, y: p.1 as i32, z: p.2 as i32, loot_table: c.loot_table.to_owned() });
        k = k + 1;
    }
}

/// The decoration chunk of a world position.
pub fn decoration_chunk(position: (i32, i32, i32)) -> (chunk: (i32, i32))
    ensures
        chunk == decoration_chunk_spec((position.0 as int, position.1 as int, position.2 as int)),
{
    (crate::placement::floor_div(position.0 as i64, 16) as i32, crate::placement::floor_div(position.2 as i64, 16) as i32)
}

/// The lowest of the heights, `i32::MAX` for none.
pub open spec fn lowest_height(heights: Seq<i32>) -> int
    decreases heights.len(),
{
    if heights.len() == 0 {
        i32::MAX as int
    } else {
        let rest = lowest_height(heights.drop_last());
        if heights.last() < rest {
            heights.last() as int
        } else {
            rest
        }
    }
}

/// The lowest of the heights, `i32::MAX` for none.
pub(crate) fn lowest_of(heights: &Vec<i32>) -> (lowest: i32)
    ensures
        lowest as int == lowest_height(heights@),
{
    let mut lowest: i32 = i32::MAX;
    let mut k: usize = 0;
    while k < heights.len()
        invariant
            k <= heights@.len(),
            lowest as int == lowest_height(heights@.take(k as int)),
        decreases heights.len() - k,
    {
        proof {
            assert(heights@.take(k + 1).drop_last() =~= heights@.take(k as int));
            assert(heights@.take(k + 1).last() == heights@[k as int]);
        }
        if heights[k] < lowest {
            lowest = heights[k];
        }
        k = k + 1;
    }
    proof {
        assert(heights@.take(k as int) =~= heights@);
    }
    lowest
}

/// The sum of the heights.
pub open spec fn height_sum(heights: Seq<i32>) -> int
    decreases heights.len(),
{
    if heights.len() == 0 {
        0
    } else {
        height_sum(heights.drop_last()) + heights.last()
    }
}

/// Integer division rounding toward zero, as Rust's `/` does.
pub open spec fn div_toward_zero(a: int, b: int) -> int {
    if a >= 0 {
        a / b
    } else {
        -((-a) / b)
    }
}

/// The Y at which a shipwreck is placed, from the terrain heights under its
/// footprint: a beached wreck sinks to the lowest height, less half its height
/// and a draw of `nextInt(3)` from the feature random of `first_chunk`; an
/// ocean wreck takes the mean height, rounded toward zero.
pub open spec fn shipwreck_target_y_spec(
    heights: Seq<i32>,
    size_y: i32,
    is_beached: bool,
    world_seed: i64,
    first_chunk: (i32, i32),
    decoration: DecorationSeedSpec,
) -> int {
    if is_beached {
        let draw = next_int_spec(feature_state(world_seed, first_chunk.0, first_chunk.1, decoration), 3).1;
        lowest_height(heights) - div_toward_zero(size_y as int, 2) - draw
    } else {
        div_toward_zero(height_sum(heights), heights.len() as int)
    }
}

/// The sum of `i32` heights lies between `n` times the smallest and `n` times
/// the largest `i32`.
proof fn lemma_height_sum_bounds(heights: Seq<i32>)
    ensures
        i32::MIN * heights.len() <= height_sum(heights) <= i32::MAX * heights.len(),
    decreases heights.len(),
{
    if heights.len() > 0 {
        let rest = heights.drop_last();
        lemma_height_sum_bounds(rest);
        assert(i32::MAX * heights.len() == i32::MAX * rest.len() + i32::MAX) by (nonlinear_arith)
            requires
                heights.len() == rest.len() + 1,
        ;
        assert(i32::MIN * heights.len() == i32::MIN * rest.len() + i32::MIN) by (nonlinear_arith)
            requires
                heights.len() == rest.len() + 1,
        ;
    }
}

/// The draw of `nextInt(3)` that sinks a beached shipwreck.
pub open spec fn beached_draw(world_seed: i64, first_chunk: (i32, i32), decoration: DecorationSeedSpec) -> int {
    next_int_spec(feature_state(world_seed, first_chunk.0, first_chunk.1, decoration), 3).1 as int
}

/// The Y at which a shipwreck is placed; `heights` are the terrain heights
/// under its footprint, and `size_y` the height of its template.
pub fn shipwreck_target_y(
    heights: &Vec<i32>,
    size_y: i32,
    is_beached: bool,
    world_seed: i64,
    first_chunk: (i32, i32),
    decoration: DecorationSeedSpec,
) -> (y: i32)
    requires
        !is_beached ==> heights@.len() > 0,
        is_beached ==> i32::MIN <= lowest_height(heights@) - div_toward_zero(size_y as int, 2)
            <= i32::MAX,
        is_beached ==> i32::MIN <= lowest_height(heights@) - div_toward_zero(size_y as int, 2)
            - beached_draw(world_seed, first_chunk, decoration),
    ensures
        y as int == shipwreck_target_y_spec(heights@, size_y, is_beached, world_seed, first_chunk, decoration),
{
    let mut lowest: i32 = i32::MAX;
    let mut sum: i128 = 0;
    let mut k: usize = 0;
    while k < heights.len()
        invariant
            k <= heights@.len(),
            lowest as int == lowest_height(heights@.take(k as int)),
            sum as int == height_sum(heights@.take(k as int)),
        decreases heights.len() - k,
    {
        proof {
            let prefix = heights@.take(k as int);
            assert(heights@.take(k + 1).drop_last() =~= prefix);
            assert(heights@.take(k + 1).last() == heights@[k as int]);
            lemma_height_sum_bounds(prefix);
            assert(i32::MAX * prefix.len() <= i32::MAX * 0x1_0000_0000_0000_0000int) by (nonlinear_arith)
                requires
                    prefix.len() <= 0x1_0000_0000_0000_0000int,
            ;
            assert(i32::MIN * prefix.len() >= i32::MIN * 0x1_0000_0000_0000_0000int) by (nonlinear_arith)
                requires
                    prefix.len() <= 0x1_0000_0000_0000_0000int,
            ;
        }
        let h = heights[k];
        if h < lowest {
            lowest = h;
        }
        sum = sum + h as i128;
        k = k + 1;
    }
    proof {
        assert(heights@.take(k as int) =~= heights@);
        lemma_height_sum_bounds(heights@);
    }
    if is_beached {
        let mut random = DecorationRandom::for_feature(world_seed, first_chunk.0, first_chunk.1, decoration);
        let draw = random.next_int(3);
        let s = size_y as i64;
        let half: i64 = if s >= 0 {
            s / 2
        } else {
            -((-s) / 2)
        };
        (lowest as i64 - half - draw as i64) as i32
    } else {
        let area = heights.len() as i128;
        let mean = if sum >= 0 {
            sum / area
        } else {
            -((-sum) / area)
        };
        proof {
            let n = heights@.len() as int;
            let t: int = sum as int;
            assert(i32::MIN * n <= t <= i32::MAX * n);
            if t >= 0 {
                assert(t / n <= i32::MAX) by (nonlinear_arith)
                    requires
                        0 <= t <= i32::MAX * n,
                        n > 0,
                ;
            } else {
                assert((-t) / n <= 0x8000_0000) by (nonlinear_arith)
                    requires
                        0 <= -t <= 0x8000_0000 * n,
                        n > 0,
                ;
            }
        }
        mean as i32
    }
}


/// A template-local position `(x, z)` rotated around the pivot `(pivot_x, pivot_z)`.
pub fn rotate_around_pivot(rotation: Rotation, x: i32, z: i32, pivot_x: i32, pivot_z: i32) -> (rotated: (
    i32,
    i32,
))
    requires
        fits_i32(rotate_xz(rotation, x as int, z as int, pivot_x as int, pivot_z as int).0),
        fits_i32(rotate_xz(rotation, x as int, z as int, pivot_x as int, pivot_z as int).1),
    ensures
        (rotated.0 as int, rotated.1 as int) == rotate_xz(
            rotation,
            x as int,
            z as int,
            pivot_x as int,
            pivot_z as int,
        ),
{
    let (rx, rz) = rotate_wide(rotation, x, z, pivot_x, pivot_z);
    (rx as i32, rz as i32)
}

/// A template-local position `(x, z)` rotated around the pivot
/// `(pivot_x, pivot_z)`, computed wide enough that it cannot overflow.
pub(crate) fn rotate_wide(rotation: Rotation, x: i32, z: i32, pivot_x: i32, pivot_z: i32) -> (rotated: (
    i64,
    i64,
))
    ensures
        (rotated.0 as int, rotated.1 as int) == rotate_xz(
            rotation,
            x as int,
            z as int,
            pivot_x as int,
            pivot_z as int,
        ),
{
    let px = pivot_x as i64;
    let pz = pivot_z as i64;
    let x = x as i64;
    let z = z as i64;
    match rotation {
        Rotation::Unrotated => (x, z),
        Rotation::Clockwise90 => (px + pz - z, pz - px + x),
        Rotation::Clockwise180 => (px + px - x, pz + pz - z),
        Rotation::Counterclockwise90 => (px - pz + z, px + pz - x),
    }
}

/// The message for an igloo chunk whose block coordinate overflows.
pub open spec fn igloo_overflow_text(axis: Seq<char>) -> Seq<char> {
    "igloo chunk "@ + axis + " overflowed"@
}

/// Whether the block corner of the igloo's chunk, and the row two blocks
/// north of it, lie in the `i32` range.
pub open spec fn igloo_corner_ok(chunk_x: i32, chunk_z: i32) -> bool {
    &&& i32::MIN <= chunk_x * 16 <= i32::MAX
    &&& i32::MIN <= chunk_z * 16 - 2
    &&& chunk_z * 16 <= i32::MAX
}

/// The column whose surface height places an igloo's basement: the point
/// `(3, 2)` of the igloo template, rotated around `(3, 7)`, from the block
/// two north of the chunk's corner.
pub open spec fn igloo_probe_spec(chunk_x: i32, chunk_z: i32, rotation: Rotation) -> (int, int) {
    let r = rotate_xz(rotation, 3, 2, 3, 7);
    (chunk_x * 16 + r.0, chunk_z * 16 - 2 + r.1)
}

/// The column whose surface height places an igloo's basement, or the error
/// for a chunk whose block coordinate overflows.
pub fn igloo_probe(chunk_x: i32, chunk_z: i32, rotation: Rotation) -> (result: Result<(i32, i32), Error>)
    requires
        i32::MIN <= chunk_x * 16 <= i32::MAX ==> i32::MIN <= igloo_probe_spec(
            chunk_x,
            chunk_z,
            rotation,
        ).0,
        i32::MIN <= chunk_z * 16 <= i32::MAX ==> i32::MIN <= chunk_z * 16 - 2,
    ensures
        !(i32::MIN <= chunk_x * 16 <= i32::MAX) ==> (result matches Err(Error::Worldgen(m)) && m@
            == igloo_overflow_text("x"@)),
        i32::MIN <= chunk_x * 16 <= i32::MAX && !(i32::MIN <= chunk_z * 16 <= i32::MAX) ==> (
        result matches Err(Error::Worldgen(m)) && m@ == igloo_overflow_text("z"@)),
        igloo_corner_ok(chunk_x, chunk_z) ==> (result matches Ok(p) && (p.0 as int, p.1 as int)
            == igloo_probe_spec(chunk_x, chunk_z, rotation)),
{
    proof {
        reveal_strlit("x");
        reveal_strlit("z");
        reveal_strlit("igloo chunk ");
        reveal_strlit(" overflowed");
    }
    let min_x = match chunk_x.checked_mul(16) {
        Some(v) => v,
        None => {
            let message = "igloo chunk x overflowed".to_owned();
            proof {
                reveal_strlit("igloo chunk x overflowed");
                assert(message@ =~= igloo_overflow_text("x"@));
            }
            return Err(Error::Worldgen(message));
        },
    };
    let min_z = match chunk_z.checked_mul(16) {
        Some(v) => v,
        None => {
            let message = "igloo chunk z overflowed".to_owned();
            proof {
                reveal_strlit("igloo chunk z overflowed");
                assert(message@ =~= igloo_overflow_text("z"@));
            }
            return Err(Error::Worldgen(message));
        },
    };
    let (ref_x, ref_z) = rotate_around_pivot(rotation, 3, 2, 3, 7);
    Ok((min_x + ref_x, min_z - 2 + ref_z))
}

/// Whether `scan` is what an igloo reports: with no basement, a valid
/// structure without chests; with a basement of `ladder_segments` ladder
/// segments under the surface height `surface_y`, the one chest at the point
/// `(1, 6)` of the template, rotated around `(3, 7)`, three blocks per segment
/// and three more below the surface, seeded by the first long of the chunk.
pub open spec fn is_igloo_scan(
    scan: Scan,
    world_seed: i64,
    chunk_x: i32,
    chunk_z: i32,
    rotation: Rotation,
    basement: Option<(i32, i32)>,
    seed: i64,
) -> bool {
    &&& scan.valid_structure
    &&& match basement {
        None => scan.chests@.len() == 0,
        Some((ladder_segments, surface_y)) => {
            let r = rotate_xz(rotation, 1, 6, 3, 7);
            let chest = scan.chests@[0];
            &&& scan.chests@.len() == 1
            &&& chest.structure_chunk_x == chunk_x
            &&& chest.structure_chunk_z == chunk_z
            &&& chest.x == chunk_x * 16 + r.0
            &&& chest.y == surface_y - ladder_segments * 3 - 3
            &&& chest.z == chunk_z * 16 - 2 + r.1
            &&& chest.loot_table@ == "minecraft:chests/igloo_chest"@
            &&& chest.ordinal == 0
            &&& chest.loot_seed == seed
        },
    }
}

/// The parts of an igloo turn together: its basement chest and its probe
/// column are the template points `(1, 6)` and `(3, 2)` turned by the
/// igloo's own rotation about `(3, 7)`, from the block two north of the
/// chunk's corner. So the chest lies at the template offset `(-2, 4)` from
/// the probe column, turned by that rotation: for `Clockwise90` it is four
/// blocks west and two north of the probe.
pub proof fn law_igloo_chest_turns_with_the_igloo(
    scan: Scan,
    world_seed: i64,
    chunk_x: i32,
    chunk_z: i32,
    rotation: Rotation,
    ladder_segments: i32,
    surface_y: i32,
    seed: i64,
)
    requires
        is_igloo_scan(scan, world_seed, chunk_x, chunk_z, rotation, Some((ladder_segments, surface_y)), seed),
    ensures
        ({
            let chest = scan.chests@[0];
            let probe = igloo_probe_spec(chunk_x, chunk_z, rotation);
            let corner = (chunk_x * 16, chunk_z * 16 - 2);
            let offset = rotate_xz(rotation, -2, 4, 0, 0);
            &&& scan.chests@.len() == 1
            &&& (chest.x - corner.0, chest.z - corner.1) == rotate_xz(rotation, 1, 6, 3, 7)
            &&& (probe.0 - corner.0, probe.1 - corner.1) == rotate_xz(rotation, 3, 2, 3, 7)
            &&& (chest.x - probe.0, chest.z - probe.1) == offset
            &&& rotation == Rotation::Clockwise90 ==> offset == (-4int, -2int)
            &&& rotation == Rotation::Counterclockwise90 ==> offset == (4int, 2int)
            &&& rotation == Rotation::Unrotated ==> offset == (-2int, 4int)
            &&& rotation == Rotation::Clockwise180 ==> offset == (2int, -4int)
        }),
{
}

/// An igloo's basement chest lies in the structure's chunk, so it carries
/// the loot seed of its own decoration chunk and ordinal, as the catalog's
/// decoration parameters give it.
pub proof fn law_igloo_seeds_follow_catalog(
    scan: Scan,
    world_seed: i64,
    chunk_x: i32,
    chunk_z: i32,
    rotation: Rotation,
    basement: Option<(i32, i32)>,
    decoration: DecorationSeedSpec,
    seed: i64,
)
    requires
        loot_seed_outcome(world_seed, chunk_x, chunk_z, decoration, 0) == Ok::<i64, Seq<char>>(seed),
        is_igloo_scan(scan, world_seed, chunk_x, chunk_z, rotation, basement, seed),
    ensures
        forall|k: int|
            0 <= k < scan.chests@.len() ==> seeded_by_catalog(
                #[trigger] scan.chests@[k],
                world_seed,
                decoration,
                (chunk_x, chunk_z),
            ),
{
    if basement is Some {
        let c = scan.chests@[0];
        lemma_block_in_chunk(chunk_x as int, c.x - chunk_x * 16);
        lemma_block_in_chunk(chunk_z as int, c.z - chunk_z * 16);
    }
}

/// What an igloo scan reports once the igloo is placed; `basement` holds the
/// number of ladder segments and the surface height at the probe column when
/// the igloo has a basement.
pub fn igloo_scan(
    world_seed: i64,
    chunk_x: i32,
    chunk_z: i32,
    rotation: Rotation,
    basement: Option<(i32, i32)>,
    decoration: DecorationSeedSpec,
) -> (result: Result<Scan, Error>)
    requires
        igloo_corner_ok(chunk_x, chunk_z),
        basement matches Some((n, y)) ==> i32::MIN <= n * 3 <= i32::MAX && i32::MIN <= y - n * 3
            <= i32::MAX && i32::MIN <= y - n * 3 - 3,
    ensures
        basement is None ==> (result matches Ok(scan) && is_igloo_scan(
            scan,
            world_seed,
            chunk_x,
            chunk_z,
            rotation,
            basement,
            0,
        )),
        basement is Some ==> match loot_seed_outcome(world_seed, chunk_x, chunk_z, decoration, 0) {
            Err(m) => is_usage_error(result, m),
            Ok(seed) => result matches Ok(scan) && is_igloo_scan(
                scan,
                world_seed,
                chunk_x,
                chunk_z,
                rotation,
                basement,
                seed,
            ),
        },
{
    let (ladder_segments, surface_y) = match basement {
        None => {
            return Ok(Scan { valid_structure: true, chests: Vec::new() });
        },
        Some(b) => b,
    };
    let (chest_rel_x, chest_rel_z) = rotate_around_pivot(rotation, 1, 6, 3, 7);
    let loot_seed = match container_loot_seed(world_seed, chunk_x, chunk_z, decoration, 0) {
        Ok(seed) => seed,
        Err(e) => {
            return Err(e);
        },
    };
    let mut chests: Vec<Chest> = Vec::new();
    chests.push(
        Chest {
            structure_chunk_x: chunk_x,
            structure_chunk_z: chunk_z,
            x: chunk_x * 16 + chest_rel_x,
            y: surface_y - ladder_segments * 3 - 3,
            z: chunk_z * 16 - 2 + chest_rel_z,
            loot_table: "minecraft:chests/igloo_chest".to_owned(),
            ordinal: 0,
            loot_seed,
        },
    );
    proof {
        reveal_strlit("minecraft:chests/igloo_chest");
    }
    Ok(Scan { valid_structure: true, chests })
}


/// The templates of a beached shipwreck, in the order that the template
/// draw indexes.
pub open spec fn beached_templates() -> Seq<Seq<char>> {
    seq![
        "shipwreck/with_mast"@,
        "shipwreck/sideways_full"@,
        "shipwreck/sideways_fronthalf"@,
        "shipwreck/sideways_backhalf"@,
        "shipwreck/rightsideup_full"@,
        "shipwreck/rightsideup_fronthalf"@,
        "shipwreck/rightsideup_backhalf"@,
        "shipwreck/with_mast_degraded"@,
        "shipwreck/rightsideup_full_degraded"@,
        "shipwreck/rightsideup_fronthalf_degraded"@,
        "shipwreck/rightsideup_backhalf_degraded"@,
    ]
}

/// The templates of an ocean shipwreck, in the order that the template draw
/// indexes.
pub open spec fn ocean_templates() -> Seq<Seq<char>> {
    seq![
        "shipwreck/with_mast"@,
        "shipwreck/upsidedown_full"@,
        "shipwreck/upsidedown_fronthalf"@,
        "shipwreck/upsidedown_backhalf"@,
        "shipwreck/sideways_full"@,
        "shipwreck/sideways_fronthalf"@,
        "shipwreck/sideways_backhalf"@,
        "shipwreck/rightsideup_full"@,
        "shipwreck/rightsideup_fronthalf"@,
        "shipwreck/rightsideup_backhalf"@,
        "shipwreck/with_mast_degraded"@,
        "shipwreck/upsidedown_full_degraded"@,
        "shipwreck/upsidedown_fronthalf_degraded"@,
        "shipwreck/upsidedown_backhalf_degraded"@,
        "shipwreck/sideways_full_degraded"@,
        "shipwreck/sideways_fronthalf_degraded"@,
        "shipwreck/sideways_backhalf_degraded"@,
        "shipwreck/rightsideup_full_degraded"@,
        "shipwreck/rightsideup_fronthalf_degraded"@,
        "shipwreck/rightsideup_backhalf_degraded"@,
    ]
}

/// The templates that a beached or an ocean shipwreck draws from.
pub fn shipwreck_templates(is_beached: bool) -> (names: Vec<&'static str>)
    ensures
        names@.map_values(|n: &'static str| n@) == if is_beached {
            beached_templates()
        } else {
            ocean_templates()
        },
{
    proof {
        reveal_strlit("shipwreck/rightsideup_backhalf");
        reveal_strlit("shipwreck/rightsideup_backhalf_degraded");
        reveal_strlit("shipwreck/rightsideup_fronthalf");
        reveal_strlit("shipwreck/rightsideup_fronthalf_degraded");
        reveal_strlit("shipwreck/rightsideup_full");
        reveal_strlit("shipwreck/rightsideup_full_degraded");
        reveal_strlit("shipwreck/sideways_backhalf");
        reveal_strlit("shipwreck/sideways_backhalf_degraded");
        reveal_strlit("shipwreck/sideways_fronthalf");
        reveal_strlit("shipwreck/sideways_fronthalf_degraded");
        reveal_strlit("shipwreck/sideways_full");
        reveal_strlit("shipwreck/sideways_full_degraded");
        reveal_strlit("shipwreck/upsidedown_backhalf");
        reveal_strlit("shipwreck/upsidedown_backhalf_degraded");
        reveal_strlit("shipwreck/upsidedown_fronthalf");
        reveal_strlit("shipwreck/upsidedown_fronthalf_degraded");
        reveal_strlit("shipwreck/upsidedown_full");
        reveal_strlit("shipwreck/upsidedown_full_degraded");
        reveal_strlit("shipwreck/with_mast");
        reveal_strlit("shipwreck/with_mast_degraded");
    }
    let mut names: Vec<&'static str> = Vec::new();
    if is_beached {
        names.push("shipwreck/with_mast");
        names.push("shipwreck/sideways_full");
        names.push("shipwreck/sideways_fronthalf");
        names.push("shipwreck/sideways_backhalf");
        names.push("shipwreck/rightsideup_full");
        names.push("shipwreck/rightsideup_fronthalf");
        names.push("shipwreck/rightsideup_backhalf");
        names.push("shipwreck/with_mast_degraded");
        names.push("shipwreck/rightsideup_full_degraded");
        names.push("shipwreck/rightsideup_fronthalf_degraded");
        names.push("shipwreck/rightsideup_backhalf_degraded");
    } else {
        names.push("shipwreck/with_mast");
        names.push("shipwreck/upsidedown_full");
        names.push("shipwreck/upsidedown_fronthalf");
        names.push("shipwreck/upsidedown_backhalf");
        names.push("shipwreck/sideways_full");
        names.push("shipwreck/sideways_fronthalf");
        names.push("shipwreck/sideways_backhalf");
        names.push("shipwreck/rightsideup_full");
        names.push("shipwreck/rightsideup_fronthalf");
        names.push("shipwreck/rightsideup_backhalf");
        names.push("shipwreck/with_mast_degraded");
        names.push("shipwreck/upsidedown_full_degraded");
        names.push("shipwreck/upsidedown_fronthalf_degraded");
        names.push("shipwreck/upsidedown_backhalf_degraded");
        names.push("shipwreck/sideways_full_degraded");
        names.push("shipwreck/sideways_fronthalf_degraded");
        names.push("shipwreck/sideways_backhalf_degraded");
        names.push("shipwreck/rightsideup_full_degraded");
        names.push("shipwreck/rightsideup_fronthalf_degraded");
        names.push("shipwreck/rightsideup_backhalf_degraded");
    }
    proof {
        if is_beached {
            assert(names@.map_values(|n: &'static str| n@) =~= beached_templates());
        } else {
            assert(names@.map_values(|n: &'static str| n@) =~= ocean_templates());
        }
    }
    names
}

/// The placement of a shipwreck template in chunk `(chunk_x, chunk_z)` at
/// height `y`: its origin is the chunk's corner, and it turns around the
/// template point `(4, 0, 15)`.
pub open spec fn shipwreck_placement(
    chunk_x: i32,
    chunk_z: i32,
    template: TemplateContainerData,
    rotation: Rotation,
    y: i32,
) -> TemplatePlacement {
    TemplatePlacement {
        template,
        origin: ((chunk_x * 16) as i32, y, (chunk_z * 16) as i32),
        rotation,
        pivot: (4, 0, 15),
    }
}

/// The draw that a beached shipwreck makes first: `nextInt(3)` from the
/// random of the chunk of its north-west corner.
pub open spec fn shipwreck_prefix(p: TemplatePlacement, is_beached: bool) -> Option<RandomPrefix> {
    if is_beached {
        Some(
            RandomPrefix {
                chunk: (
                    (horizontal_bounds_spec(p).0 / 16) as i32,
                    (horizontal_bounds_spec(p).2 / 16) as i32,
                ),
                next_int_bound: 3,
            },
        )
    } else {
        None
    }
}

/// The error that a shipwreck in chunk `(chunk_x, chunk_z)` meets before any
/// draw: a chunk whose block coordinate overflows `i32`, or one whose corner
/// lies within 32 blocks of the `i32` range's ends.
pub open spec fn shipwreck_origin_error(chunk_x: i32, chunk_z: i32) -> Option<Seq<char>> {
    let x = chunk_x * 16;
    let z = chunk_z * 16;
    if !fits_i32(x) {
        Some("shipwreck chunk x overflowed"@)
    } else if !fits_i32(z) {
        Some("shipwreck chunk z overflowed"@)
    } else if !(fits_i32(x - 32) && fits_i32(x + 32) && fits_i32(z - 32) && fits_i32(z + 32)) {
        Some("shipwreck template coordinates overflowed"@)
    } else {
        None
    }
}

/// The block corner `(chunk_x * 16, chunk_z * 16)` of a shipwreck's chunk,
/// or the error that the chunk meets.
pub fn shipwreck_origin(chunk_x: i32, chunk_z: i32) -> (result: Result<(i32, i32), Error>)
    ensures
        shipwreck_origin_error(chunk_x, chunk_z) matches Some(text) ==> (result matches Err(
            Error::Worldgen(m),
        ) && m@ == text),
        shipwreck_origin_error(chunk_x, chunk_z) is None ==> result == Ok::<(i32, i32), Error>(
            ((chunk_x * 16) as i32, (chunk_z * 16) as i32),
        ),
{
    proof {
        reveal_strlit("shipwreck chunk x overflowed");
        reveal_strlit("shipwreck chunk z overflowed");
        reveal_strlit("shipwreck template coordinates overflowed");
    }
    let x = chunk_x as i64 * 16;
    let z = chunk_z as i64 * 16;
    if x < i32::MIN as i64 || x > i32::MAX as i64 {
        return Err(Error::Worldgen("shipwreck chunk x overflowed".to_owned()));
    }
    if z < i32::MIN as i64 || z > i32::MAX as i64 {
        return Err(Error::Worldgen("shipwreck chunk z overflowed".to_owned()));
    }
    if x - 32 < i32::MIN as i64 || x + 32 > i32::MAX as i64 || z - 32 < i32::MIN as i64 || z + 32
        > i32::MAX as i64 {
        return Err(Error::Worldgen("shipwreck template coordinates overflowed".to_owned()));
    }
    Ok((x as i32, z as i32))
}

/// The chests of a shipwreck placed from `template` with `rotation` in chunk
/// `(chunk_x, chunk_z)` at height `target_y`, with their loot seeds; a
/// beached wreck first draws `nextInt(3)` in the chunk of its north-west
/// corner.
pub fn shipwreck_chests(
    world_seed: i64,
    chunk_x: i32,
    chunk_z: i32,
    template: TemplateContainerData,
    rotation: Rotation,
    target_y: i32,
    is_beached: bool,
) -> (result: Result<Vec<Chest>, Error>)
    requires
        shipwreck_origin_error(chunk_x, chunk_z) is None ==> placement_ok(
            shipwreck_placement(chunk_x, chunk_z, template, rotation, target_y),
        ),
    ensures
        shipwreck_origin_error(chunk_x, chunk_z) matches Some(text) ==> (result matches Err(
            Error::Worldgen(m),
        ) && m@ == text),
        shipwreck_origin_error(chunk_x, chunk_z) is None ==> ({
            let p = shipwreck_placement(chunk_x, chunk_z, template, rotation, target_y);
            result matches Ok(chests) && chests@.map_values(|c: Chest| chest_view(c)) == marker_chests(
                p,
                world_seed,
                (chunk_x, chunk_z),
                shipwreck_decoration_spec(is_beached),
                shipwreck_prefix(p, is_beached),
                template.markers@.len() as int,
            ).2
        }),
{
    let (min_x, min_z) = match shipwreck_origin(chunk_x, chunk_z) {
        Ok(corner) => corner,
        Err(e) => return Err(e),
    };
    let placement = TemplatePlacement {
        template,
        origin: (min_x, target_y, min_z),
        rotation,
        pivot: (4, 0, 15),
    };
    let prefix = if is_beached {
        Some(RandomPrefix { chunk: placement.first_intersecting_chunk(), next_int_bound: 3 })
    } else {
        None
    };
    Ok(placement.collect_chests(world_seed, (chunk_x, chunk_z), shipwreck_decoration(is_beached), prefix))
}

/// The chunk of the north-west corner of a shipwreck template placed in
/// chunk `(chunk_x, chunk_z)` at height 90, whose random a beached wreck
/// draws from first.
pub fn shipwreck_first_chunk(
    chunk_x: i32,
    chunk_z: i32,
    template: TemplateContainerData,
    rotation: Rotation,
) -> (result: Result<(i32, i32), Error>)
    requires
        shipwreck_origin_error(chunk_x, chunk_z) is None ==> corners_fit(
            shipwreck_placement(chunk_x, chunk_z, template, rotation, 90),
        ),
    ensures
        shipwreck_origin_error(chunk_x, chunk_z) matches Some(text) ==> (result matches Err(
            Error::Worldgen(m),
        ) && m@ == text),
        shipwreck_origin_error(chunk_x, chunk_z) is None ==> ({
            let p = shipwreck_placement(chunk_x, chunk_z, template, rotation, 90);
            result == Ok::<(i32, i32), Error>(
                (
                    (horizontal_bounds_spec(p).0 / 16) as i32,
                    (horizontal_bounds_spec(p).2 / 16) as i32,
                ),
            )
        }),
{
    let (min_x, min_z) = match shipwreck_origin(chunk_x, chunk_z) {
        Ok(corner) => corner,
        Err(e) => return Err(e),
    };
    let placement = TemplatePlacement {
        template,
        origin: (min_x, 90, min_z),
        rotation,
        pivot: (4, 0, 15),
    };
    Ok(placement.first_intersecting_chunk())
}

} // verus!
