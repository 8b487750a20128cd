//! Random-spread structure placement: the candidate chunk of every region
//! inside a circular search area.

use vstd::prelude::*;

use crate::catalog::{Placement, SpreadType};
use crate::error::{is_placement_error, Error};
use crate::legacy_random::{next_int_spec, scramble, LegacyRandom48};
use vstd::wrapping::i64_specs;

verus! {

/// Multiplier of the region X coordinate in the placement seed.
pub const REGION_X_MULTIPLIER: i64 = 341_873_128_712;

/// Multiplier of the region Z coordinate in the placement seed.
pub const REGION_Z_MULTIPLIER: i64 = 132_897_987_541;

/// A chunk that a random-spread placement selects, with its distance to the
/// search centre.
#[derive(Clone, Copy, Debug, PartialEq, Eq, Structural)]
pub struct Candidate {
    pub chunk_x: i32,
    pub chunk_z: i32,
    pub block_x: i32,
    pub block_z: i32,
    pub squared_distance: i64,
}

/// Whether the placement parameters can be drawn from: a spacing other than
/// zero and a positive range `spacing - separation` of offsets.
pub open spec fn valid_placement(placement: Placement) -> bool {
    &&& placement.spacing != 0
    &&& 0 < placement.spacing - placement.separation <= i32::MAX
}

/// The absolute value of `v`.
pub open spec fn magnitude(v: int) -> int {
    if v < 0 {
        -v
    } else {
        v
    }
}

/// The number of integers from `low` to `high`, both included.
pub open spec fn span(low: int, high: int) -> nat {
    if low <= high {
        (high - low + 1) as nat
    } else {
        0
    }
}

/// The seed of the region `(region_x, region_z)`:
/// `world_seed + region_x * 341873128712 + region_z * 132897987541 + salt`, wrapping.
pub open spec fn region_seed(world_seed: i64, region_x: i32, region_z: i32, salt: i64) -> i64 {
    i64_specs::wrapping_add(
        i64_specs::wrapping_add(
            i64_specs::wrapping_add(
                world_seed,
                i64_specs::wrapping_mul(region_x as i64, REGION_X_MULTIPLIER),
            ),
            i64_specs::wrapping_mul(region_z as i64, REGION_Z_MULTIPLIER),
        ),
        salt,
    )
}

/// The offset of the candidate chunk inside its region.
pub open spec fn region_offset(seed: i64, limit: i32, spread: SpreadType) -> (int, int) {
    let (s1, a) = next_int_spec(scramble(seed), limit);
    let (s2, b) = next_int_spec(s1, limit);
    match spread {
        SpreadType::Linear => (a as int, b as int),
        SpreadType::Triangular => {
            let (s3, c) = next_int_spec(s2, limit);
            let (s4, d) = next_int_spec(s3, limit);
            ((a + b) / 2, (c + d) / 2)
        },
    }
}

/// The candidate chunk of the region `(region_x, region_z)`.
pub open spec fn region_chunk(world_seed: i64, region_x: i32, region_z: i32, placement: Placement) -> (int, int) {
    let offset = region_offset(
        region_seed(world_seed, region_x, region_z, placement.salt),
        (placement.spacing - placement.separation) as i32,
        placement.spread,
    );
    (region_x * placement.spacing + offset.0, region_z * placement.spacing + offset.1)
}

/// Whether a chunk whose centre is `(dx, dz)` away from the search centre lies
/// inside the circle of `radius`.
pub open spec fn within_radius(dx: int, dz: int, radius: int) -> bool {
    &&& -radius <= dx <= radius
    &&& -radius <= dz <= radius
    &&& dx * dx <= radius * radius - dz * dz
}

/// The candidate of the region `(region_x, region_z)`, if its chunk centre lies
/// inside the search circle.
#[verifier::opaque]
pub open spec fn region_candidate(
    world_seed: i64,
    center_x: i32,
    center_z: i32,
    radius: i32,
    placement: Placement,
    region_x: i32,
    region_z: i32,
) -> Option<Candidate> {
    let chunk = region_chunk(world_seed, region_x, region_z, placement);
    let block_x = chunk.0 * 16 + 8;
    let block_z = chunk.1 * 16 + 8;
    let dx = block_x - center_x;
    let dz = block_z - center_z;
    if within_radius(dx, dz, radius as int) {
        Some(
            Candidate {
                chunk_x: chunk.0 as i32,
                chunk_z: chunk.1 as i32,
                block_x: block_x as i32,
                block_z: block_z as i32,
                squared_distance: (dx * dx + dz * dz) as i64,
            },
        )
    } else {
        None
    }
}

/// The sequence holding the value of `o`, if any.
pub open spec fn option_seq<T>(o: Option<T>) -> Seq<T> {
    match o {
        Some(v) => seq![v],
        None => Seq::empty(),
    }
}

/// The candidates of the regions `region_z_low .. region_z_low + count` of the
/// column `region_x`, in order.
pub open spec fn column_candidates(
    world_seed: i64,
    center_x: i32,
    center_z: i32,
    radius: i32,
    placement: Placement,
    region_x: i32,
    region_z_low: int,
    count: nat,
) -> Seq<Candidate>
    decreases count,
{
    if count == 0 {
        Seq::empty()
    } else {
        column_candidates(
            world_seed,
            center_x,
            center_z,
            radius,
            placement,
            region_x,
            region_z_low,
            (count - 1) as nat,
        ) + option_seq(
            region_candidate(
                world_seed,
                center_x,
                center_z,
                radius,
                placement,
                region_x,
                (region_z_low + count - 1) as i32,
            ),
        )
    }
}

/// The candidates of the columns `region_x_low .. region_x_low + columns`, each
/// over the regions `region_z_low .. region_z_low + rows`, column by column.
pub open spec fn grid_candidates(
    world_seed: i64,
    center_x: i32,
    center_z: i32,
    radius: i32,
    placement: Placement,
    region_x_low: int,
    columns: nat,
    region_z_low: int,
    rows: nat,
) -> Seq<Candidate>
    decreases columns,
{
    if columns == 0 {
        Seq::empty()
    } else {
        grid_candidates(
            world_seed,
            center_x,
            center_z,
            radius,
            placement,
            region_x_low,
            (columns - 1) as nat,
            region_z_low,
            rows,
        ) + column_candidates(
            world_seed,
            center_x,
            center_z,
            radius,
            placement,
            (region_x_low + columns - 1) as i32,
            region_z_low,
            rows,
        )
    }
}

/// Whether the square around the search circle fits the `i32` block range.
pub open spec fn area_in_range(center_x: i32, center_z: i32, radius: i32) -> bool {
    &&& i32::MIN <= center_x - radius
    &&& center_x + radius <= i32::MAX
    &&& i32::MIN <= center_z - radius
    &&& center_z + radius <= i32::MAX
}

/// The candidates inside the search circle, region by region (X outer, Z
/// inner); a region is the Euclidean quotient of a chunk by the spacing.
pub open spec fn candidates_in_area(
    world_seed: i64,
    center_x: i32,
    center_z: i32,
    radius: i32,
    placement: Placement,
) -> Seq<Candidate> {
    let min_region_x = ((center_x - radius) / 16) / placement.spacing as int;
    let max_region_x = ((center_x + radius) / 16) / placement.spacing as int;
    let min_region_z = ((center_z - radius) / 16) / placement.spacing as int;
    let max_region_z = ((center_z + radius) / 16) / placement.spacing as int;
    grid_candidates(
        world_seed,
        center_x,
        center_z,
        radius,
        placement,
        min_region_x,
        span(min_region_x, max_region_x),
        min_region_z,
        span(min_region_z, max_region_z),
    )
}

/// Inserts `c` into `sorted` after every element whose distance is at most its own.
pub open spec fn insert_by_distance(sorted: Seq<Candidate>, c: Candidate) -> Seq<Candidate>
    decreases sorted.len(),
{
    if sorted.len() == 0 {
        seq![c]
    } else if sorted.last().squared_distance <= c.squared_distance {
        sorted.push(c)
    } else {
        insert_by_distance(sorted.drop_last(), c).push(sorted.last())
    }
}

/// The stable sort of `s` by squared distance.
pub open spec fn sort_by_distance(s: Seq<Candidate>) -> Seq<Candidate>
    decreases s.len(),
{
    if s.len() == 0 {
        s
    } else {
        insert_by_distance(sort_by_distance(s.drop_last()), s.last())
    }
}

/// The candidates of a random-spread placement whose chunk centre lies within
/// `radius` blocks of `(center_x, center_z)`, nearest first; ties keep the
/// region order.
pub fn locate(
    world_seed: i64,
    center_x: i32,
    center_z: i32,
    radius: i32,
    placement: Placement,
) -> (result: Result<Vec<Candidate>, Error>)
    requires
        radius >= 0 && area_in_range(center_x, center_z, radius) ==> valid_placement(placement),
    ensures
        radius < 0 ==> is_placement_error(result, "radius must be non-negative"@),
        radius >= 0 && !area_in_range(center_x, center_z, radius) ==> is_placement_error(
            result,
            "search area exceeds the supported block coordinate range"@,
        ),
        radius >= 0 && area_in_range(center_x, center_z, radius) ==> (result matches Ok(v) && v@
            == sort_by_distance(
            candidates_in_area(world_seed, center_x, center_z, radius, placement),
        )),
{
    if radius < 0 {
        return Err(Error::Placement("radius must be non-negative".to_owned()));
    }
    let min_block_x = center_x as i64 - radius as i64;
    let max_block_x = center_x as i64 + radius as i64;
    let min_block_z = center_z as i64 - radius as i64;
    let max_block_z = center_z as i64 + radius as i64;
    if min_block_x < i32::MIN as i64 || max_block_x > i32::MAX as i64 || min_block_z < i32::MIN as i64
        || max_block_z > i32::MAX as i64 {
        return Err(
            Error::Placement("search area exceeds the supported block coordinate range".to_owned()),
        );
    }
    let min_chunk_x = floor_div(min_block_x, 16) as i32;
    let max_chunk_x = floor_div(max_block_x, 16) as i32;
    let min_chunk_z = floor_div(min_block_z, 16) as i32;
    let max_chunk_z = floor_div(max_block_z, 16) as i32;
    let spacing = placement.spacing;
    proof {
        lemma_region_bounds(min_block_x as int, spacing as int);
        lemma_region_bounds(max_block_x as int, spacing as int);
        lemma_region_bounds(min_block_z as int, spacing as int);
        lemma_region_bounds(max_block_z as int, spacing as int);
    }
    let min_region_x = region_of(min_chunk_x, spacing);
    let max_region_x = region_of(max_chunk_x, spacing);
    let min_region_z = region_of(min_chunk_z, spacing);
    let max_region_z = region_of(max_chunk_z, spacing);
    let ghost rows = span(min_region_z as int, max_region_z as int);
    let mut found: Vec<Candidate> = Vec::new();
    let mut region_x = min_region_x;
    while region_x <= max_region_x
        invariant
            valid_placement(placement),
            spacing == placement.spacing,
            radius >= 0,
            area_in_range(center_x, center_z, radius),
            min_region_x <= region_x,
            region_x <= max_region_x + 1 || region_x == min_region_x,
            region_fits(min_region_x as int, spacing as int),
            region_fits(max_region_x as int, spacing as int),
            region_fits(min_region_z as int, spacing as int),
            region_fits(max_region_z as int, spacing as int),
            -0x800_0001 <= min_region_x <= 0x800_0001,
            -0x800_0001 <= max_region_x <= 0x800_0001,
            -0x800_0001 <= min_region_z <= 0x800_0001,
            -0x800_0001 <= max_region_z <= 0x800_0001,
            rows == span(min_region_z as int, max_region_z as int),
            found@ == grid_candidates(
                world_seed,
                center_x,
                center_z,
                radius,
                placement,
                min_region_x as int,
                (region_x - min_region_x) as nat,
                min_region_z as int,
                rows,
            ),
        decreases max_region_x + 1 - region_x,
    {
        proof {
            lemma_region_between(min_region_x as int, max_region_x as int, region_x as int, spacing as int);
        }
        let ghost before = found@;
        let mut region_z = min_region_z;
        while region_z <= max_region_z
            invariant
                valid_placement(placement),
                spacing == placement.spacing,
                radius >= 0,
                area_in_range(center_x, center_z, radius),
                min_region_x <= region_x <= max_region_x,
                min_region_z <= region_z,
                region_z <= max_region_z + 1 || region_z == min_region_z,
                region_fits(region_x as int, spacing as int),
                region_fits(min_region_z as int, spacing as int),
                region_fits(max_region_z as int, spacing as int),
                -0x800_0001 <= max_region_z <= 0x800_0001,
                found@ == before + column_candidates(
                    world_seed,
                    center_x,
                    center_z,
                    radius,
                    placement,
                    region_x,
                    min_region_z as int,
                    (region_z - min_region_z) as nat,
                ),
            decreases max_region_z + 1 - region_z,
        {
            proof {
                lemma_region_between(
                    min_region_z as int,
                    max_region_z as int,
                    region_z as int,
                    spacing as int,
                );
            }
            let candidate = candidate_of_region(
                world_seed,
                center_x,
                center_z,
                radius,
                placement,
                region_x,
                region_z,
            );
            match candidate {
                Some(c) => found.push(c),
                None => {},
            }
            region_z = region_z + 1;
        }
        proof {
            assert((region_z - min_region_z) as nat == rows);
        }
        region_x = region_x + 1;
    }
    proof {
        assert((region_x - min_region_x) as nat == span(min_region_x as int, max_region_x as int));
    }
    let sorted = sort_candidates(found);
    Ok(sorted)
}

/// The candidate of one region, if it lies inside the search circle.
fn candidate_of_region(
    world_seed: i64,
    center_x: i32,
    center_z: i32,
    radius: i32,
    placement: Placement,
    region_x: i32,
    region_z: i32,
) -> (candidate: Option<Candidate>)
    requires
        valid_placement(placement),
        radius >= 0,
        area_in_range(center_x, center_z, radius),
        region_fits(region_x as int, placement.spacing as int),
        region_fits(region_z as int, placement.spacing as int),
    ensures
        candidate == region_candidate(
            world_seed,
            center_x,
            center_z,
            radius,
            placement,
            region_x,
            region_z,
        ),
{
    reveal(region_candidate);
    let limit = placement.spacing - placement.separation;
    let seed = region_seed_of(world_seed, region_x, region_z, placement.salt);
    let (offset_x, offset_z) = offsets_of_region(seed, limit, placement.spread);
    let chunk_x = region_x as i64 * placement.spacing as i64 + offset_x as i64;
    let chunk_z = region_z as i64 * placement.spacing as i64 + offset_z as i64;
    let block_x = chunk_x * 16 + 8;
    let block_z = chunk_z * 16 + 8;
    let dx = block_x - center_x as i64;
    let dz = block_z - center_z as i64;
    let r = radius as i64;
    if -r <= dx && dx <= r && -r <= dz && dz <= r {
        proof {
            assert(0 <= dx * dx <= r * r) by (nonlinear_arith)
                requires
                    -r <= dx <= r,
            ;
            assert(0 <= dz * dz <= r * r) by (nonlinear_arith)
                requires
                    -r <= dz <= r,
            ;
            assert(r * r <= 0x4000_0000_0000_0000) by (nonlinear_arith)
                requires
                    0 <= r <= 0x7FFF_FFFF,
            ;
        }
        if dx * dx <= r * r - dz * dz {
            return Some(
                Candidate {
                    chunk_x: chunk_x as i32,
                    chunk_z: chunk_z as i32,
                    block_x: block_x as i32,
                    block_z: block_z as i32,
                    squared_distance: dx * dx + dz * dz,
                },
            );
        }
    }
    None
}

/// The placement seed of a region.
fn region_seed_of(world_seed: i64, region_x: i32, region_z: i32, salt: i64) -> (seed: i64)
    ensures
        seed == region_seed(world_seed, region_x, region_z, salt),
{
    world_seed.wrapping_add((region_x as i64).wrapping_mul(REGION_X_MULTIPLIER)).wrapping_add(
        (region_z as i64).wrapping_mul(REGION_Z_MULTIPLIER),
    ).wrapping_add(salt)
}

/// The offset of a region's candidate chunk.
fn offsets_of_region(seed: i64, limit: i32, spread: SpreadType) -> (offset: (i64, i64))
    requires
        limit > 0,
    ensures
        offset.0 == region_offset(seed, limit, spread).0,
        offset.1 == region_offset(seed, limit, spread).1,
        0 <= offset.0 < limit,
        0 <= offset.1 < limit,
{
    let mut random = LegacyRandom48::new(seed);
    let first = random.next_int(limit);
    let second = random.next_int(limit);
    match spread {
        SpreadType::Triangular => {
            let third = random.next_int(limit);
            let fourth = random.next_int(limit);
            ((first as i64 + second as i64) / 2, (third as i64 + fourth as i64) / 2)
        },
        SpreadType::Linear => (first as i64, second as i64),
    }
}

/// Where `insert_by_distance` puts `c`: after the longest prefix whose last
/// element is not farther than `c`, searching from the back.
pub open spec fn insertion_point(s: Seq<Candidate>, c: Candidate) -> nat
    decreases s.len(),
{
    if s.len() == 0 {
        0
    } else if s.last().squared_distance <= c.squared_distance {
        s.len()
    } else {
        insertion_point(s.drop_last(), c)
    }
}

/// `insert_by_distance` inserts at `insertion_point`.
proof fn lemma_insert_at_point(s: Seq<Candidate>, c: Candidate)
    ensures
        insertion_point(s, c) <= s.len(),
        insert_by_distance(s, c) =~= s.insert(insertion_point(s, c) as int, c),
    decreases s.len(),
{
    if s.len() > 0 && s.last().squared_distance > c.squared_distance {
        lemma_insert_at_point(s.drop_last(), c);
        assert(s.drop_last().insert(insertion_point(s, c) as int, c).push(s.last()) =~= s.insert(
            insertion_point(s, c) as int,
            c,
        ));
    }
}

/// Nearest first: squared distances never decrease along the sequence.
pub open spec fn nearest_first(s: Seq<Candidate>) -> bool {
    forall|i: int, j: int|
        0 <= i <= j < s.len() ==> #[trigger] s[i].squared_distance <= #[trigger] s[j].squared_distance
}

/// Everything from the insertion point on is farther than `c`, and the element
/// just before it is not.
proof fn lemma_insertion_point_bounds(s: Seq<Candidate>, c: Candidate)
    ensures
        insertion_point(s, c) <= s.len(),
        forall|i: int|
            insertion_point(s, c) <= i < s.len() ==> (#[trigger] s[i]).squared_distance
                > c.squared_distance,
        insertion_point(s, c) > 0 ==> s[insertion_point(s, c) - 1].squared_distance
            <= c.squared_distance,
    decreases s.len(),
{
    if s.len() > 0 && s.last().squared_distance > c.squared_distance {
        lemma_insertion_point_bounds(s.drop_last(), c);
        assert forall|i: int|
            insertion_point(s, c) <= i < s.len() implies (#[trigger] s[i]).squared_distance
                > c.squared_distance by {
            if i < s.len() - 1 {
                assert(s.drop_last()[i] == s[i]);
            }
        }
    }
}

/// Inserting into a nearest-first sequence keeps it nearest first and adds
/// exactly the inserted candidate.
proof fn lemma_insert_keeps_order(s: Seq<Candidate>, c: Candidate)
    requires
        nearest_first(s),
    ensures
        nearest_first(insert_by_distance(s, c)),
        insert_by_distance(s, c).to_multiset() == s.to_multiset().insert(c),
{
    broadcast use vstd::seq_lib::to_multiset_insert;

    lemma_insert_at_point(s, c);
    lemma_insertion_point_bounds(s, c);
    let p = insertion_point(s, c) as int;
    let r = s.insert(p, c);
    assert forall|i: int, j: int| 0 <= i <= j < r.len() implies #[trigger] r[i].squared_distance
        <= #[trigger] r[j].squared_distance by {
        if i < p && j < p {
            assert(r[i] == s[i] && r[j] == s[j]);
        } else if i < p && j == p {
            assert(r[i] == s[i]);
            assert(s[i].squared_distance <= s[p - 1].squared_distance);
        } else if i < p && j > p {
            assert(r[i] == s[i] && r[j] == s[j - 1]);
        } else if i == p && j > p {
            assert(r[j] == s[j - 1]);
        } else if i > p {
            assert(r[i] == s[i - 1] && r[j] == s[j - 1]);
        }
    }
}

/// The stable sort by distance puts the candidates nearest first and keeps
/// every candidate, each as often as it occurs.
pub proof fn lemma_sort_by_distance(s: Seq<Candidate>)
    ensures
        nearest_first(sort_by_distance(s)),
        sort_by_distance(s).to_multiset() == s.to_multiset(),
    decreases s.len(),
{
    broadcast use vstd::seq_lib::to_multiset_build;

    if s.len() > 0 {
        lemma_sort_by_distance(s.drop_last());
        lemma_insert_keeps_order(sort_by_distance(s.drop_last()), s.last());
        assert(s.drop_last().push(s.last()) =~= s);
    }
}

/// What `locate` returns lists the candidates of the search area nearest
/// first, and each of them exactly once per region that yields it.
pub proof fn law_locate_nearest_first(
    world_seed: i64,
    center_x: i32,
    center_z: i32,
    radius: i32,
    placement: Placement,
)
    ensures
        nearest_first(
            sort_by_distance(candidates_in_area(world_seed, center_x, center_z, radius, placement)),
        ),
        sort_by_distance(
            candidates_in_area(world_seed, center_x, center_z, radius, placement),
        ).to_multiset() == candidates_in_area(
            world_seed,
            center_x,
            center_z,
            radius,
            placement,
        ).to_multiset(),
{
    lemma_sort_by_distance(candidates_in_area(world_seed, center_x, center_z, radius, placement));
}

/// The offset of a region's candidate lies inside the region.
proof fn lemma_region_offset_range(seed: i64, limit: i32, spread: SpreadType)
    requires
        limit > 0,
    ensures
        0 <= region_offset(seed, limit, spread).0 < limit,
        0 <= region_offset(seed, limit, spread).1 < limit,
{
    let (s1, a) = next_int_spec(scramble(seed), limit);
    crate::legacy_random::lemma_next_int_range(scramble(seed), limit);
    let (s2, b) = next_int_spec(s1, limit);
    crate::legacy_random::lemma_next_int_range(s1, limit);
    let (s3, c) = next_int_spec(s2, limit);
    crate::legacy_random::lemma_next_int_range(s2, limit);
    let (s4, d) = next_int_spec(s3, limit);
    crate::legacy_random::lemma_next_int_range(s3, limit);
}

/// Random-spread placement puts one candidate in every region, inside the
/// region: the candidate chunk of region `(region_x, region_z)` is the
/// placement chunk of the region it lies in. (A range of offsets wider than
/// the spacing lets the offset run past the region, so the law asks for
/// `spacing - separation` to be at most the spacing's magnitude.)
pub proof fn law_region_candidate_in_region(
    world_seed: i64,
    region_x: i32,
    region_z: i32,
    placement: Placement,
)
    requires
        valid_placement(placement),
        placement.spacing - placement.separation <= magnitude(placement.spacing as int),
        i32::MIN <= region_x * placement.spacing,
        region_x * placement.spacing + magnitude(placement.spacing as int) <= i32::MAX,
        i32::MIN <= region_z * placement.spacing,
        region_z * placement.spacing + magnitude(placement.spacing as int) <= i32::MAX,
    ensures
        ({
            let chunk = region_chunk(world_seed, region_x, region_z, placement);
            is_placement_chunk_spec(world_seed, chunk.0 as i32, chunk.1 as i32, placement)
        }),
{
    let limit = (placement.spacing - placement.separation) as i32;
    let seed = region_seed(world_seed, region_x, region_z, placement.salt);
    lemma_region_offset_range(seed, limit, placement.spread);
    let offset = region_offset(seed, limit, placement.spread);
    let chunk = region_chunk(world_seed, region_x, region_z, placement);
    let sp = placement.spacing as int;
    let e = magnitude(sp);
    assert(chunk.0 == region_x * sp + offset.0);
    assert(chunk.1 == region_z * sp + offset.1);
    if sp > 0 {
        vstd::arithmetic::div_mod::lemma_fundamental_div_mod_converse(
            chunk.0,
            sp,
            region_x as int,
            offset.0,
        );
        vstd::arithmetic::div_mod::lemma_fundamental_div_mod_converse(
            chunk.1,
            sp,
            region_z as int,
            offset.1,
        );
    } else {
        assert(region_x * sp == (-region_x) * e) by (nonlinear_arith)
            requires
                e == -sp,
        ;
        assert(region_z * sp == (-region_z) * e) by (nonlinear_arith)
            requires
                e == -sp,
        ;
        vstd::arithmetic::div_mod::lemma_fundamental_div_mod_converse(
            chunk.0,
            e,
            -region_x,
            offset.0,
        );
        vstd::arithmetic::div_mod::lemma_fundamental_div_mod_converse(
            chunk.1,
            e,
            -region_z,
            offset.1,
        );
        lemma_negative_divisor(chunk.0, sp);
        lemma_negative_divisor(chunk.1, sp);
    }
}

/// The offsets of a region's candidate are draws of `nextInt(limit)` from
/// the region's random, in order: a linear spread takes the first draw for X
/// and the second for Z; a triangular spread takes for X the mean of the
/// same two draws (rounded down), and for Z the mean of the third and fourth.
/// Both stay inside `0..limit`.
pub proof fn law_spread_offsets(seed: i64, limit: i32)
    requires
        limit > 0,
    ensures
        ({
            let (s1, first) = next_int_spec(scramble(seed), limit);
            let (s2, second) = next_int_spec(s1, limit);
            let (s3, third) = next_int_spec(s2, limit);
            let (s4, fourth) = next_int_spec(s3, limit);
            let linear = region_offset(seed, limit, SpreadType::Linear);
            let triangular = region_offset(seed, limit, SpreadType::Triangular);
            &&& linear == (first as int, second as int)
            &&& 2 * triangular.0 <= first + second < 2 * triangular.0 + 2
            &&& 2 * triangular.1 <= third + fourth < 2 * triangular.1 + 2
            &&& 2 * triangular.0 <= linear.0 + linear.1 < 2 * triangular.0 + 2
        }),
        0 <= region_offset(seed, limit, SpreadType::Linear).0 < limit,
        0 <= region_offset(seed, limit, SpreadType::Linear).1 < limit,
        0 <= region_offset(seed, limit, SpreadType::Triangular).0 < limit,
        0 <= region_offset(seed, limit, SpreadType::Triangular).1 < limit,
{
    lemma_region_offset_range(seed, limit, SpreadType::Linear);
    lemma_region_offset_range(seed, limit, SpreadType::Triangular);
    let (s1, first) = next_int_spec(scramble(seed), limit);
    crate::legacy_random::lemma_next_int_range(scramble(seed), limit);
    let (s2, second) = next_int_spec(s1, limit);
    crate::legacy_random::lemma_next_int_range(s1, limit);
    let (s3, third) = next_int_spec(s2, limit);
    crate::legacy_random::lemma_next_int_range(s2, limit);
    let (s4, fourth) = next_int_spec(s3, limit);
    crate::legacy_random::lemma_next_int_range(s3, limit);
}

/// Stable insertion of one candidate into a vector.
fn insert_candidate(sorted: &mut Vec<Candidate>, c: Candidate)
    ensures
        final(sorted)@ == insert_by_distance(old(sorted)@, c),
{
    let mut position = sorted.len();
    proof {
        assert(sorted@.take(position as int) =~= sorted@);
    }
    while position > 0 && sorted[position - 1].squared_distance > c.squared_distance
        invariant
            position <= sorted.len(),
            sorted@ == old(sorted)@,
            insertion_point(sorted@, c) == insertion_point(sorted@.take(position as int), c),
        decreases position,
    {
        proof {
            assert(sorted@.take(position as int).drop_last() =~= sorted@.take(position - 1));
        }
        position = position - 1;
    }
    proof {
        lemma_insert_at_point(sorted@, c);
        if position > 0 {
            assert(sorted@.take(position as int).last() == sorted@[position - 1]);
        }
    }
    sorted.insert(position, c);
}

/// The stable sort of the candidates by squared distance.
fn sort_candidates(found: Vec<Candidate>) -> (sorted: Vec<Candidate>)
    ensures
        sorted@ == sort_by_distance(found@),
{
    let mut sorted: Vec<Candidate> = Vec::new();
    let mut index: usize = 0;
    while index < found.len()
        invariant
            index <= found.len(),
            sorted@ == sort_by_distance(found@.take(index as int)),
        decreases found.len() - index,
    {
        proof {
            assert(found@.take(index + 1).drop_last() =~= found@.take(index as int));
        }
        insert_candidate(&mut sorted, found[index]);
        index = index + 1;
    }
    proof {
        assert(found@.take(found.len() as int) =~= found@);
    }
    sorted
}

/// Whether chunk `(chunk_x, chunk_z)` is the candidate chunk of its region.
pub open spec fn is_placement_chunk_spec(world_seed: i64, chunk_x: i32, chunk_z: i32, placement: Placement) -> bool {
    let region_x = chunk_x as int / placement.spacing as int;
    let region_z = chunk_z as int / placement.spacing as int;
    region_chunk(world_seed, region_x as i32, region_z as i32, placement) == (chunk_x as int, chunk_z as int)
}

/// Whether chunk `(chunk_x, chunk_z)` is the chunk that a placement with a
/// positive spacing picks in its region.
pub fn is_placement_chunk(world_seed: i64, chunk_x: i32, chunk_z: i32, placement: Placement) -> (yes: bool)
    requires
        valid_placement(placement),
        placement.spacing > 0,
    ensures
        yes == is_placement_chunk_spec(world_seed, chunk_x, chunk_z, placement),
{
    let spacing = placement.spacing as i64;
    let region_x = floor_div(chunk_x as i64, spacing);
    let region_z = floor_div(chunk_z as i64, spacing);
    proof {
        vstd::arithmetic::div_mod::lemma_fundamental_div_mod(chunk_x as int, spacing as int);
        vstd::arithmetic::div_mod::lemma_fundamental_div_mod(chunk_z as int, spacing as int);
        assert(region_x * spacing == spacing * region_x) by (nonlinear_arith);
        assert(region_z * spacing == spacing * region_z) by (nonlinear_arith);
    }
    let limit = placement.spacing - placement.separation;
    let seed = region_seed_of(world_seed, region_x as i32, region_z as i32, placement.salt);
    let (offset_x, offset_z) = offsets_of_region(seed, limit, placement.spread);
    region_x * spacing + offset_x == chunk_x as i64 && region_z * spacing + offset_z == chunk_z as i64
}

/// Floor division of a block or chunk coordinate by a positive divisor.
pub(crate) fn floor_div(x: i64, d: i64) -> (q: i64)
    requires
        d > 0,
        i32::MIN <= x <= i32::MAX,
    ensures
        q == x / d,
        i32::MIN <= q <= i32::MAX,
{
    proof {
        vstd::arithmetic::div_mod::lemma_fundamental_div_mod(x as int, d as int);
        vstd::arithmetic::div_mod::lemma_mod_bound(x as int, d as int);
        let q = x as int / d as int;
        assert(d * q == q * d) by (nonlinear_arith);
        assert(i32::MIN <= q <= i32::MAX) by (nonlinear_arith)
            requires
                q * d <= x,
                q * d > x - d,
                d >= 1,
                i32::MIN <= x <= i32::MAX,
        ;
    }
    match x.checked_div_euclid(d) {
        Some(q) => q,
        None => 0,
    }
}

/// Whether the first chunk of a region lies within the chunks of the `i32`
/// block range, give or take one spacing.
pub open spec fn region_fits(region: int, spacing: int) -> bool {
    -0x800_0000 - magnitude(spacing) <= region * spacing <= 0x800_0000
}

/// Euclidean division by a negative divisor is the negated division by its
/// magnitude.
proof fn lemma_negative_divisor(x: int, d: int)
    requires
        d < 0,
    ensures
        x / d == -(x / -d),
{
    let e = -d;
    vstd::arithmetic::div_mod::lemma_fundamental_div_mod(x, e);
    vstd::arithmetic::div_mod::lemma_mod_bound(x, e);
    vstd::arithmetic::div_mod::lemma_fundamental_div_mod(x, d);
    let q = x / d;
    let r = x % d;
    let q1 = x / e;
    let r1 = x % e;
    assert(0 <= r < e);
    assert(q == -q1) by (nonlinear_arith)
        requires
            x == d * q + r,
            x == e * q1 + r1,
            e == -d,
            0 <= r < e,
            0 <= r1 < e,
    ;
}

/// The region of a chunk in the `i32` block range: the Euclidean quotient
/// of the chunk by the spacing, and a region whose first chunk lies near it.
proof fn lemma_region_bounds(block: int, spacing: int)
    requires
        i32::MIN <= block <= i32::MAX,
        spacing != 0,
    ensures
        -0x800_0000 <= block / 16 < 0x800_0000,
        (block / 16) / spacing * spacing <= block / 16,
        (block / 16) / spacing * spacing > block / 16 - magnitude(spacing),
        -0x800_0001 <= (block / 16) / spacing <= 0x800_0001,
        region_fits((block / 16) / spacing, spacing),
{
    let c = block / 16;
    let e = magnitude(spacing);
    let q = c / e;
    vstd::arithmetic::div_mod::lemma_fundamental_div_mod(c, e);
    vstd::arithmetic::div_mod::lemma_mod_bound(c, e);
    assert(q * e == e * q) by (nonlinear_arith);
    assert(-0x800_0001 <= q < 0x800_0000) by (nonlinear_arith)
        requires
            q * e <= c,
            q * e > c - e,
            -0x800_0000 <= c < 0x800_0000,
            e > 0,
    ;
    if spacing < 0 {
        lemma_negative_divisor(c, spacing);
        assert(c / spacing * spacing == q * e) by (nonlinear_arith)
            requires
                c / spacing == -q,
                e == -spacing,
        ;
    }
}

/// A region between two regions whose first chunks lie near the `i32`
/// range has its first chunk there too.
proof fn lemma_region_between(low: int, high: int, region: int, spacing: int)
    requires
        region_fits(low, spacing),
        region_fits(high, spacing),
        low <= region <= high,
    ensures
        region_fits(region, spacing),
{
    if spacing >= 0 {
        vstd::arithmetic::mul::lemma_mul_inequality(low, region, spacing);
        vstd::arithmetic::mul::lemma_mul_inequality(region, high, spacing);
    } else {
        vstd::arithmetic::mul::lemma_mul_inequality(low, region, -spacing);
        vstd::arithmetic::mul::lemma_mul_inequality(region, high, -spacing);
        assert(region * spacing == -(region * -spacing)) by (nonlinear_arith);
        assert(low * spacing == -(low * -spacing)) by (nonlinear_arith);
        assert(high * spacing == -(high * -spacing)) by (nonlinear_arith);
    }
}

/// The region of a chunk: its Euclidean quotient by the spacing.
fn region_of(chunk: i32, spacing: i32) -> (region: i32)
    requires
        spacing != 0,
        -0x800_0000 <= chunk < 0x800_0000,
    ensures
        region as int == chunk as int / spacing as int,
{
    proof {
        lemma_region_bounds(chunk as int * 16, spacing as int);
        assert((chunk as int * 16) / 16 == chunk as int);
    }
    if spacing > 0 {
        floor_div(chunk as i64, spacing as i64) as i32
    } else {
        proof {
            lemma_negative_divisor(chunk as int, spacing as int);
        }
        let q = floor_div(chunk as i64, -(spacing as i64));
        (-q) as i32
    }
}

} // verus!
