//! The geometry of jigsaw assembly: block boxes, rotated pieces, the
//! collision spaces that new pieces must fit in, and whether two jigsaw
//! blocks can join.
//!
//! Boxes are inclusive integer boxes. Two boxes collide when they share at
//! least one block; boxes that only touch do not.

use vstd::prelude::*;

use crate::template_scan::{rotate_wide, rotate_xz, Rotation};
use crate::worldgen::Direction;

verus! {

/// The height above the world's lowest block that pieces must stay under.
pub const WORLD_HEIGHT: i32 = 320;

/// An inclusive box of blocks.
#[derive(Clone, Copy, Debug, PartialEq, Eq, Structural)]
pub struct BlockBox {
    pub min_x: i32,
    pub min_y: i32,
    pub min_z: i32,
    pub max_x: i32,
    pub max_y: i32,
    pub max_z: i32,
}

impl BlockBox {
    /// Whether the block `(x, y, z)` lies in the box.
    pub open spec fn holds(self, x: int, y: int, z: int) -> bool {
        &&& self.min_x <= x <= self.max_x
        &&& self.min_y <= y <= self.max_y
        &&& self.min_z <= z <= self.max_z
    }

    /// Whether the box holds at least one block.
    pub open spec fn nonempty(self) -> bool {
        self.min_x <= self.max_x && self.min_y <= self.max_y && self.min_z <= self.max_z
    }

    /// Whether the block `(x, y, z)` lies in the box.
    pub fn contains(&self, x: i32, y: i32, z: i32) -> (inside: bool)
        ensures
            inside == self.holds(x as int, y as int, z as int),
    {
        self.min_x <= x && x <= self.max_x && self.min_y <= y && y <= self.max_y && self.min_z <= z
            && z <= self.max_z
    }
}

/// Whether `inner` lies within `outer`.
pub open spec fn inside_spec(outer: BlockBox, inner: BlockBox) -> bool {
    &&& inner.min_x >= outer.min_x && inner.max_x <= outer.max_x
    &&& inner.min_y >= outer.min_y && inner.max_y <= outer.max_y
    &&& inner.min_z >= outer.min_z && inner.max_z <= outer.max_z
}

/// Whether `inner` lies within `outer`.
pub fn is_box_inside(outer: &BlockBox, inner: &BlockBox) -> (inside: bool)
    ensures
        inside == inside_spec(*outer, *inner),
{
    inner.min_x >= outer.min_x && inner.max_x <= outer.max_x && inner.min_y >= outer.min_y
        && inner.max_y <= outer.max_y && inner.min_z >= outer.min_z && inner.max_z <= outer.max_z
}

/// Whether the boxes overlap on every axis.
pub open spec fn intersect_spec(a: BlockBox, b: BlockBox) -> bool {
    &&& a.max_x >= b.min_x && a.min_x <= b.max_x
    &&& a.max_y >= b.min_y && a.min_y <= b.max_y
    &&& a.max_z >= b.min_z && a.min_z <= b.max_z
}

/// Whether two pieces collide.
pub fn boxes_intersect(a: &BlockBox, b: &BlockBox) -> (collide: bool)
    ensures
        collide == intersect_spec(*a, *b),
{
    a.max_x >= b.min_x && a.min_x <= b.max_x && a.max_y >= b.min_y && a.min_y <= b.max_y && a.max_z
        >= b.min_z && a.min_z <= b.max_z
}

/// The larger of two integers.
pub open spec fn max_int(a: int, b: int) -> int {
    if a >= b {
        a
    } else {
        b
    }
}

/// The smaller of two integers.
pub open spec fn min_int(a: int, b: int) -> int {
    if a <= b {
        a
    } else {
        b
    }
}

/// Two boxes that hold blocks collide exactly when they share a block; boxes
/// that only touch do not collide.
pub proof fn law_collide_iff_shared_block(a: BlockBox, b: BlockBox)
    requires
        a.nonempty(),
        b.nonempty(),
    ensures
        intersect_spec(a, b) <==> exists|x: int, y: int, z: int|
            #[trigger] a.holds(x, y, z) && b.holds(x, y, z),
{
    if intersect_spec(a, b) {
        let x = max_int(a.min_x as int, b.min_x as int);
        let y = max_int(a.min_y as int, b.min_y as int);
        let z = max_int(a.min_z as int, b.min_z as int);
        assert(a.holds(x, y, z) && b.holds(x, y, z));
    }
}

/// A box within another collides with whatever the inner one collides with
/// only if the outer one does too.
pub proof fn law_inside_keeps_collisions(outer: BlockBox, inner: BlockBox, other: BlockBox)
    requires
        inside_spec(outer, inner),
        intersect_spec(inner, other),
    ensures
        intersect_spec(outer, other),
{
}

// ---------------------------------------------------------------------------
// Directions and rotation

/// A direction turned by a rotation about the vertical axis.
pub open spec fn rotate_direction_spec(dir: Direction, rotation: Rotation) -> Direction {
    match rotation {
        Rotation::Unrotated => dir,
        Rotation::Clockwise90 => match dir {
            Direction::North => Direction::East,
            Direction::East => Direction::South,
            Direction::South => Direction::West,
            Direction::West => Direction::North,
            _ => dir,
        },
        Rotation::Clockwise180 => match dir {
            Direction::North => Direction::South,
            Direction::South => Direction::North,
            Direction::West => Direction::East,
            Direction::East => Direction::West,
            _ => dir,
        },
        Rotation::Counterclockwise90 => match dir {
            Direction::North => Direction::West,
            Direction::West => Direction::South,
            Direction::South => Direction::East,
            Direction::East => Direction::North,
            _ => dir,
        },
    }
}

/// A direction turned by a rotation about the vertical axis.
pub fn rotate_direction(dir: Direction, rotation: Rotation) -> (turned: Direction)
    ensures
        turned == rotate_direction_spec(dir, rotation),
{
    match rotation {
        Rotation::Unrotated => dir,
        Rotation::Clockwise90 => match dir {
            Direction::North => Direction::East,
            Direction::East => Direction::South,
            Direction::South => Direction::West,
            Direction::West => Direction::North,
            _ => dir,
        },
        Rotation::Clockwise180 => match dir {
            Direction::North => Direction::South,
            Direction::South => Direction::North,
            Direction::West => Direction::East,
            Direction::East => Direction::West,
            _ => dir,
        },
        Rotation::Counterclockwise90 => match dir {
            Direction::North => Direction::West,
            Direction::West => Direction::South,
            Direction::South => Direction::East,
            Direction::East => Direction::North,
            _ => dir,
        },
    }
}

/// The opposite direction.
pub open spec fn opposite_spec(dir: Direction) -> Direction {
    match dir {
        Direction::Down => Direction::Up,
        Direction::Up => Direction::Down,
        Direction::North => Direction::South,
        Direction::South => Direction::North,
        Direction::West => Direction::East,
        Direction::East => Direction::West,
    }
}

/// The opposite direction.
pub fn opposite(dir: Direction) -> (back: Direction)
    ensures
        back == opposite_spec(dir),
{
    match dir {
        Direction::Down => Direction::Up,
        Direction::Up => Direction::Down,
        Direction::North => Direction::South,
        Direction::South => Direction::North,
        Direction::West => Direction::East,
        Direction::East => Direction::West,
    }
}

/// The unit step of a direction.
pub open spec fn step_spec(dir: Direction) -> (int, int, int) {
    match dir {
        Direction::Down => (0, -1, 0),
        Direction::Up => (0, 1, 0),
        Direction::North => (0, 0, -1),
        Direction::South => (0, 0, 1),
        Direction::West => (-1, 0, 0),
        Direction::East => (1, 0, 0),
    }
}

/// The unit step of a direction.
pub fn step(dir: Direction) -> (v: (i32, i32, i32))
    ensures
        (v.0 as int, v.1 as int, v.2 as int) == step_spec(dir),
{
    match dir {
        Direction::Down => (0, -1, 0),
        Direction::Up => (0, 1, 0),
        Direction::North => (0, 0, -1),
        Direction::South => (0, 0, 1),
        Direction::West => (-1, 0, 0),
        Direction::East => (1, 0, 0),
    }
}

/// Turning a direction is undone by the opposite turn, and commutes with
/// taking the opposite direction.
pub proof fn law_turns_undo_and_commute(dir: Direction)
    ensures
        rotate_direction_spec(rotate_direction_spec(dir, Rotation::Clockwise90), Rotation::Counterclockwise90) == dir,
        rotate_direction_spec(rotate_direction_spec(dir, Rotation::Clockwise180), Rotation::Clockwise180) == dir,
        forall|r: Rotation| #[trigger] rotate_direction_spec(opposite_spec(dir), r) == opposite_spec(
            rotate_direction_spec(dir, r),
        ),
{
}

/// Turning a template position and turning a direction agree: the unit
/// step of a horizontal direction, turned about the origin by a rotation, is
/// the step of the turned direction. So `Clockwise90` turns north (`-Z`) to
/// east (`+X`), as seen from above.
pub proof fn law_positions_turn_with_directions(dir: Direction, rotation: Rotation)
    requires
        dir != Direction::Up && dir != Direction::Down,
    ensures
        ({
            let s = step_spec(dir);
            let t = step_spec(rotate_direction_spec(dir, rotation));
            rotate_xz(rotation, s.0, s.2, 0, 0) == (t.0, t.2)
        }),
{
}

/// The box of a piece of `size` placed at `origin` with `rotation`: the
/// rotated far corner fixes its extent in X and Z.
pub open spec fn rotated_box_spec(origin: (i32, i32, i32), size: (i32, i32, i32), rotation: Rotation) -> (int, int, int, int, int, int) {
    let corner = rotate_xz(rotation, size.0 - 1, size.2 - 1, 0, 0);
    (
        min_int(origin.0 as int, origin.0 + corner.0),
        origin.1 as int,
        min_int(origin.2 as int, origin.2 + corner.1),
        max_int(origin.0 as int, origin.0 + corner.0),
        origin.1 + (size.1 - 1),
        max_int(origin.2 as int, origin.2 + corner.1),
    )
}

/// The values of a box, for comparison with a spec tuple.
pub open spec fn box_tuple(b: BlockBox) -> (int, int, int, int, int, int) {
    (b.min_x as int, b.min_y as int, b.min_z as int, b.max_x as int, b.max_y as int, b.max_z as int)
}

/// Whether a piece of `size` at `origin` fits the `i32` range once rotated.
pub open spec fn rotated_box_ok(origin: (i32, i32, i32), size: (i32, i32, i32), rotation: Rotation) -> bool {
    let b = rotated_box_spec(origin, size, rotation);
    &&& i32::MIN <= b.0 && b.3 <= i32::MAX
    &&& i32::MIN <= b.4 <= i32::MAX
    &&& i32::MIN <= b.2 && b.5 <= i32::MAX
}

/// The box of a piece of `size` placed at `origin` with `rotation`, computed
/// wide enough that it cannot overflow.
fn rotated_box_wide(origin: (i32, i32, i32), size: (i32, i32, i32), rotation: Rotation) -> (b: (
    i64,
    i64,
    i64,
    i64,
    i64,
    i64,
))
    ensures
        (b.0 as int, b.1 as int, b.2 as int, b.3 as int, b.4 as int, b.5 as int)
            == rotated_box_spec(origin, size, rotation),
{
    let dx = size.0 as i64 - 1;
    let dz = size.2 as i64 - 1;
    let (cx, cz) = match rotation {
        Rotation::Unrotated => (dx, dz),
        Rotation::Clockwise90 => (-dz, dx),
        Rotation::Clockwise180 => (-dx, -dz),
        Rotation::Counterclockwise90 => (dz, -dx),
    };
    let x = origin.0 as i64;
    let z = origin.2 as i64;
    let far_x = x + cx;
    let far_z = z + cz;
    (
        if x <= far_x {
            x
        } else {
            far_x
        },
        origin.1 as i64,
        if z <= far_z {
            z
        } else {
            far_z
        },
        if x >= far_x {
            x
        } else {
            far_x
        },
        origin.1 as i64 + (size.1 as i64 - 1),
        if z >= far_z {
            z
        } else {
            far_z
        },
    )
}

/// The box of a piece placed at `origin` with `rotation`.
pub fn rotated_box(origin: (i32, i32, i32), size: (i32, i32, i32), rotation: Rotation) -> (b: BlockBox)
    requires
        rotated_box_ok(origin, size, rotation),
    ensures
        box_tuple(b) == rotated_box_spec(origin, size, rotation),
{
    let w = rotated_box_wide(origin, size, rotation);
    BlockBox {
        min_x: w.0 as i32,
        min_y: w.1 as i32,
        min_z: w.2 as i32,
        max_x: w.3 as i32,
        max_y: w.4 as i32,
        max_z: w.5 as i32,
    }
}

// ---------------------------------------------------------------------------
// Collision spaces

/// The region that pieces of one assembly must stay in, and the boxes that
/// pieces already hold in it.
#[derive(Clone, Debug)]
pub struct CollisionSpace {
    pub bounds: BlockBox,
    pub occupied: Vec<BlockBox>,
}

/// The bounds of the first collision space of an assembly: the distance
/// limit around the start piece's centre, clipped to the build height.
pub open spec fn initial_bounds(
    center_x: int,
    center_y: int,
    center_z: int,
    max_distance: int,
    min_y: int,
) -> (int, int, int, int, int, int) {
    (
        center_x - max_distance,
        max_int(center_y - max_distance, min_y),
        center_z - max_distance,
        center_x + max_distance,
        min_int(center_y + max_distance + 1, min_y + WORLD_HEIGHT),
        center_z + max_distance,
    )
}

/// The first collision space of an assembly, holding the start piece's box.
pub fn initial_collision_space(
    center_x: i32,
    center_y: i32,
    center_z: i32,
    max_distance_from_center: i32,
    min_y: i32,
    start_box: BlockBox,
) -> (space: CollisionSpace)
    requires
        i32::MIN <= center_x - max_distance_from_center <= i32::MAX,
        i32::MIN <= center_x + max_distance_from_center <= i32::MAX,
        i32::MIN <= center_y - max_distance_from_center <= i32::MAX,
        i32::MIN <= center_y + max_distance_from_center <= i32::MAX,
        center_y + max_distance_from_center + 1 <= i32::MAX,
        i32::MIN <= center_z - max_distance_from_center <= i32::MAX,
        i32::MIN <= center_z + max_distance_from_center <= i32::MAX,
        min_y + WORLD_HEIGHT <= i32::MAX,
    ensures
        box_tuple(space.bounds) == initial_bounds(
            center_x as int,
            center_y as int,
            center_z as int,
            max_distance_from_center as int,
            min_y as int,
        ),
        space.occupied@ == seq![start_box],
{
    let low_y = center_y - max_distance_from_center;
    let high_y = center_y + max_distance_from_center + 1;
    let limit = min_y + WORLD_HEIGHT;
    let mut occupied: Vec<BlockBox> = Vec::new();
    occupied.push(start_box);
    CollisionSpace {
        bounds: BlockBox {
            min_x: center_x - max_distance_from_center,
            min_y: if low_y >= min_y {
                low_y
            } else {
                min_y
            },
            min_z: center_z - max_distance_from_center,
            max_x: center_x + max_distance_from_center,
            max_y: if high_y <= limit {
                high_y
            } else {
                limit
            },
            max_z: center_z + max_distance_from_center,
        },
        occupied,
    }
}

/// Whether a piece's collision box fits a space: inside its bounds and clear
/// of every box already placed.
pub open spec fn fits_spec(space: CollisionSpace, candidate: BlockBox) -> bool {
    &&& inside_spec(space.bounds, candidate)
    &&& forall|k: int|
        0 <= k < space.occupied@.len() ==> !intersect_spec(#[trigger] space.occupied@[k], candidate)
}

/// Whether a piece's collision box fits a space.
pub fn fits(space: &CollisionSpace, candidate: &BlockBox) -> (ok: bool)
    ensures
        ok == fits_spec(*space, *candidate),
{
    if !is_box_inside(&space.bounds, candidate) {
        return false;
    }
    let mut k: usize = 0;
    while k < space.occupied.len()
        invariant
            k <= space.occupied@.len(),
            forall|j: int| 0 <= j < k ==> !intersect_spec(#[trigger] space.occupied@[j], *candidate),
        decreases space.occupied.len() - k,
    {
        if boxes_intersect(&space.occupied[k], candidate) {
            return false;
        }
        k = k + 1;
    }
    true
}

// ---------------------------------------------------------------------------
// Jigsaw blocks

/// How a jigsaw joint may turn.
#[derive(Clone, Copy, Debug, PartialEq, Eq, Structural)]
pub enum JointType {
    Rollable,
    Aligned,
}

/// A jigsaw block of a template: its template-local position, its name, the
/// name it connects to, the pool of the pieces it spawns, and its facing.
#[derive(Debug)]
pub struct JigsawBlock {
    pub pos: (i32, i32, i32),
    pub name: String,
    pub target: String,
    pub pool: String,
    pub facing: Direction,
    pub up: Direction,
    pub joint: JointType,
}

/// Whether `target`, turned by `target_rotation`, can join `source`: the
/// source names it, they face each other, and an aligned joint keeps its
/// up direction.
pub open spec fn can_attach_spec(source: JigsawBlock, target: JigsawBlock, target_rotation: Rotation) -> bool {
    &&& source.target@ == target.name@
    &&& opposite_spec(source.facing) == rotate_direction_spec(target.facing, target_rotation)
    &&& source.joint == JointType::Aligned ==> source.up == rotate_direction_spec(
        target.up,
        target_rotation,
    )
}

/// Whether a jigsaw block can join another.
pub fn can_attach(source: &JigsawBlock, target: &JigsawBlock, target_rotation: Rotation) -> (ok: bool)
    ensures
        ok == can_attach_spec(*source, *target, target_rotation),
{
    if !crate::strings::str_eq(source.target.as_str(), target.name.as_str()) {
        return false;
    }
    if opposite(source.facing) != rotate_direction(target.facing, target_rotation) {
        return false;
    }
    if source.joint == JointType::Aligned {
        return source.up == rotate_direction(target.up, target_rotation);
    }
    true
}

// ---------------------------------------------------------------------------
// The expansion of collision boxes

/// Whether the block in front of a jigsaw lies inside its own piece, which
/// is when the pieces it spawns grow inward.
pub open spec fn faces_inward(jigsaw: JigsawBlock, size: (i32, i32, i32), rotation: Rotation) -> bool {
    let facing = rotate_direction_spec(jigsaw.facing, rotation);
    let p = rotate_xz(rotation, jigsaw.pos.0 as int, jigsaw.pos.2 as int, 0, 0);
    let s = step_spec(facing);
    let b = rotated_box_spec((0, 0, 0), size, rotation);
    &&& b.0 <= p.0 + s.0 <= b.3
    &&& b.1 <= jigsaw.pos.1 + s.1 <= b.4
    &&& b.2 <= p.1 + s.2 <= b.5
}

/// The tallest child of the first `n` inward-facing jigsaws, 0 for none;
/// `heights[k]` is the tallest piece of the pools of jigsaw `k`.
pub open spec fn expansion_height(
    jigsaws: Seq<JigsawBlock>,
    heights: Seq<i32>,
    size: (i32, i32, i32),
    rotation: Rotation,
    n: int,
) -> int
    decreases n,
{
    if n <= 0 {
        0
    } else {
        let rest = expansion_height(jigsaws, heights, size, rotation, n - 1);
        if faces_inward(jigsaws[n - 1], size, rotation) {
            max_int(rest, heights[n - 1] as int)
        } else {
            rest
        }
    }
}

/// The collision box of a piece after the expansion hack: a piece at most 16
/// blocks tall whose jigsaws face inward reserves room above it for the
/// tallest piece those jigsaws may spawn.
pub open spec fn expanded_spec(
    collision_box: BlockBox,
    target_box: BlockBox,
    size: (i32, i32, i32),
    rotation: Rotation,
    jigsaws: Seq<JigsawBlock>,
    heights: Seq<i32>,
    use_expansion_hack: bool,
) -> BlockBox {
    let expand_to = expansion_height(jigsaws, heights, size, rotation, jigsaws.len() as int);
    if !use_expansion_hack || target_box.max_y - target_box.min_y + 1 > 16 || expand_to <= 0 {
        collision_box
    } else {
        BlockBox {
            max_y: (collision_box.min_y + max_int(
                expand_to + 1,
                collision_box.max_y - collision_box.min_y,
            )) as i32,
            ..collision_box
        }
    }
}

/// Whether a jigsaw's neighbour block lies inside its own piece.
fn jigsaw_faces_inward(jigsaw: &JigsawBlock, size: (i32, i32, i32), rotation: Rotation) -> (inward: bool)
    ensures
        inward == faces_inward(*jigsaw, size, rotation),
{
    let facing = rotate_direction(jigsaw.facing, rotation);
    let p = rotate_wide(rotation, jigsaw.pos.0, jigsaw.pos.2, 0, 0);
    let s = step(facing);
    let b = rotated_box_wide((0, 0, 0), size, rotation);
    let x = p.0 + s.0 as i64;
    let y = jigsaw.pos.1 as i64 + s.1 as i64;
    let z = p.1 + s.2 as i64;
    b.0 <= x && x <= b.3 && b.1 <= y && y <= b.4 && b.2 <= z && z <= b.5
}

/// Whether the expanded collision box of a piece fits the `i32` range: it
/// is only computed where the expansion hack applies.
pub open spec fn expansion_fits(
    collision_box: BlockBox,
    target_box: BlockBox,
    size: (i32, i32, i32),
    rotation: Rotation,
    jigsaws: Seq<JigsawBlock>,
    heights: Seq<i32>,
    use_expansion_hack: bool,
) -> bool {
    let expand_to = expansion_height(jigsaws, heights, size, rotation, jigsaws.len() as int);
    use_expansion_hack && target_box.max_y - target_box.min_y + 1 <= 16 && expand_to > 0
        ==> collision_box.min_y + max_int(
        expand_to + 1,
        collision_box.max_y - collision_box.min_y,
    ) <= i32::MAX
}

/// The collision box of a piece after the expansion hack; `heights[k]` is the
/// tallest piece of the pool (and its fallback) that jigsaw `k` spawns from.
pub fn expanded_collision_box(
    collision_box: BlockBox,
    target_box: BlockBox,
    size: (i32, i32, i32),
    rotation: Rotation,
    jigsaws: &Vec<JigsawBlock>,
    heights: &Vec<i32>,
    use_expansion_hack: bool,
) -> (expanded: BlockBox)
    requires
        heights@.len() == jigsaws@.len(),
        expansion_fits(
            collision_box,
            target_box,
            size,
            rotation,
            jigsaws@,
            heights@,
            use_expansion_hack,
        ),
    ensures
        expanded == expanded_spec(
            collision_box,
            target_box,
            size,
            rotation,
            jigsaws@,
            heights@,
            use_expansion_hack,
        ),
{
    if !use_expansion_hack || target_box.max_y as i64 - target_box.min_y as i64 + 1 > 16 {
        return collision_box;
    }
    let mut expand_to: i32 = 0;
    let mut k: usize = 0;
    while k < jigsaws.len()
        invariant
            heights@.len() == jigsaws@.len(),
            k <= jigsaws@.len(),
            expand_to as int == expansion_height(jigsaws@, heights@, size, rotation, k as int),
        decreases jigsaws.len() - k,
    {
        let jigsaw = &jigsaws[k];
        if jigsaw_faces_inward(jigsaw, size, rotation) {
            if heights[k] > expand_to {
                expand_to = heights[k];
            }
        }
        k = k + 1;
    }
    if expand_to > 0 {
        let current = collision_box.max_y as i64 - collision_box.min_y as i64;
        let offset = if expand_to as i64 + 1 >= current {
            expand_to as i64 + 1
        } else {
            current
        };
        BlockBox { max_y: (collision_box.min_y as i64 + offset) as i32, ..collision_box }
    } else {
        collision_box
    }
}


// ---------------------------------------------------------------------------
// Attaching a piece

/// The piece that a jigsaw grows from: its index and depth, the collision
/// space it was placed in, its box and collision box, and whether it keeps
/// its own shape (rigid) or follows the terrain.
#[derive(Clone, Copy, Debug)]
pub struct SourceAttachment {
    pub piece_idx: usize,
    pub depth: i32,
    pub collision_space: usize,
    pub bounding_box: BlockBox,
    pub collision_box: BlockBox,
    pub rigid: bool,
}

/// Where an attached piece goes and what its junctions need.
#[derive(Clone, Copy, Debug)]
pub struct AttachmentPlacement {
    pub target_box: BlockBox,
    pub target_collision_box: BlockBox,
    pub target_pos: (i32, i32, i32),
    pub target_rigid: bool,
    pub delta_y: i32,
    pub source_jigsaw_base_height: i32,
    pub source_jigsaw_local_y: i32,
    pub target_jigsaw_local_y: i32,
    pub target_box_y: i32,
    pub collision_space: usize,
}

/// The positions of an attachment: the block in front of the source jigsaw
/// (where the target jigsaw goes), the jigsaws' heights within their pieces,
/// the height difference of the pieces, the target piece's floor, and the
/// target piece's origin in X and Z. A rigid piece on a rigid source keeps
/// the source's frame; otherwise the target sits on the terrain height
/// `base_height` at the source jigsaw.
pub open spec fn attach_geometry(
    source: SourceAttachment,
    source_jigsaw: JigsawBlock,
    rotation: Rotation,
    target_rigid: bool,
    target_jigsaw: JigsawBlock,
    base_height: i32,
) -> (int, int, int, int, int, int, int, int, int) {
    let f = step_spec(source_jigsaw.facing);
    let tj = (source_jigsaw.pos.0 + f.0, source_jigsaw.pos.1 + f.1, source_jigsaw.pos.2 + f.2);
    let source_local_y = source_jigsaw.pos.1 - source.bounding_box.min_y;
    let tl = rotate_xz(rotation, target_jigsaw.pos.0 as int, target_jigsaw.pos.2 as int, 0, 0);
    let target_local_y = target_jigsaw.pos.1 as int;
    let delta_y = source_local_y - target_local_y + f.1;
    let box_y = if source.rigid && target_rigid {
        source.bounding_box.min_y + delta_y
    } else {
        base_height - target_local_y
    };
    (tj.0, tj.1, tj.2, source_local_y, target_local_y, delta_y, box_y, tj.0 - tl.0, tj.2 - tl.1)
}

/// Whether every step of an attachment's arithmetic stays in the `i32` range.
pub open spec fn attach_ok(
    source: SourceAttachment,
    source_jigsaw: JigsawBlock,
    size: (i32, i32, i32),
    rotation: Rotation,
    target_rigid: bool,
    target_jigsaw: JigsawBlock,
    jigsaws: Seq<JigsawBlock>,
    heights: Seq<i32>,
    base_height: i32,
    use_expansion_hack: bool,
) -> bool {
    let g = attach_geometry(source, source_jigsaw, rotation, target_rigid, target_jigsaw, base_height);
    let origin = (g.7 as i32, g.6 as i32, g.8 as i32);
    let target_box = box_of(rotated_box_spec(origin, size, rotation));
    &&& i32::MIN <= g.0 <= i32::MAX && i32::MIN <= g.1 <= i32::MAX && i32::MIN <= g.2 <= i32::MAX
    &&& i32::MIN <= g.3 <= i32::MAX && i32::MIN <= g.3 - g.4 <= i32::MAX
    &&& i32::MIN <= g.5 <= i32::MAX && i32::MIN <= g.6 <= i32::MAX
    &&& i32::MIN <= g.7 <= i32::MAX && i32::MIN <= g.8 <= i32::MAX
    &&& i32::MIN <= g.1 - g.4 <= i32::MAX && i32::MIN <= g.6 - (g.1 - g.4) <= i32::MAX
    &&& rotated_box_ok(origin, size, rotation)
    &&& heights.len() == jigsaws.len()
    &&& expansion_fits(target_box, target_box, size, rotation, jigsaws, heights, use_expansion_hack)
}

/// A box from its six bounds.
pub open spec fn box_of(t: (int, int, int, int, int, int)) -> BlockBox {
    BlockBox {
        min_x: t.0 as i32,
        min_y: t.1 as i32,
        min_z: t.2 as i32,
        max_x: t.3 as i32,
        max_y: t.4 as i32,
        max_z: t.5 as i32,
    }
}

/// A collision space as its bounds and occupied boxes.
pub open spec fn space_view(c: CollisionSpace) -> (BlockBox, Seq<BlockBox>) {
    (c.bounds, c.occupied@)
}

/// The collision spaces as their bounds and occupied boxes.
pub open spec fn spaces_view(spaces: Seq<CollisionSpace>) -> Seq<(BlockBox, Seq<BlockBox>)> {
    spaces.map_values(|c: CollisionSpace| space_view(c))
}

/// Whether a collision box fits a space given as its bounds and occupied boxes.
pub open spec fn fits_view(space: (BlockBox, Seq<BlockBox>), candidate: BlockBox) -> bool {
    &&& inside_spec(space.0, candidate)
    &&& forall|k: int| 0 <= k < space.1.len() ==> !intersect_spec(#[trigger] space.1[k], candidate)
}

/// Tries to attach a piece of `size`, turned by `rotation`, by its jigsaw
/// `target_jigsaw` to the jigsaw `source_jigsaw` (in world coordinates) of
/// `source`. The piece goes into the interior collision space of the source
/// when its jigsaw lies inside the source's collision box, creating that
/// space on first use, and into the source's own space otherwise; it is
/// placed, and its collision box reserved, only where that box fits.
/// `jigsaws` are all the target piece's jigsaws, `heights[k]` the tallest
/// piece that jigsaw `k` spawns, and `base_height` the terrain height at the
/// source jigsaw's column.
#[verifier::spinoff_prover]
#[verifier::rlimit(40)]
pub fn try_attach_piece(
    source: SourceAttachment,
    source_jigsaw: &JigsawBlock,
    size: (i32, i32, i32),
    rotation: Rotation,
    target_rigid: bool,
    target_jigsaw: &JigsawBlock,
    jigsaws: &Vec<JigsawBlock>,
    heights: &Vec<i32>,
    base_height: i32,
    use_expansion_hack: bool,
    interior: &mut Option<usize>,
    spaces: &mut Vec<CollisionSpace>,
) -> (placement: Option<AttachmentPlacement>)
    requires
        can_attach_spec(*source_jigsaw, *target_jigsaw, rotation) ==> attach_ok(
            source,
            *source_jigsaw,
            size,
            rotation,
            target_rigid,
            *target_jigsaw,
            jigsaws@,
            heights@,
            base_height,
            use_expansion_hack,
        ),
        source.collision_space < old(spaces)@.len(),
        *old(interior) matches Some(i) ==> i < old(spaces)@.len(),
        old(spaces)@.len() < usize::MAX,
    ensures
        !can_attach_spec(*source_jigsaw, *target_jigsaw, rotation) ==> placement is None
            && final(spaces)@ == old(spaces)@ && *final(interior) == *old(interior),
        can_attach_spec(*source_jigsaw, *target_jigsaw, rotation) ==> {
            let g = attach_geometry(
                source,
                *source_jigsaw,
                rotation,
                target_rigid,
                *target_jigsaw,
                base_height,
            );
            let origin = (g.7 as i32, g.6 as i32, g.8 as i32);
            let target_box = box_of(rotated_box_spec(origin, size, rotation));
            let collision_box = expanded_spec(
                target_box,
                target_box,
                size,
                rotation,
                jigsaws@,
                heights@,
                use_expansion_hack,
            );
            let before = spaces_view(old(spaces)@);
            let inner = source.collision_box.holds(g.0, g.1, g.2);
            let index: int = if !inner {
                source.collision_space as int
            } else {
                match *old(interior) {
                    Some(i) => i as int,
                    None => before.len() as int,
                }
            };
            let opened = if inner && (*old(interior)) is None {
                before.push((source.collision_box, Seq::<BlockBox>::empty()))
            } else {
                before
            };
            &&& *final(interior) == if inner {
                Some(index as usize)
            } else {
                *old(interior)
            }
            &&& if fits_view(opened[index], collision_box) {
                &&& spaces_view(final(spaces)@) == opened.update(
                    index,
                    (opened[index].0, opened[index].1.push(collision_box)),
                )
                &&& placement == Some(
                    AttachmentPlacement {
                        target_box,
                        target_collision_box: collision_box,
                        target_pos: origin,
                        target_rigid,
                        delta_y: g.5 as i32,
                        source_jigsaw_base_height: if source.rigid && target_rigid {
                            i32::MIN
                        } else {
                            base_height
                        },
                        source_jigsaw_local_y: g.3 as i32,
                        target_jigsaw_local_y: g.4 as i32,
                        target_box_y: g.6 as i32,
                        collision_space: index as usize,
                    },
                )
            } else {
                &&& spaces_view(final(spaces)@) == opened
                &&& placement is None
            }
        },
{
    if !can_attach(source_jigsaw, target_jigsaw, rotation) {
        return None;
    }
    let f = step(source_jigsaw.facing);
    let jigsaw_x = source_jigsaw.pos.0 + f.0;
    let jigsaw_y = source_jigsaw.pos.1 + f.1;
    let jigsaw_z = source_jigsaw.pos.2 + f.2;
    let source_local_y = source_jigsaw.pos.1 - source.bounding_box.min_y;
    let local = rotate_wide(rotation, target_jigsaw.pos.0, target_jigsaw.pos.2, 0, 0);
    let target_local_y = target_jigsaw.pos.1;
    let delta_y = source_local_y - target_local_y + f.1;
    let both_rigid = source.rigid && target_rigid;
    let (box_y, source_base) = if both_rigid {
        (source.bounding_box.min_y + delta_y, i32::MIN)
    } else {
        (base_height - target_local_y, base_height)
    };
    let raw_y = jigsaw_y - target_local_y;
    let origin = (
        (jigsaw_x as i64 - local.0) as i32,
        raw_y + (box_y - raw_y),
        (jigsaw_z as i64 - local.1) as i32,
    );
    let target_box = rotated_box(origin, size, rotation);
    let collision_box = expanded_collision_box(
        target_box,
        target_box,
        size,
        rotation,
        jigsaws,
        heights,
        use_expansion_hack,
    );
    let ghost before = spaces_view(old(spaces)@);
    let index = if source.collision_box.contains(jigsaw_x, jigsaw_y, jigsaw_z) {
        match *interior {
            Some(i) => i,
            None => {
                spaces.push(CollisionSpace { bounds: source.collision_box, occupied: Vec::new() });
                let i = spaces.len() - 1;
                *interior = Some(i);
                proof {
                    assert(spaces_view(spaces@) =~= before.push(
                        (source.collision_box, Seq::<BlockBox>::empty()),
                    ));
                }
                i
            },
        }
    } else {
        source.collision_space
    };
    let ghost opened = spaces_view(spaces@);
    proof {
        assert(opened[index as int] == space_view(spaces@[index as int]));
    }
    if !fits(&spaces[index], &collision_box) {
        return None;
    }
    let mut space = spaces.remove(index);
    space.occupied.push(collision_box);
    spaces.insert(index, space);
    proof {
        assert(spaces_view(spaces@) =~= opened.update(
            index as int,
            (opened[index as int].0, opened[index as int].1.push(collision_box)),
        ));
    }
    Some(
        AttachmentPlacement {
            target_box,
            target_collision_box: collision_box,
            target_pos: origin,
            target_rigid,
            delta_y,
            source_jigsaw_base_height: source_base,
            source_jigsaw_local_y: source_local_y,
            target_jigsaw_local_y: target_local_y,
            target_box_y: box_y,
            collision_space: index,
        },
    )
}

/// A junction between two joined pieces, as the piece that holds it sees it:
/// where the other piece's jigsaw stands, the ground height there, the
/// height difference towards it, and whether the other piece is rigid.
#[derive(Clone, Copy, Debug, PartialEq, Eq, Structural)]
pub struct JigsawJunction {
    pub source_x: i32,
    pub source_ground_y: i32,
    pub source_z: i32,
    pub delta_y: i32,
    pub rigid: bool,
}

/// The height at which two joined pieces meet: the source's frame for a
/// rigid source, the target's for a rigid target, and otherwise the terrain
/// height at the source jigsaw plus half the height difference, rounded
/// toward zero.
pub open spec fn junction_y_spec(source: SourceAttachment, placement: AttachmentPlacement) -> int {
    if source.rigid {
        source.bounding_box.min_y + placement.delta_y
    } else if placement.target_rigid {
        placement.target_box_y + placement.target_jigsaw_local_y
    } else {
        placement.source_jigsaw_base_height + crate::template_scan::div_toward_zero(
            placement.delta_y as int,
            2,
        )
    }
}

/// The ground level delta of an attached piece: a rigid piece carries the
/// source's, shifted by the height difference; a terrain-following one has 1.
pub open spec fn target_ground_delta_spec(placement: AttachmentPlacement, source_ground_level_delta: i32) -> int {
    if placement.target_rigid {
        source_ground_level_delta - placement.delta_y
    } else {
        1
    }
}

/// Whether the junction arithmetic stays in the `i32` range.
pub open spec fn junctions_ok(
    source: SourceAttachment,
    placement: AttachmentPlacement,
    source_ground_level_delta: i32,
) -> bool {
    let y = junction_y_spec(source, placement);
    let target_delta = target_ground_delta_spec(placement, source_ground_level_delta);
    &&& i32::MIN <= target_delta <= i32::MAX
    &&& i32::MIN <= y <= i32::MAX
    &&& i32::MIN <= y - placement.source_jigsaw_local_y <= i32::MAX
    &&& i32::MIN <= y - placement.source_jigsaw_local_y + source_ground_level_delta <= i32::MAX
    &&& i32::MIN <= y - placement.target_jigsaw_local_y <= i32::MAX
    &&& i32::MIN <= y - placement.target_jigsaw_local_y + target_delta <= i32::MAX
    &&& placement.delta_y > i32::MIN
}

/// The ground level delta of an attached piece and the junctions that the
/// source piece and the attached piece each record; `source_jigsaw` is in
/// world coordinates, and `target_jigsaw_pos` is the block in front of it.
pub fn attachment_junctions(
    source: SourceAttachment,
    source_rigid_projection: bool,
    source_jigsaw_pos: (i32, i32, i32),
    target_jigsaw_pos: (i32, i32, i32),
    placement: &AttachmentPlacement,
    source_ground_level_delta: i32,
) -> (result: (i32, JigsawJunction, JigsawJunction))
    requires
        junctions_ok(source, *placement, source_ground_level_delta),
    ensures
        ({
            let y = junction_y_spec(source, *placement);
            let target_delta = target_ground_delta_spec(*placement, source_ground_level_delta);
            &&& result.0 == target_delta
            &&& result.1 == (JigsawJunction {
                source_x: target_jigsaw_pos.0,
                source_ground_y: (y - placement.source_jigsaw_local_y + source_ground_level_delta) as i32,
                source_z: target_jigsaw_pos.2,
                delta_y: placement.delta_y,
                rigid: placement.target_rigid,
            })
            &&& result.2 == (JigsawJunction {
                source_x: source_jigsaw_pos.0,
                source_ground_y: (y - placement.target_jigsaw_local_y + target_delta) as i32,
                source_z: source_jigsaw_pos.2,
                delta_y: (-placement.delta_y) as i32,
                rigid: source_rigid_projection,
            })
        }),
{
    let target_delta = if placement.target_rigid {
        source_ground_level_delta - placement.delta_y
    } else {
        1
    };
    let junction_y = if source.rigid {
        source.bounding_box.min_y + placement.delta_y
    } else if placement.target_rigid {
        placement.target_box_y + placement.target_jigsaw_local_y
    } else {
        placement.source_jigsaw_base_height + placement.delta_y / 2
    };
    let at_source = JigsawJunction {
        source_x: target_jigsaw_pos.0,
        source_ground_y: junction_y - placement.source_jigsaw_local_y + source_ground_level_delta,
        source_z: target_jigsaw_pos.2,
        delta_y: placement.delta_y,
        rigid: placement.target_rigid,
    };
    let at_target = JigsawJunction {
        source_x: source_jigsaw_pos.0,
        source_ground_y: junction_y - placement.target_jigsaw_local_y + target_delta,
        source_z: source_jigsaw_pos.2,
        delta_y: -placement.delta_y,
        rigid: source_rigid_projection,
    };
    (target_delta, at_source, at_target)
}

} // verus!
