use mc_loot_finder::jigsaw::{
    attachment_junctions, boxes_intersect, can_attach, expanded_collision_box, fits,
    initial_collision_space, is_box_inside, rotate_direction, rotated_box, try_attach_piece,
    BlockBox, CollisionSpace, JigsawBlock, JointType, SourceAttachment,
};
use mc_loot_finder::template_scan::Rotation;
use mc_loot_finder::worldgen::Direction;

fn block_box(min: (i32, i32, i32), max: (i32, i32, i32)) -> BlockBox {
    BlockBox {
        min_x: min.0,
        min_y: min.1,
        min_z: min.2,
        max_x: max.0,
        max_y: max.1,
        max_z: max.2,
    }
}

fn jigsaw(pos: (i32, i32, i32), name: &str, target: &str, facing: Direction) -> JigsawBlock {
    JigsawBlock {
        pos,
        name: name.to_owned(),
        target: target.to_owned(),
        pool: "minecraft:empty".to_owned(),
        facing,
        up: Direction::Up,
        joint: JointType::Rollable,
    }
}

#[test]
fn touching_boxes_do_not_collide() {
    let a = block_box((0, 0, 0), (9, 9, 9));
    let touching = block_box((10, 0, 0), (19, 9, 9));
    let sharing = block_box((9, 9, 9), (19, 19, 19));
    assert!(!boxes_intersect(&a, &touching));
    assert!(!boxes_intersect(&touching, &a));
    assert!(boxes_intersect(&a, &sharing));
    assert!(boxes_intersect(&sharing, &a));
    assert!(a.contains(9, 9, 9));
    assert!(!a.contains(10, 9, 9));
    assert!(is_box_inside(&a, &block_box((1, 1, 1), (9, 9, 9))));
    assert!(!is_box_inside(&a, &block_box((1, 1, 1), (10, 9, 9))));
    assert!(is_box_inside(&a, &a));
}

#[test]
fn rotates_directions_and_boxes() {
    assert_eq!(rotate_direction(Direction::North, Rotation::Clockwise90), Direction::East);
    assert_eq!(rotate_direction(Direction::West, Rotation::Clockwise180), Direction::East);
    assert_eq!(rotate_direction(Direction::South, Rotation::Counterclockwise90), Direction::East);
    assert_eq!(rotate_direction(Direction::Up, Rotation::Clockwise90), Direction::Up);
    assert_eq!(
        rotated_box((0, 0, 0), (3, 2, 5), Rotation::Clockwise90),
        block_box((-4, 0, 0), (0, 1, 2))
    );
    assert_eq!(
        rotated_box((10, 64, 2), (5, 4, 5), Rotation::Unrotated),
        block_box((10, 64, 2), (14, 67, 6))
    );
    assert_eq!(
        rotated_box((0, 0, 0), (3, 2, 5), Rotation::Clockwise180),
        block_box((-2, 0, -4), (0, 1, 0))
    );
}

#[test]
fn first_collision_space_is_clipped_to_the_world() {
    let start = block_box((0, 64, 0), (9, 70, 9));
    let space = initial_collision_space(5, 64, 5, 80, -64, start);
    assert_eq!(space.bounds, block_box((-75, -16, -75), (85, 145, 85)));
    assert_eq!(space.occupied, vec![start]);
    let deep = initial_collision_space(0, -60, 0, 80, -64, start);
    assert_eq!(deep.bounds.min_y, -64);
    let high = initial_collision_space(0, 250, 0, 80, -64, start);
    assert_eq!(high.bounds.max_y, 256);
    assert!(fits(&space, &block_box((10, 64, 0), (12, 66, 2))));
    assert!(!fits(&space, &block_box((9, 64, 0), (12, 66, 2))));
    assert!(!fits(&space, &block_box((80, 64, 0), (90, 66, 2))));
}

#[test]
fn jigsaws_attach_when_they_face_each_other() {
    let source = jigsaw((9, 65, 4), "minecraft:a", "minecraft:b", Direction::East);
    let target = jigsaw((0, 1, 2), "minecraft:b", "minecraft:a", Direction::West);
    assert!(can_attach(&source, &target, Rotation::Unrotated));
    assert!(!can_attach(&source, &target, Rotation::Clockwise90));
    let turned = jigsaw((0, 1, 2), "minecraft:b", "minecraft:a", Direction::South);
    assert!(can_attach(&source, &turned, Rotation::Clockwise90));
    let wrong_name = jigsaw((0, 1, 2), "minecraft:c", "minecraft:a", Direction::West);
    assert!(!can_attach(&source, &wrong_name, Rotation::Unrotated));
    let mut aligned = jigsaw((9, 65, 4), "minecraft:a", "minecraft:b", Direction::East);
    aligned.joint = JointType::Aligned;
    aligned.up = Direction::North;
    let mut up_east = jigsaw((0, 1, 2), "minecraft:b", "minecraft:a", Direction::West);
    up_east.up = Direction::East;
    assert!(!can_attach(&aligned, &up_east, Rotation::Unrotated));
    up_east.up = Direction::North;
    assert!(can_attach(&aligned, &up_east, Rotation::Unrotated));
}

#[test]
fn expansion_reserves_room_for_inward_children() {
    let target_box = block_box((0, 64, 0), (4, 67, 4));
    let inward = vec![jigsaw((2, 3, 2), "minecraft:x", "minecraft:y", Direction::Down)];
    let outward = vec![jigsaw((2, 3, 2), "minecraft:x", "minecraft:y", Direction::Up)];
    let heights = vec![10];
    let expanded = expanded_collision_box(
        target_box,
        target_box,
        (5, 4, 5),
        Rotation::Unrotated,
        &inward,
        &heights,
        true,
    );
    assert_eq!(expanded, block_box((0, 64, 0), (4, 75, 4)));
    let kept = expanded_collision_box(
        target_box,
        target_box,
        (5, 4, 5),
        Rotation::Unrotated,
        &outward,
        &heights,
        true,
    );
    assert_eq!(kept, target_box);
    let off = expanded_collision_box(
        target_box,
        target_box,
        (5, 4, 5),
        Rotation::Unrotated,
        &inward,
        &heights,
        false,
    );
    assert_eq!(off, target_box);
}

#[test]
fn attaches_a_piece_into_the_right_collision_space() {
    let source_box = block_box((0, 64, 0), (9, 70, 9));
    let source = SourceAttachment {
        piece_idx: 0,
        depth: 0,
        collision_space: 0,
        bounding_box: source_box,
        collision_box: source_box,
        rigid: true,
    };
    let source_jigsaw = jigsaw((9, 65, 4), "minecraft:a", "minecraft:b", Direction::East);
    let target_jigsaw = jigsaw((0, 1, 2), "minecraft:b", "minecraft:a", Direction::West);
    let jigsaws = vec![jigsaw((0, 1, 2), "minecraft:b", "minecraft:a", Direction::West)];
    let heights = vec![0];
    let mut spaces: Vec<CollisionSpace> = vec![initial_collision_space(5, 64, 5, 80, -64, source_box)];
    let mut interior = None;
    let placement = try_attach_piece(
        source,
        &source_jigsaw,
        (5, 4, 5),
        Rotation::Unrotated,
        true,
        &target_jigsaw,
        &jigsaws,
        &heights,
        70,
        false,
        &mut interior,
        &mut spaces,
    )
    .expect("the piece fits");
    assert_eq!(placement.target_box, block_box((10, 64, 2), (14, 67, 6)));
    assert_eq!(placement.target_collision_box, placement.target_box);
    assert_eq!(placement.target_pos, (10, 64, 2));
    assert_eq!(placement.delta_y, 0);
    assert_eq!(placement.source_jigsaw_base_height, i32::MIN);
    assert_eq!(placement.source_jigsaw_local_y, 1);
    assert_eq!(placement.target_jigsaw_local_y, 1);
    assert_eq!(placement.target_box_y, 64);
    assert_eq!(placement.collision_space, 0);
    assert_eq!(interior, None);
    assert_eq!(spaces[0].occupied, vec![source_box, placement.target_box]);

    // The same place is now taken.
    assert!(try_attach_piece(
        source,
        &source_jigsaw,
        (5, 4, 5),
        Rotation::Unrotated,
        true,
        &target_jigsaw,
        &jigsaws,
        &heights,
        70,
        false,
        &mut interior,
        &mut spaces,
    )
    .is_none());
    assert_eq!(spaces.len(), 1);

    // A terrain-following piece sits on the terrain height.
    let mut spaces: Vec<CollisionSpace> = vec![initial_collision_space(5, 64, 5, 80, -64, source_box)];
    let follows = try_attach_piece(
        source,
        &source_jigsaw,
        (5, 4, 5),
        Rotation::Unrotated,
        false,
        &target_jigsaw,
        &jigsaws,
        &heights,
        70,
        false,
        &mut interior,
        &mut spaces,
    )
    .unwrap();
    assert_eq!(follows.target_box_y, 69);
    assert_eq!(follows.source_jigsaw_base_height, 70);
    assert_eq!(follows.target_box, block_box((10, 69, 2), (14, 72, 6)));

    // A jigsaw inside the source's collision box opens its interior space.
    let wide = SourceAttachment {
        collision_box: block_box((0, 64, 0), (20, 80, 20)),
        ..source
    };
    let mut spaces: Vec<CollisionSpace> = vec![initial_collision_space(5, 64, 5, 80, -64, source_box)];
    let mut interior = None;
    let inside = try_attach_piece(
        wide,
        &source_jigsaw,
        (5, 4, 5),
        Rotation::Unrotated,
        true,
        &target_jigsaw,
        &jigsaws,
        &heights,
        70,
        false,
        &mut interior,
        &mut spaces,
    )
    .unwrap();
    assert_eq!(inside.collision_space, 1);
    assert_eq!(interior, Some(1));
    assert_eq!(spaces.len(), 2);
    assert_eq!(spaces[1].bounds, wide.collision_box);
    assert_eq!(spaces[1].occupied, vec![inside.target_collision_box]);

    // Jigsaws that cannot join change nothing.
    let stranger = jigsaw((0, 1, 2), "minecraft:c", "minecraft:a", Direction::West);
    assert!(try_attach_piece(
        wide,
        &source_jigsaw,
        (5, 4, 5),
        Rotation::Unrotated,
        true,
        &stranger,
        &jigsaws,
        &heights,
        70,
        false,
        &mut interior,
        &mut spaces,
    )
    .is_none());
    assert_eq!(spaces.len(), 2);
    assert_eq!(interior, Some(1));
}

#[test]
fn junctions_record_both_sides() {
    let source_box = block_box((0, 64, 0), (9, 70, 9));
    let source = SourceAttachment {
        piece_idx: 0,
        depth: 0,
        collision_space: 0,
        bounding_box: source_box,
        collision_box: source_box,
        rigid: false,
    };
    let mut spaces: Vec<CollisionSpace> = vec![initial_collision_space(5, 64, 5, 80, -64, source_box)];
    let mut interior = None;
    let source_jigsaw = jigsaw((9, 65, 4), "minecraft:a", "minecraft:b", Direction::East);
    let target_jigsaw = jigsaw((0, 1, 2), "minecraft:b", "minecraft:a", Direction::West);
    let jigsaws = vec![jigsaw((0, 1, 2), "minecraft:b", "minecraft:a", Direction::West)];
    let placement = try_attach_piece(
        source,
        &source_jigsaw,
        (5, 4, 5),
        Rotation::Unrotated,
        false,
        &target_jigsaw,
        &jigsaws,
        &vec![0],
        67,
        false,
        &mut interior,
        &mut spaces,
    )
    .unwrap();
    assert_eq!(placement.delta_y, 0);
    let (target_delta, at_source, at_target) =
        attachment_junctions(source, false, (9, 65, 4), (10, 65, 4), &placement, 1);
    // Neither piece is rigid: they meet at the terrain height.
    assert_eq!(target_delta, 1);
    assert_eq!((at_source.source_x, at_source.source_z), (10, 4));
    assert_eq!(at_source.source_ground_y, 67 - 1 + 1);
    assert_eq!((at_target.source_x, at_target.source_z), (9, 4));
    assert_eq!(at_target.source_ground_y, 67 - 1 + 1);
    assert_eq!(at_target.delta_y, 0);
    assert!(!at_source.rigid);
}

#[test]
fn attaches_and_expands_pieces_of_any_size() {
    let source_box = block_box((0, 64, 0), (9, 70, 9));
    let source = SourceAttachment {
        piece_idx: 0,
        depth: 0,
        collision_space: 0,
        bounding_box: source_box,
        collision_box: source_box,
        rigid: true,
    };
    let source_jigsaw = jigsaw((9, 65, 4), "minecraft:a", "minecraft:b", Direction::East);
    let target_jigsaw = jigsaw((0, 1, 0x3000), "minecraft:b", "minecraft:a", Direction::West);
    let jigsaws = vec![jigsaw((0, 1, 0x3000), "minecraft:b", "minecraft:a", Direction::West)];
    let heights = vec![0];
    let mut spaces: Vec<CollisionSpace> =
        vec![initial_collision_space(5, 64, 5, 20_000, -64, source_box)];
    let mut interior = None;
    let placement = try_attach_piece(
        source,
        &source_jigsaw,
        (5, 4, 0x3001),
        Rotation::Unrotated,
        true,
        &target_jigsaw,
        &jigsaws,
        &heights,
        70,
        false,
        &mut interior,
        &mut spaces,
    )
    .expect("the piece fits");
    assert_eq!(placement.target_box, block_box((10, 64, -0x3000 + 4), (14, 67, 4)));
    assert_eq!(placement.target_pos, (10, 64, -0x3000 + 4));
    assert_eq!(placement.target_box_y, 64);

    let target_box = block_box((0, 64, 0), (0x2_0000, 67, 4));
    let inward = vec![jigsaw((0x2_0000, 3, 2), "minecraft:x", "minecraft:y", Direction::Down)];
    let expanded = expanded_collision_box(
        target_box,
        target_box,
        (0x2_0001, 4, 5),
        Rotation::Unrotated,
        &inward,
        &vec![i32::MAX - 100],
        true,
    );
    assert_eq!(expanded, block_box((0, 64, 0), (0x2_0000, i32::MAX - 35, 4)));
}
