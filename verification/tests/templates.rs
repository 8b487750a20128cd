use mc_loot_finder::catalog::shipwreck_decoration;
use mc_loot_finder::decoration_seed::DecorationRandom;
use mc_loot_finder::template_data::get_template_container_data;
use mc_loot_finder::template_scan::{
    decoration_chunk, shipwreck_chests, shipwreck_first_chunk, shipwreck_origin, shipwreck_target_y,
    place_template_chests, shipwreck_templates, template_chests_fit, RandomPrefix,
    Rotation, TemplatePlacement,
};
use mc_loot_finder::worldgen::shipwreck_marker_loot_table;

fn chest_vectors(
    placement: &TemplatePlacement,
    structure_chunk: (i32, i32),
    is_beached: bool,
) -> Vec<((i32, i32, i32), String, i64, i32)> {
    let prefix = if is_beached {
        Some(RandomPrefix {
            chunk: placement.first_intersecting_chunk(),
            next_int_bound: 3,
        })
    } else {
        None
    };
    placement
        .collect_chests(0, structure_chunk, shipwreck_decoration(is_beached), prefix)
        .into_iter()
        .map(|chest| {
            assert_eq!(
                (chest.structure_chunk_x, chest.structure_chunk_z),
                structure_chunk
            );
            ((chest.x, chest.y, chest.z), chest.loot_table, chest.loot_seed, chest.ordinal)
        })
        .collect()
}

#[test]
fn shipwreck_chests_match_known_26_1_2_wrecks() {
    // The beached wreck at chunk (14, 8) draws nextInt(3) in its first
    // decoration chunk before its containers; the ocean wreck does not.
    let beached = TemplatePlacement {
        template: get_template_container_data("shipwreck/sideways_full").unwrap(),
        origin: (224, 58, 128),
        rotation: Rotation::Clockwise90,
        pivot: (4, 0, 15),
    };
    assert_eq!(
        chest_vectors(&beached, (14, 8), true),
        vec![
            (
                (219, 60, 142),
                "minecraft:chests/shipwreck_treasure".to_owned(),
                -756_378_412_031_281_064,
                0
            ),
            (
                (235, 61, 144),
                "minecraft:chests/shipwreck_supply".to_owned(),
                -3_774_492_170_699_737_302,
                0
            ),
            (
                (224, 61, 145),
                "minecraft:chests/shipwreck_map".to_owned(),
                -2_986_182_992_758_690_057,
                1
            ),
        ]
    );
    let ocean = TemplatePlacement {
        template: get_template_container_data("shipwreck/sideways_fronthalf").unwrap(),
        origin: (-336, 75, -528),
        rotation: Rotation::Clockwise180,
        pivot: (4, 0, 15),
    };
    assert_eq!(
        chest_vectors(&ocean, (-21, -33), false),
        vec![(
            (-333, 78, -506),
            "minecraft:chests/shipwreck_supply".to_owned(),
            2_255_373_725_908_006_481,
            0
        )]
    );
}

#[test]
fn template_lookup_knows_the_embedded_templates() {
    let barracks = get_template_container_data("ancient_city/structures/barracks").unwrap();
    assert_eq!(barracks.size, [21, 12, 17]);
    assert_eq!(barracks.chests.len(), 2);
    assert_eq!(barracks.chests[0].loot_table, "minecraft:chests/ancient_city");
    let wreck = get_template_container_data("shipwreck/with_mast").unwrap();
    assert_eq!(wreck.markers.len(), 3);
    assert_eq!(wreck.markers[1].metadata, "map_chest");
    assert_eq!(wreck.randomizable_containers.len(), 3);
    assert!(get_template_container_data("shipwreck/not_a_template").is_none());
    assert!(get_template_container_data("").is_none());
}

#[test]
fn placement_positions_and_bounds() {
    let placement = TemplatePlacement {
        template: get_template_container_data("shipwreck/sideways_full").unwrap(),
        origin: (224, 58, 128),
        rotation: Rotation::Clockwise90,
        pivot: (4, 0, 15),
    };
    // Clockwise around (4, 15): (x, z) -> (19 - z, 11 + x).
    assert_eq!(placement.world_position(0, 0, 0), (243, 58, 139));
    assert_eq!(placement.world_position(8, 2, 27), (216, 60, 147));
    assert_eq!(placement.horizontal_bounds(), (216, 243, 139, 147));
    assert_eq!(placement.first_intersecting_chunk(), (13, 8));
    assert_eq!(decoration_chunk((-1, 70, -17)), (-1, -2));
    assert_eq!(decoration_chunk((16, 0, 15)), (1, 0));
}

#[test]
fn shipwreck_marker_tables() {
    assert_eq!(
        shipwreck_marker_loot_table("map_chest"),
        Some("minecraft:chests/shipwreck_map")
    );
    assert_eq!(
        shipwreck_marker_loot_table("supply_chest"),
        Some("minecraft:chests/shipwreck_supply")
    );
    assert_eq!(
        shipwreck_marker_loot_table("treasure_chest"),
        Some("minecraft:chests/shipwreck_treasure")
    );
    assert_eq!(shipwreck_marker_loot_table("fish"), None);
}

#[test]
fn shipwreck_target_heights() {
    let heights = vec![64, 61, 70, 62, -3, 66];
    // An ocean wreck takes the mean height, rounded toward zero.
    let decoration = shipwreck_decoration(false);
    assert_eq!(shipwreck_target_y(&heights, 9, false, 0, (0, 0), decoration), 53);
    let negative = vec![-5, -6];
    assert_eq!(shipwreck_target_y(&negative, 9, false, 0, (0, 0), decoration), -5);
    // A beached wreck sinks to the lowest height, less half its height and a
    // draw of nextInt(3) from the first chunk's feature random.
    let decoration = shipwreck_decoration(true);
    for first_chunk in [(13, 8), (0, 0), (-22, -34)] {
        let mut random = DecorationRandom::for_feature(0, first_chunk.0, first_chunk.1, decoration);
        let draw = random.next_int(3);
        assert_eq!(
            shipwreck_target_y(&heights, 9, true, 0, first_chunk, decoration),
            -3 - 4 - draw
        );
    }
}

#[test]
fn shipwreck_chests_place_known_26_1_2_wrecks() {
    let beached = shipwreck_templates(true);
    let ocean = shipwreck_templates(false);
    assert_eq!(beached.len(), 11);
    assert_eq!(ocean.len(), 20);
    assert_eq!(beached[1], "shipwreck/sideways_full");
    assert_eq!(ocean[5], "shipwreck/sideways_fronthalf");
    for name in beached.iter().chain(ocean.iter()) {
        assert!(get_template_container_data(name).is_some(), "{name}");
    }
    let template = get_template_container_data(beached[1]).unwrap();
    let chests = shipwreck_chests(0, 14, 8, template, Rotation::Clockwise90, 58, true).unwrap();
    let vectors: Vec<_> = chests
        .iter()
        .map(|c| ((c.x, c.y, c.z), c.loot_table.as_str(), c.loot_seed, c.ordinal))
        .collect();
    assert_eq!(
        vectors,
        vec![
            ((219, 60, 142), "minecraft:chests/shipwreck_treasure", -756_378_412_031_281_064, 0),
            ((235, 61, 144), "minecraft:chests/shipwreck_supply", -3_774_492_170_699_737_302, 0),
            ((224, 61, 145), "minecraft:chests/shipwreck_map", -2_986_182_992_758_690_057, 1),
        ]
    );
    let template = get_template_container_data(ocean[5]).unwrap();
    let chests = shipwreck_chests(0, -21, -33, template, Rotation::Clockwise180, 75, false).unwrap();
    assert_eq!(chests.len(), 1);
    assert_eq!((chests[0].x, chests[0].y, chests[0].z), (-333, 78, -506));
    assert_eq!(chests[0].loot_seed, 2_255_373_725_908_006_481);
    let error = shipwreck_chests(0, i32::MAX, 0, template, Rotation::Unrotated, 64, false).unwrap_err();
    assert_eq!(error.to_string(), "shipwreck chunk x overflowed");
    let error = shipwreck_chests(0, 0, -0x800_0001, template, Rotation::Unrotated, 64, false).unwrap_err();
    assert_eq!(error.to_string(), "shipwreck chunk z overflowed");
}

#[test]
fn shipwreck_origin_keeps_room_for_the_template() {
    assert_eq!(shipwreck_origin(-21, 14).unwrap(), (-336, 224));
    assert_eq!(shipwreck_origin(0x7FF_FFFD, 0).unwrap(), (0x7FFF_FFD0, 0));
    assert_eq!(
        shipwreck_origin(0x7FF_FFFE, 0).unwrap_err().to_string(),
        "shipwreck template coordinates overflowed"
    );
    assert_eq!(
        shipwreck_origin(0, -0x800_0000).unwrap_err().to_string(),
        "shipwreck template coordinates overflowed"
    );
    assert_eq!(
        shipwreck_origin(0x800_0000, 0).unwrap_err().to_string(),
        "shipwreck chunk x overflowed"
    );
    let template = get_template_container_data("shipwreck/sideways_full").unwrap();
    assert_eq!(
        shipwreck_first_chunk(0x7FF_FC00, 0, template, Rotation::Unrotated).unwrap(),
        (0x7FF_FC00, 0)
    );
    assert_eq!(
        shipwreck_first_chunk(0x7FF_FFFE, 0, template, Rotation::Unrotated)
            .unwrap_err()
            .to_string(),
        "shipwreck template coordinates overflowed"
    );
}

#[test]
fn template_chests_turn_about_the_template_origin() {
    let barracks = get_template_container_data("ancient_city/structures/barracks").unwrap();
    let mut raw = Vec::new();
    assert!(template_chests_fit(&barracks, (100, 10, -50), Rotation::Clockwise90));
    place_template_chests(&barracks, (100, 10, -50), Rotation::Clockwise90, &mut raw);
    let placed: Vec<_> = raw.iter().map(|c| (c.x, c.y, c.z, c.loot_table.as_str())).collect();
    assert_eq!(
        placed,
        vec![
            (85, 14, -46, "minecraft:chests/ancient_city"),
            (85, 14, -38, "minecraft:chests/ancient_city"),
        ]
    );
    place_template_chests(&barracks, (0, 0, 0), Rotation::Unrotated, &mut raw);
    assert_eq!(raw.len(), 4);
    assert_eq!((raw[2].x, raw[2].y, raw[2].z), (4, 4, 15));
    assert_eq!((raw[0].x, raw[0].z), (85, -46));
    assert!(!template_chests_fit(&barracks, (i32::MAX - 5, 0, 0), Rotation::Unrotated));
    assert!(template_chests_fit(&barracks, (i32::MAX - 12, 0, 0), Rotation::Unrotated));
}
