use mc_loot_finder::catalog::{
    candidate_structure, candidate_structures, ContainerSeedShortcut, DecorationSeedSpec, Placement,
    ScanKind, ScanSupport, SpreadType,
};
use mc_loot_finder::commands::shown_count;
use mc_loot_finder::template_data::get_template_container_data;
use mc_loot_finder::template_scan::{igloo_scan, Rotation};
use mc_loot_finder::worldgen::{buried_treasure_scan, desert_pyramid_chests, Chest, Direction};
use mc_loot_finder::decoration_seed::container_loot_seed;
use mc_loot_finder::output::grouped;
use mc_loot_finder::placement::{is_placement_chunk, locate};
use mc_loot_finder::surface_jigsaw::PriorityQueue;
use mc_loot_finder::xoroshiro::Xoroshiro128PlusPlus;

fn city_placement() -> Placement {
    Placement {
        spacing: 24,
        separation: 8,
        salt: 20_083_232,
        spread: SpreadType::Linear,
    }
}

#[test]
fn located_candidates_come_nearest_first() {
    for (seed, x, z) in [(0_i64, 0, 0), (114_514, 1_000, -3_000), (-5, -20_000, 7)] {
        let candidates = locate(seed, x, z, 4_000, city_placement()).unwrap();
        assert!(!candidates.is_empty());
        for pair in candidates.windows(2) {
            assert!(pair[0].squared_distance <= pair[1].squared_distance);
        }
    }
}

#[test]
fn located_candidates_are_placement_chunks() {
    for placement in [
        city_placement(),
        Placement {
            spacing: 34,
            separation: 8,
            salt: 10_387_312,
            spread: SpreadType::Linear,
        },
        Placement {
            spacing: 80,
            separation: 20,
            salt: 10_387_313,
            spread: SpreadType::Triangular,
        },
    ] {
        let candidates = locate(0, 0, 0, 3_000, placement).unwrap();
        for candidate in candidates {
            assert!(is_placement_chunk(0, candidate.chunk_x, candidate.chunk_z, placement));
            assert!(!is_placement_chunk(0, candidate.chunk_x + 1, candidate.chunk_z, placement));
        }
    }
}

#[test]
fn grouped_numbers_are_decimal_without_commas() {
    for value in [0_i64, 7, -7, 999, 1_000, -1_000, 123_456_789, i64::MAX, i64::MIN] {
        assert_eq!(grouped(value).replace(',', ""), value.to_string());
    }
}

#[test]
fn ordinal_offset_shifts_the_ordinal() {
    let with_offset = DecorationSeedSpec {
        structure_index: 3,
        step: 4,
        ordinal_offset: 1,
        shortcut: ContainerSeedShortcut::Direct,
    };
    let without = DecorationSeedSpec {
        ordinal_offset: 0,
        ..with_offset
    };
    for (x, z, ordinal) in [(98, 192, 0), (-12, 231, 2), (0, 0, 5)] {
        assert_eq!(
            container_loot_seed(0, x, z, with_offset, ordinal).unwrap(),
            container_loot_seed(0, x, z, without, ordinal + 1).unwrap()
        );
    }
}

#[test]
fn namespace_is_optional_in_structure_names() {
    for name in ["igloo", "ancient_city", "desert_pyramid", "village"] {
        let bare = candidate_structure(name).unwrap();
        let full = candidate_structure(&format!("minecraft:{name}")).unwrap();
        assert_eq!(bare.name, full.name);
        assert_eq!(bare.structure_id, full.structure_id);
    }
    assert!(candidate_structure("minecraft:not_a_structure").is_err());
}

#[test]
fn seeded_xoroshiro_is_never_stuck_at_zero() {
    for seed in [0_i64, 1, -1, i64::MIN, i64::MAX, 0x6A09_E667_F3BC_C909] {
        let mut random = Xoroshiro128PlusPlus::new(seed);
        let draws: Vec<u64> = (0..4).map(|_| random.next_long()).collect();
        assert!(draws.iter().any(|&d| d != 0));
    }
}

#[test]
fn priority_queue_pops_highest_priority_first_in_order() {
    let mut queue = PriorityQueue::new();
    assert!(queue.is_empty());
    assert_eq!(queue.pop(), None);
    queue.add(0, 10);
    queue.add(5, 11);
    queue.add(5, 12);
    queue.add(-3, 13);
    queue.add(7, 14);
    assert!(!queue.is_empty());
    let order: Vec<usize> = std::iter::from_fn(|| queue.pop()).collect();
    assert_eq!(order, vec![14, 11, 12, 10, 13]);
    assert!(queue.is_empty());
}

#[test]
fn full_scans_carry_decoration_but_villages_and_shipwrecks() {
    for structure in candidate_structures() {
        if let ScanSupport::Full(kind) = structure.support {
            let variant_seeded = matches!(kind, ScanKind::Village | ScanKind::Shipwreck);
            assert_eq!(structure.decoration.is_some(), !variant_seeded, "{}", structure.name);
        }
    }
}

#[test]
fn template_data_agrees_with_its_templates() {
    for name in [
        "ancient_city/structures/barracks",
        "bastion/bridge/ramparts/rampart_1",
        "shipwreck/with_mast",
        "village/desert/houses/desert_temple_1",
        "woodland_mansion/2x2_b5",
    ] {
        let data = get_template_container_data(name).unwrap();
        let namespaced = get_template_container_data(&format!("minecraft:{name}")).unwrap();
        assert_eq!(data.size, namespaced.size);
        assert_eq!(data.chests.len(), namespaced.chests.len());
        let inside = |x: i32, y: i32, z: i32| {
            (0..data.size[0]).contains(&x) && (0..data.size[1]).contains(&y) && (0..data.size[2]).contains(&z)
        };
        for chest in data.chests {
            assert!(inside(chest.x, chest.y, chest.z), "{name}");
            assert!(data
                .randomizable_containers
                .iter()
                .any(|c| (c.x, c.y, c.z) == (chest.x, chest.y, chest.z)));
        }
        for marker in data.markers {
            assert!(inside(marker.x, marker.y, marker.z), "{name}");
        }
        for container in data.randomizable_containers {
            assert!(inside(container.x, container.y, container.z), "{name}");
        }
    }
}

fn seeded_by_own_chunk(chest: &Chest, world_seed: i64, decoration: DecorationSeedSpec) -> bool {
    container_loot_seed(
        world_seed,
        chest.x.div_euclid(16),
        chest.z.div_euclid(16),
        decoration,
        chest.ordinal,
    )
    .unwrap()
        == chest.loot_seed
}

#[test]
fn single_piece_chests_are_seeded_by_their_own_chunk() {
    let pyramid = candidate_structure("desert_pyramid").unwrap().decoration.unwrap();
    for facing in [Direction::North, Direction::East, Direction::South, Direction::West] {
        for chest in desert_pyramid_chests(7, -3, 12, facing, 70, pyramid).unwrap() {
            assert!(seeded_by_own_chunk(&chest, 7, pyramid));
        }
    }
    let igloo = candidate_structure("igloo").unwrap().decoration.unwrap();
    for rotation in [
        Rotation::Unrotated,
        Rotation::Clockwise90,
        Rotation::Clockwise180,
        Rotation::Counterclockwise90,
    ] {
        let scan = igloo_scan(7, -5, 9, rotation, Some((4, 80)), igloo).unwrap();
        assert_eq!(scan.chests.len(), 1);
        assert!(seeded_by_own_chunk(&scan.chests[0], 7, igloo));
    }
    let treasure = candidate_structure("buried_treasure").unwrap().decoration.unwrap();
    let scan = buried_treasure_scan(7, -1, -1, Some(40), treasure).unwrap();
    assert!(seeded_by_own_chunk(&scan.chests[0], 7, treasure));
}

#[test]
fn a_limit_only_caps_what_is_shown() {
    assert_eq!(shown_count(537, None, 20), 20);
    assert_eq!(shown_count(537, Some(5), 20), 5);
    assert_eq!(shown_count(3, Some(5), 20), 3);
    assert_eq!(shown_count(3, None, 100), 3);
    assert_eq!(shown_count(0, Some(0), 20), 0);
}
