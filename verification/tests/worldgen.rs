use mc_loot_finder::catalog::{candidate_structure, candidate_structures, ScanKind, ScanSupport};
use mc_loot_finder::decoration_seed::container_loot_seed;
use mc_loot_finder::error::Error;
use mc_loot_finder::template_scan::{igloo_probe, igloo_scan, rotate_around_pivot, Rotation};
use mc_loot_finder::worldgen::{
    bastion_selected_first, buried_treasure_frequency_passes, buried_treasure_scan,
    chunk_random, chunk_random_seed, dedup_and_seed_chests, desert_pyramid_chests, desert_pyramid_origin,
    pyramid_above_sea, pyramid_floor,
    has_village_nearby, invalid_scan, pillager_frequency_passes, scan_kind_for,
    scanner_decoration, village_decoration, village_variants, Direction, RawChest,
};

#[test]
fn catalog_scan_support_matches_scanner_construction() {
    for structure in candidate_structures() {
        match structure.support {
            ScanSupport::CandidatesOnly => {
                assert!(!structure.supports_full_scan());
                let Err(error) = scan_kind_for(&structure) else {
                    panic!("{} unexpectedly constructed a full scanner", structure.name);
                };
                assert!(matches!(error, Error::Structure(_)));
                assert!(error.to_string().contains(structure.name));
            }
            ScanSupport::Full(kind) => {
                assert!(structure.supports_full_scan());
                let scanned = scan_kind_for(&structure)
                    .expect("full catalog entry must construct a scanner");
                assert_eq!(scanned, kind);
                assert!(
                    structure.decoration.is_some()
                        || matches!(kind, ScanKind::Village | ScanKind::Shipwreck),
                    "{} has no static decoration seed specification",
                    structure.name
                );
            }
        }
    }
}

#[test]
fn scanner_decoration_reports_missing_parameters() {
    let village = candidate_structure("village").unwrap();
    let error = scanner_decoration(&village).unwrap_err();
    assert!(matches!(error, Error::Worldgen(_)));
    assert_eq!(
        error.to_string(),
        "village scanner has no static decoration seed specification"
    );
    let city = candidate_structure("ancient_city").unwrap();
    assert_eq!(scanner_decoration(&city).unwrap(), city.decoration.unwrap());
}

#[test]
fn desert_pyramid_chests_match_known_26_1_2_pyramids() {
    let decoration = candidate_structure("desert_pyramid")
        .unwrap()
        .decoration
        .unwrap();
    let cases = [
        (
            (0, -188),
            Direction::North,
            70,
            [
                (10, 59, -2996, -5_568_029_752_813_165_272),
                (12, 59, -2998, 8_612_763_612_274_328_067),
                (10, 59, -3000, 410_913_108_922_281_890),
                (8, 59, -2998, -6_529_954_051_122_263_735),
            ],
        ),
        (
            (77, -213),
            Direction::West,
            71,
            [
                (1244, 60, -3398, 192_079_748_099_134_926),
                (1242, 60, -3396, -369_207_723_137_014_054),
                (1240, 60, -3398, 1_366_626_509_293_417_282),
                (1242, 60, -3400, 2_864_047_697_517_889_560),
            ],
        ),
        (
            (81, -254),
            Direction::East,
            63,
            [
                (1304, 52, -4054, 8_475_396_442_896_426_591),
                (1306, 52, -4052, -164_227_586_464_969_558),
                (1308, 52, -4054, -6_884_729_539_475_924_943),
                (1306, 52, -4056, 5_000_275_533_034_043_386),
            ],
        ),
    ];
    for ((chunk_x, chunk_z), facing, base_y, expected) in cases {
        let chests =
            desert_pyramid_chests(0, chunk_x, chunk_z, facing, base_y, decoration).unwrap();
        let actual: Vec<_> = chests
            .iter()
            .map(|chest| (chest.x, chest.y, chest.z, chest.loot_seed))
            .collect();
        assert_eq!(actual, expected.to_vec());
        for (ordinal, chest) in chests.iter().enumerate() {
            assert_eq!(chest.loot_table, "minecraft:chests/desert_pyramid");
            assert_eq!(chest.ordinal, ordinal as i32);
            assert_eq!((chest.structure_chunk_x, chest.structure_chunk_z), (chunk_x, chunk_z));
        }
    }
}

#[test]
fn desert_pyramid_rejects_overflowing_chunk() {
    let decoration = candidate_structure("desert_pyramid")
        .unwrap()
        .decoration
        .unwrap();
    let error = desert_pyramid_chests(0, i32::MAX, 0, Direction::North, 70, decoration).unwrap_err();
    assert!(matches!(error, Error::Worldgen(_)));
    assert_eq!(error.to_string(), "desert pyramid chunk x overflowed");
    let error = desert_pyramid_chests(0, 0, i32::MIN, Direction::North, 70, decoration).unwrap_err();
    assert_eq!(error.to_string(), "desert pyramid chunk z overflowed");
}

#[test]
fn igloo_scan_matches_known_26_1_2_igloos() {
    let decoration = candidate_structure("igloo").unwrap().decoration.unwrap();
    let cases = [
        ((98, 192), Rotation::Unrotated, (1569, 53, 3076), -7_862_992_963_971_781_551),
        ((238, -29), Rotation::Clockwise180, (3813, 57, -458), -3_865_222_752_920_655_871),
        ((-110, 246), Rotation::Clockwise180, (-1755, 50, 3942), 1_861_016_387_536_410_190),
    ];
    for ((chunk_x, chunk_z), rotation, (x, y, z), seed) in cases {
        let scan = igloo_scan(0, chunk_x, chunk_z, rotation, Some((5, y + 18)), decoration).unwrap();
        assert!(scan.valid_structure);
        assert_eq!(scan.chests.len(), 1);
        let chest = &scan.chests[0];
        assert_eq!((chest.x, chest.y, chest.z), (x, y, z));
        assert_eq!(chest.loot_seed, seed);
        assert_eq!(chest.loot_table, "minecraft:chests/igloo_chest");
        assert_eq!(chest.ordinal, 0);
    }
    let scan = igloo_scan(0, -12, 231, Rotation::Clockwise90, None, decoration).unwrap();
    assert!(scan.valid_structure);
    assert!(scan.chests.is_empty(), "igloo without basement must have no chests");
}

#[test]
fn igloo_probe_rotates_reference_point() {
    assert_eq!(igloo_probe(98, 192, Rotation::Unrotated).unwrap(), (1571, 3072));
    assert_eq!(igloo_probe(98, 192, Rotation::Clockwise90).unwrap(), (1576, 3077));
    assert_eq!(igloo_probe(98, 192, Rotation::Clockwise180).unwrap(), (1571, 3082));
    assert_eq!(igloo_probe(98, 192, Rotation::Counterclockwise90).unwrap(), (1566, 3077));
    let error = igloo_probe(i32::MAX, 0, Rotation::Unrotated).unwrap_err();
    assert_eq!(error.to_string(), "igloo chunk x overflowed");
    let error = igloo_probe(0, i32::MAX, Rotation::Unrotated).unwrap_err();
    assert_eq!(error.to_string(), "igloo chunk z overflowed");
}

#[test]
fn rotates_around_pivot() {
    assert_eq!(rotate_around_pivot(Rotation::Unrotated, 1, 6, 3, 7), (1, 6));
    assert_eq!(rotate_around_pivot(Rotation::Clockwise90, 1, 6, 3, 7), (4, 5));
    assert_eq!(rotate_around_pivot(Rotation::Clockwise180, 1, 6, 3, 7), (5, 8));
    assert_eq!(rotate_around_pivot(Rotation::Counterclockwise90, 1, 6, 3, 7), (2, 9));
    assert_eq!(rotate_around_pivot(Rotation::Clockwise90, 2, 5, 0, 0), (-5, 2));
}

#[test]
fn scans_known_26_1_2_buried_treasures() {
    assert!(
        buried_treasure_frequency_passes(0, 0, -22),
        "known treasure must pass legacy_type_2 frequency"
    );
    let decoration = candidate_structure("buried_treasure")
        .unwrap()
        .decoration
        .unwrap();
    let scan = buried_treasure_scan(0, 0, -22, Some(64), decoration).unwrap();
    assert!(scan.valid_structure);
    assert_eq!(scan.chests.len(), 1);
    let chest = &scan.chests[0];
    assert_eq!((chest.x, chest.y, chest.z), (9, 64, -343));
    assert_eq!(chest.loot_seed, -2_156_648_588_641_602_659);
    assert_eq!(chest.loot_table, "minecraft:chests/buried_treasure");
    assert_eq!(chest.ordinal, 0);

    let empty = buried_treasure_scan(0, 0, -22, None, decoration).unwrap();
    assert!(empty.valid_structure);
    assert!(empty.chests.is_empty());
    let error = buried_treasure_scan(0, i32::MAX, 0, Some(64), decoration).unwrap_err();
    assert_eq!(error.to_string(), "buried treasure chest x overflowed");
}

#[test]
fn pillager_outpost_filters_match_known_26_1_2_chunks() {
    assert!(pillager_frequency_passes(0, -51, 70));
    assert!(!has_village_nearby(0, -51, 70));
    assert!(
        !pillager_frequency_passes(0, 36, 103),
        "36,103 should be invalid for world scan due to frequency"
    );
}

#[test]
fn pillager_outpost_36_103_is_filtered_by_frequency() {
    // A world scan reports the chunk as no structure: the frequency check
    // fails before any generation.
    assert!(!pillager_frequency_passes(0, 36, 103));
    let scan = invalid_scan();
    assert!(
        !scan.valid_structure,
        "36,103 should be invalid for world scan due to frequency"
    );
    assert!(scan.chests.is_empty());
}

#[test]
fn pillager_check_is_shared_by_a_block_of_chunks() {
    for seed in [0_i64, 1, -7, 123_456_789] {
        for (x, z) in [(-51, 70), (36, 103), (0, 0), (-1, -1)] {
            let base_x = (x >> 4) << 4;
            let base_z = (z >> 4) << 4;
            assert_eq!(
                pillager_frequency_passes(seed, x, z),
                pillager_frequency_passes(seed, base_x + 15, base_z + 3)
            );
        }
    }
}

#[test]
fn village_nearby_finds_a_village_start() {
    // A village start is in range of itself.
    let village = candidate_structure("village").unwrap();
    let mut found = None;
    'outer: for x in 0..34 {
        for z in 0..34 {
            if mc_loot_finder::placement::is_placement_chunk(0, x, z, village.placement) {
                found = Some((x, z));
                break 'outer;
            }
        }
    }
    let (x, z) = found.expect("a village start within one region");
    assert!(has_village_nearby(0, x, z));
    assert!(has_village_nearby(0, x + 10, z - 10));
}

#[test]
fn one_chest_per_position_and_per_chunk_numbering() {
    let decoration = village_decoration(22);
    let raw = vec![
        RawChest { x: 1, y: 70, z: 1, loot_table: "minecraft:chests/a".to_owned() },
        RawChest { x: 2, y: 70, z: 2, loot_table: "minecraft:chests/b".to_owned() },
        RawChest { x: 1, y: 70, z: 1, loot_table: "minecraft:chests/c".to_owned() },
        RawChest { x: -1, y: 70, z: 1, loot_table: "minecraft:chests/d".to_owned() },
    ];
    let chests = dedup_and_seed_chests(0, raw, (0, 0), decoration).unwrap();
    assert_eq!(chests.len(), 3);
    // The later container at a position replaces the earlier one in place.
    assert_eq!(chests[0].loot_table, "minecraft:chests/c");
    assert_eq!(chests[0].ordinal, 2);
    assert_eq!(chests[1].loot_table, "minecraft:chests/b");
    assert_eq!(chests[1].ordinal, 1);
    // Block -1 lies in chunk -1, which numbers from zero again.
    assert_eq!(chests[2].ordinal, 0);
    assert_eq!(
        chests[2].loot_seed,
        container_loot_seed(0, -1, 0, decoration, 0).unwrap()
    );
    assert_eq!(
        chests[0].loot_seed,
        container_loot_seed(0, 0, 0, decoration, 2).unwrap()
    );
    for chest in &chests {
        assert_eq!((chest.structure_chunk_x, chest.structure_chunk_z), (0, 0));
    }
}

#[test]
fn village_variants_and_decoration() {
    let variants = village_variants();
    assert_eq!(
        variants,
        vec![
            ("minecraft:village_desert", 21),
            ("minecraft:village_plains", 22),
            ("minecraft:village_savanna", 23),
            ("minecraft:village_snowy", 24),
            ("minecraft:village_taiga", 25),
        ]
    );
    let decoration = village_decoration(23);
    assert_eq!(decoration.structure_index, 23);
    assert_eq!(decoration.step, 4);
    assert_eq!(decoration.ordinal_offset, 0);
}

#[test]
fn chunk_random_seed_matches_java() {
    // new Random(0): nextLong() = -4962768465676381896, then 4437113781045784766.
    assert_eq!(chunk_random_seed(0, 0, 0), 0);
    assert_eq!(chunk_random_seed(0, 1, 0), -4_962_768_465_676_381_896);
    assert_eq!(chunk_random_seed(0, 0, 1), 4_437_113_781_045_784_766);
    let mut random = chunk_random(0, 0, 0);
    assert_eq!(random.next_int(10), 0);
}

#[test]
fn bastion_choice_follows_first_draw() {
    for (x, z) in [(0, 0), (11, 14), (27, 10), (-62, 32)] {
        let mut random = chunk_random(0, x, z);
        assert_eq!(bastion_selected_first(0, x, z), random.next_int(5) >= 2);
    }
}

#[test]
fn invalid_scan_has_no_chests() {
    let scan = invalid_scan();
    assert!(!scan.valid_structure);
    assert!(scan.chests.is_empty());
}

#[test]
fn container_seed_recomputes_the_known_treasure_seed() {
    let decoration = candidate_structure("buried_treasure")
        .unwrap()
        .decoration
        .unwrap();
    assert_eq!(
        container_loot_seed(0, 0, -22, decoration, 0).unwrap(),
        -2_156_648_588_641_602_659
    );
}

#[test]
fn scan_kinds_name_their_structures_and_dimensions() {
    assert_eq!(ScanKind::AncientCity.identifier(), "minecraft:ancient_city");
    assert_eq!(ScanKind::Village.identifier(), "minecraft:village_plains");
    assert_eq!(ScanKind::Shipwreck.identifier(), "minecraft:shipwreck");
    for structure in candidate_structures() {
        if let ScanSupport::Full(kind) = structure.support {
            assert_eq!(kind.identifier(), structure.structure_id);
            let nether = structure.dimension == "minecraft:the_nether";
            assert_eq!(kind.min_y(), if nether { 0 } else { -64 });
            assert_eq!(kind.sea_level(), if nether { 32 } else { 63 });
        }
    }
}

#[test]
fn desert_pyramid_site_decisions() {
    assert_eq!(desert_pyramid_origin(3, -4).unwrap(), (48, -64));
    assert_eq!(
        desert_pyramid_origin(0x800_0000, 0).unwrap_err().to_string(),
        "desert pyramid chunk x overflowed"
    );
    assert_eq!(
        desert_pyramid_origin(0, -0x800_0001).unwrap_err().to_string(),
        "desert pyramid chunk z overflowed"
    );
    assert!(pyramid_above_sea([64, 70, 64, 80], 63));
    assert!(!pyramid_above_sea([64, 70, 63, 80], 63));
    assert!(!pyramid_above_sea([i32::MAX, 62, 90, 90], 63));
    assert_eq!(pyramid_floor(&vec![70, 66, 68, 71], 2), 64);
    assert_eq!(pyramid_floor(&vec![70], 0), 70);
}
