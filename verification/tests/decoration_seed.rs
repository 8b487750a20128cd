use mc_loot_finder::catalog::{ContainerSeedShortcut, DecorationSeedSpec};
use mc_loot_finder::decoration_seed::container_loot_seed;
use mc_loot_finder::error::Error;

#[test]
fn matches_known_ancient_city_seed() {
    assert_eq!(
        container_loot_seed(
            0,
            0,
            0,
            DecorationSeedSpec {
                structure_index: 0,
                step: 7,
                ordinal_offset: 0,
                shortcut: ContainerSeedShortcut::Direct,
            },
            0,
        )
        .unwrap(),
        6_384_546_642_282_394_621
    );
}

#[test]
fn matches_known_desert_pyramid_seed() {
    assert_eq!(
        container_loot_seed(
            0,
            -188,
            0,
            DecorationSeedSpec {
                structure_index: 1,
                step: 4,
                ordinal_offset: 0,
                shortcut: ContainerSeedShortcut::DesertPyramid,
            },
            2,
        )
        .unwrap(),
        3_899_282_274_470_656_331
    );
}

#[test]
fn applies_igloo_template_ordinal_offset() {
    assert_eq!(
        container_loot_seed(
            0,
            98,
            192,
            DecorationSeedSpec {
                structure_index: 3,
                step: 4,
                ordinal_offset: 1,
                shortcut: ContainerSeedShortcut::Direct,
            },
            0,
        )
        .unwrap(),
        -7_862_992_963_971_781_551
    );
}

#[test]
fn unavailable_shortcut_requires_structure_placement() {
    let error = container_loot_seed(
        0,
        14,
        8,
        DecorationSeedSpec {
            structure_index: 18,
            step: 4,
            ordinal_offset: 0,
            shortcut: ContainerSeedShortcut::Unavailable,
        },
        0,
    )
    .expect_err("shipwreck seed must require exact template placement");
    assert!(matches!(error, Error::Usage(_)));
}

#[test]
fn matches_known_pillager_outpost_seed() {
    assert_eq!(
        container_loot_seed(
            0,
            -52,
            69,
            DecorationSeedSpec {
                structure_index: 4,
                step: 9,
                ordinal_offset: 0,
                shortcut: ContainerSeedShortcut::Direct,
            },
            1,
        )
        .unwrap(),
        -638_836_315_418_230_144
    );
}
