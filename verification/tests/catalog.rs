use mc_loot_finder::catalog::{
    candidate_structure, candidate_structures, village_placement, ContainerSeedShortcut,
    ScannerBackend, ScanSupport, SpreadType,
};
use mc_loot_finder::commands::{
    container_seed_decoration, full_scan_names, is_supported_loot_table, require_loot_table,
};
use mc_loot_finder::error::Error;
use mc_loot_finder::rust_core;

#[test]
fn looks_up_structures_by_name_or_path() {
    let fortress = candidate_structure("fortress").unwrap();
    assert_eq!(fortress.name, "nether_fortress");
    let city = candidate_structure("minecraft:ancient_city").unwrap();
    assert_eq!(city.placement.spacing, 24);
    assert_eq!(city.placement.separation, 8);
    assert_eq!(city.placement.salt, 20_083_232);
    assert_eq!(city.placement.spread, SpreadType::Linear);
    assert!(city.supports_full_scan());
}

#[test]
fn unknown_structure_lists_the_catalog() {
    let error = candidate_structure("castle").unwrap_err();
    assert!(matches!(error, Error::Structure(_)));
    let names: Vec<&str> = candidate_structures().iter().map(|s| s.name).collect();
    assert_eq!(
        error.to_string(),
        format!("unsupported structure: castle; supported: {}", names.join(", "))
    );
}

#[test]
fn lists_fully_scanned_structures() {
    assert_eq!(
        full_scan_names(),
        "ancient_city, bastion_remnant, desert_pyramid, igloo, shipwreck, village, buried_treasure, pillager_outpost"
    );
    let full = candidate_structures()
        .iter()
        .filter(|s| matches!(s.support, ScanSupport::Full(_)))
        .count();
    assert_eq!(full, 8);
}

#[test]
fn loot_tables_of_the_catalog_are_supported() {
    assert!(is_supported_loot_table("minecraft:chests/ancient_city"));
    assert!(is_supported_loot_table("minecraft:chests/shipwreck_map"));
    assert!(!is_supported_loot_table("minecraft:chests/simple_dungeon_typo"));
    assert!(!is_supported_loot_table("chests/ancient_city"));
    assert!(require_loot_table("minecraft:chests/igloo_chest").is_ok());
    let error = require_loot_table("minecraft:chests/nowhere").unwrap_err();
    assert!(matches!(error, Error::Usage(_)));
    assert_eq!(
        error.to_string(),
        "unsupported loot table: minecraft:chests/nowhere; use one listed by 'explain'"
    );
    for structure in candidate_structures() {
        for table in structure.loot_tables {
            assert!(is_supported_loot_table(table));
        }
    }
}

#[test]
fn names_of_shortcuts_and_backends() {
    assert_eq!(ContainerSeedShortcut::Direct.as_str(), "DIRECT");
    assert_eq!(ContainerSeedShortcut::DesertPyramid.as_str(), "DESERT_PYRAMID");
    assert_eq!(ContainerSeedShortcut::Unavailable.as_str(), "UNAVAILABLE");
    assert_eq!(ScannerBackend::JigsawFast.as_str(), "JIGSAW_FAST");
    assert_eq!(ScannerBackend::VanillaPlacement.as_str(), "VANILLA_PLACEMENT");
}

#[test]
fn village_placement_is_the_village_entry() {
    let village = candidate_structure("village").unwrap();
    assert_eq!(village.placement, village_placement());
}

#[test]
fn core_catalog_looks_up_and_refuses() {
    let city = rust_core::candidate_structure("minecraft:ancient_city").unwrap();
    assert_eq!(city.name, "ancient_city");
    assert_eq!(city.placement.spacing, 24);
    let error = rust_core::candidate_structure("castle").unwrap_err();
    assert!(error.starts_with("unsupported structure: castle; supported: "));
    let names: Vec<&str> = rust_core::candidate_structures().iter().map(|s| s.name).collect();
    assert!(error.ends_with(&names.join(", ")));
}

#[test]
fn container_seed_uses_catalog_parameters_with_overrides() {
    let pyramid = candidate_structure("desert_pyramid").unwrap();
    let base = pyramid.decoration.unwrap();
    assert_eq!(container_seed_decoration(&pyramid, None, None).unwrap(), base);
    let changed = container_seed_decoration(&pyramid, Some(9), Some(2)).unwrap();
    assert_eq!(changed.structure_index, 9);
    assert_eq!(changed.step, 2);
    assert_eq!(changed.ordinal_offset, base.ordinal_offset);
    assert_eq!(changed.shortcut, ContainerSeedShortcut::DesertPyramid);
    let village = candidate_structure("village").unwrap();
    let error = container_seed_decoration(&village, None, None).unwrap_err();
    assert!(matches!(error, Error::Usage(_)));
    assert_eq!(
        error.to_string(),
        "container-seed is not available for village; use 'chests' to execute vanilla placement"
    );
}
