use mc_loot_finder::catalog::{Placement, SpreadType};
use mc_loot_finder::placement::locate;

#[test]
fn locates_seed_zero_ancient_city_candidates() {
    let candidates = locate(
        0,
        0,
        0,
        5_000,
        Placement {
            spacing: 24,
            separation: 8,
            salt: 20_083_232,
            spread: SpreadType::Linear,
        },
    )
    .unwrap();

    assert_eq!(candidates.len(), 537);
    assert_eq!((candidates[0].chunk_x, candidates[0].chunk_z), (9, 7));
    assert_eq!((candidates[1].chunk_x, candidates[1].chunk_z), (8, -16));
}

#[test]
fn rejects_coordinate_overflow() {
    let error = locate(
        0,
        i32::MAX,
        0,
        1,
        Placement {
            spacing: 24,
            separation: 8,
            salt: 20_083_232,
            spread: SpreadType::Linear,
        },
    )
    .unwrap_err();
    assert!(error.to_string().contains("coordinate range"));
}

#[test]
fn locates_with_a_negative_separation() {
    let placement = Placement {
        spacing: 10,
        separation: -5,
        salt: 7,
        spread: SpreadType::Linear,
    };
    let candidates = locate(0, 0, 0, 1_000, placement).unwrap();
    assert!(!candidates.is_empty());
    for pair in candidates.windows(2) {
        assert!(pair[0].squared_distance <= pair[1].squared_distance);
    }
    for candidate in &candidates {
        assert_eq!(candidate.block_x, candidate.chunk_x * 16 + 8);
        let dx = i64::from(candidate.block_x);
        let dz = i64::from(candidate.block_z);
        assert!(dx * dx + dz * dz <= 1_000 * 1_000);
        assert_eq!(candidate.squared_distance, dx * dx + dz * dz);
    }
}

#[test]
fn locates_with_a_negative_spacing() {
    let placement = Placement {
        spacing: -3,
        separation: -10,
        salt: 0,
        spread: SpreadType::Linear,
    };
    // The chunks 0..=2 all fall in region 0, whose candidate is chunk (2, 1).
    let candidates = locate(10, 24, 24, 23, placement).unwrap();
    assert_eq!(candidates.len(), 1);
    assert_eq!((candidates[0].chunk_x, candidates[0].chunk_z), (2, 1));
    assert_eq!((candidates[0].block_x, candidates[0].block_z), (40, 24));
    assert_eq!(candidates[0].squared_distance, 256);
    // Over a wider area the Euclidean regions of the two corners cross, and
    // no region lies between them.
    assert!(locate(0, 0, 0, 100, placement).unwrap().is_empty());
}
