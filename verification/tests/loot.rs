use mc_loot_finder::loot::{roll, LootData};

#[test]
fn rejects_zero_seed() {
    let data = LootData {
        enchantments: Vec::new(),
        on_random_loot: Vec::new(),
        items: Vec::new(),
        goat_horns: 0,
    };
    assert!(roll("minecraft:chests/ancient_city", 0, &Vec::new(), &data).is_err());
}
