use mc_loot_finder::commands::item_count;
use mc_loot_finder::legacy_random::LegacyRandom48;
use mc_loot_finder::loot::{
    adjusted_level, check_loot, next_inclusive, roll, Entry, Function, LootData, LootStack,
    NumberSpec, Pool, Table,
};

fn empty_data() -> LootData {
    LootData {
        enchantments: Vec::new(),
        on_random_loot: Vec::new(),
        items: Vec::new(),
        goat_horns: 0,
    }
}

fn number(min: i32, max: i32) -> NumberSpec {
    NumberSpec {
        min,
        max,
        varies: min != max,
    }
}

fn set_count(min: i32, max: i32) -> Function {
    Function {
        kind: "minecraft:set_count".to_owned(),
        number: Some(number(min, max)),
        options: None,
        only_compatible: false,
        alternatives: Vec::new(),
    }
}

fn item_entry(item: &str, weight: i32, functions: Vec<Function>) -> Entry {
    Entry {
        item: Some(item.to_owned()),
        nested_table: None,
        weight,
        functions,
        random_chance: None,
    }
}

fn nested_entry(table: &str, weight: i32) -> Entry {
    Entry {
        item: None,
        nested_table: Some(table.to_owned()),
        weight,
        functions: Vec::new(),
        random_chance: None,
    }
}

fn single_pool_table(id: &str, rolls: NumberSpec, entries: Vec<Entry>) -> Table {
    Table {
        id: id.to_owned(),
        pools: vec![Pool {
            rolls,
            entries,
            functions: Vec::new(),
            random_chance: None,
        }],
    }
}

fn stack(item: &str, count: i32) -> LootStack {
    LootStack {
        item: item.to_owned(),
        count,
    }
}

#[test]
fn rolls_a_weighted_pool_as_vanilla_draws_it() {
    let tables = vec![single_pool_table(
        "minecraft:chests/test",
        number(2, 4),
        vec![
            item_entry("minecraft:stick", 3, vec![set_count(1, 3)]),
            item_entry("minecraft:diamond", 1, Vec::new()),
        ],
    )];
    let data = empty_data();
    assert!(check_loot(&tables, &data));
    for seed in [1_i64, 42, -7, 123_456_789_012] {
        let mut random = LegacyRandom48::new(seed);
        let rolls = random.next_int(3) + 2;
        let mut expected = Vec::new();
        for _ in 0..rolls {
            if random.next_int(4) < 3 {
                let count = random.next_int(3) + 1;
                expected.push(stack("minecraft:stick", count));
            } else {
                expected.push(stack("minecraft:diamond", 1));
            }
        }
        let rolled = roll("minecraft:chests/test", seed, &tables, &data).unwrap();
        assert_eq!(rolled, expected);
        let sticks: i64 = expected
            .iter()
            .filter(|s| s.item == "minecraft:stick")
            .map(|s| i64::from(s.count))
            .sum();
        assert_eq!(item_count(&rolled, "minecraft:stick"), sticks);
    }
}

#[test]
fn rolls_nested_tables_in_place() {
    let tables = vec![
        single_pool_table(
            "minecraft:chests/outer",
            number(1, 1),
            vec![nested_entry("minecraft:chests/inner", 1)],
        ),
        single_pool_table(
            "minecraft:chests/inner",
            number(1, 1),
            vec![item_entry("minecraft:apple", 1, vec![set_count(2, 5)])],
        ),
    ];
    let data = empty_data();
    assert!(check_loot(&tables, &data));
    let mut random = LegacyRandom48::new(99);
    let count = random.next_int(4) + 2;
    assert_eq!(
        roll("minecraft:chests/outer", 99, &tables, &data).unwrap(),
        vec![stack("minecraft:apple", count)]
    );
}

#[test]
fn reports_unknown_and_endless_tables() {
    let data = empty_data();
    let tables = vec![single_pool_table(
        "minecraft:chests/loop",
        number(1, 1),
        vec![nested_entry("minecraft:chests/loop", 1)],
    )];
    assert!(check_loot(&tables, &data));
    assert_eq!(
        roll("minecraft:chests/missing", 5, &tables, &data).unwrap_err(),
        "vanilla loot table not found: minecraft:chests/missing"
    );
    assert_eq!(
        roll("minecraft:chests/loop", 5, &tables, &data).unwrap_err(),
        "loot table nesting does not end: minecraft:chests/loop"
    );
}

#[test]
fn rejects_the_unseeded_sentinel() {
    let data = empty_data();
    assert_eq!(
        roll("minecraft:chests/ancient_city", 0, &Vec::new(), &data).unwrap_err(),
        "LootTableSeed 0 is vanilla's unseeded sentinel"
    );
}

#[test]
fn check_loot_refuses_unusable_data() {
    let data = empty_data();
    let zero_weights = vec![single_pool_table(
        "minecraft:chests/zero",
        number(1, 1),
        vec![
            item_entry("minecraft:stick", 0, Vec::new()),
            item_entry("minecraft:apple", 0, Vec::new()),
        ],
    )];
    assert!(!check_loot(&zero_weights, &data));
    let huge_rolls = vec![single_pool_table(
        "minecraft:chests/huge",
        number(0, i32::MAX),
        vec![item_entry("minecraft:stick", 1, Vec::new())],
    )];
    assert!(!check_loot(&huge_rolls, &data));
    let bad_data = LootData {
        goat_horns: -1,
        ..empty_data()
    };
    assert!(!check_loot(&Vec::new(), &bad_data));
}

#[test]
fn next_inclusive_draws_only_for_a_range() {
    let mut random = LegacyRandom48::new(7);
    let mut reference = LegacyRandom48::new(7);
    assert_eq!(next_inclusive(&mut random, 5, 5), 5);
    assert_eq!(next_inclusive(&mut random, 9, 2), 9);
    let value = next_inclusive(&mut random, 3, 8);
    assert_eq!(value, reference.next_int(6) + 3);
    assert_eq!(random.next_long(), reference.next_long());
}

/// Vanilla's `f32` enchanting-level variance, computed with floats.
fn float_level(level: i32, u1: i32, u2: i32) -> i32 {
    let scale = (1 << 24) as f32;
    let variance = ((u1 as f32 / scale) + (u2 as f32 / scale) - 1.0) * 0.15;
    let value = level as f32 + level as f32 * variance;
    ((value + 0.5).floor() as i32).max(1)
}

#[test]
fn adjusted_level_matches_float_arithmetic() {
    let draws = [
        0, 1, 2, 3, 0x7F_FFFF, 0x80_0000, 0x80_0001, 0xFF_FFFE, 0xFF_FFFF, 0x12_3456, 0xAB_CDEF,
        0x55_5555, 0x33_3333, 0xCC_CCCC, 0x10_0000, 0xF0_0000,
    ];
    for level in [1, 2, 5, 8, 13, 20, 30, 31, 47, 50, 64, 100] {
        for &u1 in &draws {
            for &u2 in &draws {
                assert_eq!(
                    adjusted_level(level, u1, u2),
                    float_level(level, u1, u2),
                    "level {level}, draws {u1} and {u2}"
                );
            }
        }
    }
}
