use mc_loot_finder::commands::{find_matches, item_count, valid_containers};
use mc_loot_finder::loot::{
    check_loot, roll, Entry, Function, LootData, LootStack, NumberSpec, Pool, Table,
};
use mc_loot_finder::worldgen::{Chest, Scan};

fn chest(x: i32, loot_table: &str) -> Chest {
    Chest {
        structure_chunk_x: 1,
        structure_chunk_z: 2,
        x,
        y: 64,
        z: -3,
        loot_table: loot_table.to_owned(),
        ordinal: 0,
        loot_seed: i64::from(x) * 7,
    }
}

#[test]
fn lists_containers_of_valid_structures_with_a_table() {
    let scans = vec![
        Scan {
            valid_structure: true,
            chests: vec![chest(1, "minecraft:chests/a"), chest(2, "")],
        },
        Scan {
            valid_structure: false,
            chests: vec![chest(3, "minecraft:chests/b")],
        },
        Scan {
            valid_structure: true,
            chests: Vec::new(),
        },
        Scan {
            valid_structure: true,
            chests: vec![chest(4, "minecraft:chests/c")],
        },
    ];
    let (valid, containers) = valid_containers(scans);
    assert_eq!(valid, 3);
    assert_eq!(
        containers,
        vec![chest(1, "minecraft:chests/a"), chest(4, "minecraft:chests/c")]
    );
    assert_eq!(valid_containers(Vec::new()), (0, Vec::new()));
}

#[test]
fn counts_an_item_over_stacks() {
    let stacks = vec![
        LootStack {
            item: "minecraft:diamond".to_owned(),
            count: 3,
        },
        LootStack {
            item: "minecraft:stick".to_owned(),
            count: 64,
        },
        LootStack {
            item: "minecraft:diamond".to_owned(),
            count: 2,
        },
    ];
    assert_eq!(item_count(&stacks, "minecraft:diamond"), 5);
    assert_eq!(item_count(&stacks, "minecraft:stick"), 64);
    assert_eq!(item_count(&stacks, "minecraft:apple"), 0);
    assert_eq!(item_count(&Vec::new(), "minecraft:apple"), 0);
}

fn one_item_tables() -> (Vec<Table>, LootData) {
    let table = Table {
        id: "minecraft:chests/a".to_owned(),
        pools: vec![Pool {
            rolls: NumberSpec {
                min: 1,
                max: 1,
                varies: false,
            },
            entries: vec![
                Entry {
                    item: Some("minecraft:diamond".to_owned()),
                    nested_table: None,
                    weight: 1,
                    functions: vec![Function {
                        kind: "minecraft:set_count".to_owned(),
                        number: Some(NumberSpec {
                            min: 1,
                            max: 4,
                            varies: true,
                        }),
                        options: None,
                        only_compatible: false,
                        alternatives: Vec::new(),
                    }],
                    random_chance: None,
                },
                Entry {
                    item: Some("minecraft:stick".to_owned()),
                    nested_table: None,
                    weight: 1,
                    functions: Vec::new(),
                    random_chance: None,
                },
            ],
            functions: Vec::new(),
            random_chance: None,
        }],
    };
    let data = LootData {
        enchantments: Vec::new(),
        on_random_loot: Vec::new(),
        items: Vec::new(),
        goat_horns: 0,
    };
    (vec![table], data)
}

#[test]
fn find_rolls_listed_containers_and_keeps_matches() {
    let (tables, data) = one_item_tables();
    assert!(check_loot(&tables, &data));
    let mut seeded = Vec::new();
    for seed in 1..40_i64 {
        let mut c = chest(seed as i32, "minecraft:chests/a");
        c.loot_seed = seed.wrapping_mul(-7_046_029_254_386_353_131);
        seeded.push(c);
    }
    let mut zero = chest(100, "minecraft:chests/a");
    zero.loot_seed = 0;
    let mut scans = vec![
        Scan {
            valid_structure: true,
            chests: seeded.clone(),
        },
        Scan {
            valid_structure: false,
            chests: seeded.clone(),
        },
        Scan {
            valid_structure: true,
            chests: vec![zero, chest(200, "minecraft:chests/other")],
        },
    ];
    let outcome = find_matches(&scans, &["minecraft:chests/a"], "minecraft:diamond", &tables, &data).unwrap();
    assert_eq!(outcome.valid_structures, 2);
    assert_eq!(outcome.checked_chests, 40);
    assert_eq!(outcome.unpredictable_zero_seeds, 1);
    let mut expected = Vec::new();
    for c in &seeded {
        let stacks = roll("minecraft:chests/a", c.loot_seed, &tables, &data).unwrap();
        let count: i32 = stacks
            .iter()
            .filter(|s| s.item == "minecraft:diamond")
            .map(|s| s.count)
            .sum();
        if count > 0 {
            expected.push((c.clone(), count));
        }
    }
    assert!(!expected.is_empty());
    assert!(expected.len() < seeded.len());
    assert_eq!(outcome.matches, expected);

    // A listed table that does not exist ends the search with its error.
    scans[2].chests[1] = chest(300, "minecraft:chests/missing");
    let error = find_matches(
        &scans,
        &["minecraft:chests/a", "minecraft:chests/missing"],
        "minecraft:diamond",
        &tables,
        &data,
    )
    .unwrap_err();
    assert_eq!(error, "vanilla loot table not found: minecraft:chests/missing");
}
