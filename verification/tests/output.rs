use mc_loot_finder::output::{grouped, quantity};

#[test]
fn formats_grouped_numbers() {
    assert_eq!(grouped(0), "0");
    assert_eq!(grouped(5_000), "5,000");
    assert_eq!(grouped(-1_234_567), "-1,234,567");
}

#[test]
fn formats_quantities() {
    assert_eq!(quantity(1, "chest"), "1 chest");
    assert_eq!(quantity(3, "chest"), "3 chests");
}
