use mc_loot_finder::legacy_random::LegacyRandom48;
use mc_loot_finder::xoroshiro::Xoroshiro128PlusPlus;

#[test]
fn legacy_random_matches_known_java_random_values() {
    let mut random = LegacyRandom48::new(0);
    assert_eq!(random.next_int(16), 11);
    assert_eq!(random.next_int(16), 13);
    assert_eq!(random.next_int(16), 3);
    assert_eq!(random.next_int(16), 9);
}

#[test]
fn xoroshiro_matches_known_minecraft_values() {
    let mut random = Xoroshiro128PlusPlus::new(0);
    assert_eq!(random.next_long() as i64, 3_038_984_756_725_240_190);
    assert_eq!(random.next_long() as i64, -3_694_039_286_755_638_414);
}

#[test]
fn random_matches_known_java_random_values() {
    let mut random = LegacyRandom48::new(0);
    assert_eq!(random.next_int(16), 11);
    assert_eq!(random.next_int(16), 13);
    assert_eq!(random.next_int(16), 3);
    assert_eq!(random.next_int(16), 9);
}

#[test]
fn random_matches_known_minecraft_values() {
    let mut random = Xoroshiro128PlusPlus::new(0);
    assert_eq!(random.next_long() as i64, 3_038_984_756_725_240_190);
    assert_eq!(random.next_long() as i64, -3_694_039_286_755_638_414);
}

#[test]
fn reseeding_forgets_the_history_and_never_stalls() {
    let mut used = Xoroshiro128PlusPlus::new(5);
    for _ in 0..3 {
        used.next_long();
    }
    used.set_seed(42);
    let mut fresh = Xoroshiro128PlusPlus::new(42);
    for _ in 0..16 {
        assert_eq!(used.next_long(), fresh.next_long());
    }
    // A stuck all-zero state would only ever produce zeros.
    let mut random = Xoroshiro128PlusPlus::new(0);
    let mut zeros = 0;
    for _ in 0..10_000 {
        if random.next_long() == 0 {
            zeros += 1;
        }
    }
    assert!(zeros < 2);
}
