use mc_loot_finder::binary32::round_to_binary32;

#[test]
fn rounds_like_an_f32_conversion() {
    let mut values: Vec<i128> = Vec::new();
    for shift in 0..98 {
        let base = 1_i128 << shift;
        for delta in [-3_i128, -2, -1, 0, 1, 2, 3] {
            values.push(base + delta);
            values.push(-(base + delta));
        }
        values.push(base + (base >> 1));
        values.push(base * 3 + 1);
    }
    values.extend([16_777_217, 16_777_219, 33_554_434, 33_554_438, 0x1234_5678_9ABC_DEF0]);
    for n in values {
        assert_eq!(round_to_binary32(n), (n as f32) as i128, "value {n}");
    }
}

#[test]
fn exact_below_two_to_the_twenty_fourth() {
    for n in [0_i128, 1, -1, 16_777_215, -16_777_216, 16_777_216] {
        assert_eq!(round_to_binary32(n), n);
    }
    // Ties go to the even significand.
    assert_eq!(round_to_binary32(16_777_217), 16_777_216);
    assert_eq!(round_to_binary32(16_777_219), 16_777_220);
}
