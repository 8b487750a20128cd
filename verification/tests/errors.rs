use mc_loot_finder::catalog::{Placement, SpreadType};
use mc_loot_finder::error::Error;
use mc_loot_finder::placement::locate;

#[test]
fn every_error_shows_its_text() {
    for (error, text) in [
        (Error::Usage("u".to_owned()), "u"),
        (Error::Structure("s".to_owned()), "s"),
        (Error::Placement("p".to_owned()), "p"),
        (Error::Worldgen("w".to_owned()), "w"),
        (Error::Loot("l".to_owned()), "l"),
        (Error::Data("d".to_owned()), "d"),
    ] {
        assert_eq!(error.to_string(), text);
    }
}

#[test]
fn placement_errors() {
    let placement = Placement {
        spacing: 24,
        separation: 8,
        salt: 20_083_232,
        spread: SpreadType::Linear,
    };
    let error = locate(0, 0, 0, -1, placement).unwrap_err();
    assert!(matches!(error, Error::Placement(_)));
    assert_eq!(error.to_string(), "radius must be non-negative");
    let error = locate(0, i32::MAX, 0, 1, placement).unwrap_err();
    assert!(matches!(error, Error::Placement(_)));
    assert_eq!(
        error.to_string(),
        "search area exceeds the supported block coordinate range"
    );
    assert!(locate(0, 0, 0, 0, placement).unwrap().len() <= 1);
}
