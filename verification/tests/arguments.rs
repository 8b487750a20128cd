use mc_loot_finder::cli::{require_identifier, require_version};
use mc_loot_finder::error::Error;
use mc_loot_finder::rust_cli::run;

#[test]
fn accepts_only_the_supported_version() {
    assert!(require_version("26.1.2").is_ok());
    let error = require_version("1.21").unwrap_err();
    assert!(matches!(error, Error::Usage(_)));
    assert_eq!(
        error.to_string(),
        "unsupported Minecraft version: 1.21; supported: 26.1.2"
    );
    assert!(require_version("26.1.2 ").is_err());
}

#[test]
fn accepts_namespaced_identifiers() {
    for value in [
        "minecraft:chests/igloo_chest",
        "minecraft:bedrock",
        "my_mod.x-1:a/b.c",
        "a:b",
    ] {
        assert!(require_identifier(value, "--item").is_ok(), "{value}");
    }
    for value in [
        "bedrock",
        ":bedrock",
        "minecraft:",
        "Minecraft:bedrock",
        "minecraft:Bedrock",
        "mine/craft:bedrock",
        "minecraft:bed:rock",
        "",
    ] {
        let error = require_identifier(value, "--item").unwrap_err();
        assert!(matches!(error, Error::Usage(_)), "{value}");
        assert_eq!(error.to_string(), "--item must be a namespaced Minecraft id");
    }
}

fn strings(values: &[&str]) -> Vec<String> {
    values.iter().map(|v| (*v).to_owned()).collect()
}

#[test]
fn minimal_command_line_shows_help_or_refuses_commands() {
    assert_eq!(run(Vec::new()), Ok(0));
    assert_eq!(run(strings(&["help"])), Ok(0));
    assert_eq!(run(strings(&["--help", "--seed", "1"])), Ok(0));
    assert_eq!(
        run(strings(&["find", "--seed", "1"])).unwrap_err(),
        "command 'find' has not been migrated to the Rust CLI yet"
    );
    assert_eq!(
        run(strings(&["find", "seed"])).unwrap_err(),
        "expected an option, got: seed"
    );
    assert_eq!(
        run(strings(&["find", "--"])).unwrap_err(),
        "option name must not be empty"
    );
}
