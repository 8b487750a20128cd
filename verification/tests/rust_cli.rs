use mc_loot_finder::rust_cli::Options;

#[test]
fn parses_values_and_flags() {
    let arguments = ["--seed".to_owned(), "-1".to_owned(), "--json".to_owned()];
    let options = Options::parse(&arguments).unwrap();

    assert_eq!(options.values.get("seed").map(String::as_str), Some("-1"));
    assert_eq!(options.values.get("json").map(String::as_str), Some("true"));
}

#[test]
fn rejects_positional_arguments() {
    let error = Options::parse(&["seed".to_owned()]).unwrap_err();
    assert_eq!(error, "expected an option, got: seed");
}
