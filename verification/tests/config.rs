use sheet_shuffle::{Config, ConfigError, Field, Key};

const COMPLETE: &str = "auth_file = \"secrets/service.json\"\n\
sheet_id = \"1BxiMVs0XRA5nFMdKvBdBZjgmUUqptlbs74OgvE2upms\"\n\
range = \"A1:D100\"\n\
sheet_name = \"Sheet1\"\n";

fn text(value: &str) -> Field {
    Field::Text(value.to_string())
}

fn without(key: &str) -> String {
    let prefix = format!("{} =", key);
    COMPLETE.lines().filter(|line| !line.starts_with(&prefix)).map(|line| format!("{}\n", line)).collect()
}

fn replaced(key: &str, value: &str) -> String {
    format!("{}{} = {}\n", without(key), key, value)
}

#[test]
fn complete_document_loads() {
    let config = Config::new(COMPLETE).unwrap();
    assert_eq!(config.get_auth_file(), "secrets/service.json");
    assert_eq!(config.get_sheet_id(), "1BxiMVs0XRA5nFMdKvBdBZjgmUUqptlbs74OgvE2upms");
    assert_eq!(config.get_range(), "A1:D100");
    assert_eq!(config.get_sheet_name(), "Sheet1");
}

#[test]
fn order_of_keys_in_the_document_does_not_matter() {
    let shuffled = "sheet_name = \"Sheet1\"\nrange = \"A1:D100\"\n\
sheet_id = \"1BxiMVs0XRA5nFMdKvBdBZjgmUUqptlbs74OgvE2upms\"\nauth_file = \"secrets/service.json\"\n";
    assert_eq!(Config::new(shuffled), Config::new(COMPLETE));
}

#[test]
fn unknown_keys_are_ignored() {
    let extended = format!("{}retries = 3\n\n[extra]\nname = \"x\"\n", COMPLETE);
    assert_eq!(Config::new(&extended), Config::new(COMPLETE));
}

#[test]
fn empty_strings_are_strings() {
    let config = Config::new(&replaced("range", "\"\"")).unwrap();
    assert_eq!(config.get_range(), "");
}

#[test]
fn escapes_are_decoded_by_the_parser() {
    let config = Config::new(&replaced("sheet_name", "\"Q1 \\\"draft\\\"\"")).unwrap();
    assert_eq!(config.get_sheet_name(), "Q1 \"draft\"");
    let literal = Config::new(&replaced("auth_file", "'C:\\keys\\service.json'")).unwrap();
    assert_eq!(literal.get_auth_file(), "C:\\keys\\service.json");
}

#[test]
fn missing_auth_file_is_reported() {
    assert_eq!(Config::new(&without("auth_file")), Err(ConfigError::Missing(Key::AuthFile)));
}

#[test]
fn missing_sheet_id_is_reported() {
    assert_eq!(Config::new(&without("sheet_id")), Err(ConfigError::Missing(Key::SheetId)));
}

#[test]
fn missing_range_is_reported() {
    assert_eq!(Config::new(&without("range")), Err(ConfigError::Missing(Key::Range)));
}

#[test]
fn missing_sheet_name_is_reported() {
    assert_eq!(Config::new(&without("sheet_name")), Err(ConfigError::Missing(Key::SheetName)));
}

#[test]
fn empty_document_misses_the_first_key() {
    assert_eq!(Config::new(""), Err(ConfigError::Missing(Key::AuthFile)));
    assert_eq!(Config::new("# nothing here\n"), Err(ConfigError::Missing(Key::AuthFile)));
}

#[test]
fn keys_inside_a_table_do_not_count() {
    let nested = format!("[proxy]\n{}", COMPLETE);
    assert_eq!(Config::new(&nested), Err(ConfigError::Missing(Key::AuthFile)));
}

#[test]
fn values_of_other_types_are_mistyped() {
    assert_eq!(
        Config::new(&replaced("auth_file", "7")),
        Err(ConfigError::Mistyped(Key::AuthFile))
    );
    assert_eq!(
        Config::new(&replaced("sheet_id", "true")),
        Err(ConfigError::Mistyped(Key::SheetId))
    );
    assert_eq!(
        Config::new(&replaced("range", "[\"A1\", \"D100\"]")),
        Err(ConfigError::Mistyped(Key::Range))
    );
    assert_eq!(
        Config::new(&replaced("sheet_name", "{ name = \"Sheet1\" }")),
        Err(ConfigError::Mistyped(Key::SheetName))
    );
    assert_eq!(
        Config::new(&replaced("sheet_id", "1.5")),
        Err(ConfigError::Mistyped(Key::SheetId))
    );
    assert_eq!(
        Config::new(&replaced("range", "1979-05-27T07:32:00Z")),
        Err(ConfigError::Mistyped(Key::Range))
    );
}

#[test]
fn first_key_at_fault_decides() {
    let two_missing = without("sheet_id").replace("sheet_name = \"Sheet1\"\n", "");
    assert_eq!(Config::new(&two_missing), Err(ConfigError::Missing(Key::SheetId)));

    let mistyped_then_missing = replaced("auth_file", "1").replace("range = \"A1:D100\"\n", "");
    assert_eq!(Config::new(&mistyped_then_missing), Err(ConfigError::Mistyped(Key::AuthFile)));

    let missing_then_mistyped = replaced("sheet_name", "false").replace("range = \"A1:D100\"\n", "");
    assert_eq!(Config::new(&missing_then_mistyped), Err(ConfigError::Missing(Key::Range)));
}

#[test]
fn text_that_is_no_document_is_a_syntax_error() {
    let broken = "auth_file = \nsheet_id = \"abc\"\n";
    let expected = toml::from_str::<toml::Table>(broken).unwrap_err();
    match Config::new(broken) {
        Err(ConfigError::Syntax(message)) => {
            assert!(!message.is_empty());
            assert_eq!(message, expected.message());
        }
        other => panic!("expected a syntax error, got {:?}", other),
    }
}

#[test]
fn a_key_given_twice_is_a_syntax_error() {
    let twice = format!("{}range = \"B2:C3\"\n", COMPLETE);
    assert!(matches!(Config::new(&twice), Err(ConfigError::Syntax(_))));
}

#[test]
fn syntax_errors_differ_with_the_text() {
    let unterminated = Config::new("auth_file = \"open").unwrap_err();
    let no_value = Config::new("auth_file").unwrap_err();
    assert!(matches!(unterminated, ConfigError::Syntax(_)));
    assert!(matches!(no_value, ConfigError::Syntax(_)));
    assert_ne!(unterminated, no_value);
}

#[test]
fn from_fields_with_four_strings() {
    let config = Config::from_fields(text("key.json"), text("doc"), text("B2:C9"), text("Data")).unwrap();
    assert_eq!(config.get_auth_file(), "key.json");
    assert_eq!(config.get_sheet_id(), "doc");
    assert_eq!(config.get_range(), "B2:C9");
    assert_eq!(config.get_sheet_name(), "Data");
}

#[test]
fn from_fields_agrees_with_new() {
    let built = Config::from_fields(
        text("secrets/service.json"),
        text("1BxiMVs0XRA5nFMdKvBdBZjgmUUqptlbs74OgvE2upms"),
        text("A1:D100"),
        text("Sheet1"),
    );
    assert_eq!(built, Config::new(COMPLETE));
}

#[test]
fn from_fields_reports_each_absent_field() {
    assert_eq!(
        Config::from_fields(Field::Absent, text("b"), text("c"), text("d")),
        Err(ConfigError::Missing(Key::AuthFile))
    );
    assert_eq!(
        Config::from_fields(text("a"), Field::Absent, text("c"), text("d")),
        Err(ConfigError::Missing(Key::SheetId))
    );
    assert_eq!(
        Config::from_fields(text("a"), text("b"), Field::Absent, text("d")),
        Err(ConfigError::Missing(Key::Range))
    );
    assert_eq!(
        Config::from_fields(text("a"), text("b"), text("c"), Field::Absent),
        Err(ConfigError::Missing(Key::SheetName))
    );
}

#[test]
fn from_fields_reports_each_mistyped_field() {
    assert_eq!(
        Config::from_fields(Field::NotText, text("b"), text("c"), text("d")),
        Err(ConfigError::Mistyped(Key::AuthFile))
    );
    assert_eq!(
        Config::from_fields(text("a"), Field::NotText, text("c"), text("d")),
        Err(ConfigError::Mistyped(Key::SheetId))
    );
    assert_eq!(
        Config::from_fields(text("a"), text("b"), Field::NotText, text("d")),
        Err(ConfigError::Mistyped(Key::Range))
    );
    assert_eq!(
        Config::from_fields(text("a"), text("b"), text("c"), Field::NotText),
        Err(ConfigError::Mistyped(Key::SheetName))
    );
}

#[test]
fn from_fields_first_fault_wins() {
    assert_eq!(
        Config::from_fields(text("a"), Field::NotText, Field::Absent, Field::Absent),
        Err(ConfigError::Mistyped(Key::SheetId))
    );
    assert_eq!(
        Config::from_fields(Field::Absent, Field::NotText, Field::NotText, Field::NotText),
        Err(ConfigError::Missing(Key::AuthFile))
    );
}

#[test]
fn key_names_are_those_of_the_document() {
    assert_eq!(Key::AuthFile.name(), "auth_file");
    assert_eq!(Key::SheetId.name(), "sheet_id");
    assert_eq!(Key::Range.name(), "range");
    assert_eq!(Key::SheetName.name(), "sheet_name");
}

#[test]
fn diagnostics_name_the_key() {
    assert_eq!(ConfigError::Missing(Key::SheetId).describe(), "missing field `sheet_id`");
    assert_eq!(ConfigError::Missing(Key::AuthFile).describe(), "missing field `auth_file`");
    assert_eq!(ConfigError::Mistyped(Key::Range).describe(), "field `range` is not a string");
    assert_eq!(
        ConfigError::Mistyped(Key::SheetName).describe(),
        "field `sheet_name` is not a string"
    );
    assert_eq!(
        ConfigError::Syntax("expected a value".to_string()).describe(),
        "invalid configuration: expected a value"
    );
}

#[test]
fn range_expression_joins_sheet_and_range() {
    let config = Config::new(COMPLETE).unwrap();
    assert_eq!(config.range_expression(), "Sheet1!A1:D100");
    let other = Config::from_fields(text("k"), text("d"), text("B:B"), text("Year 2024")).unwrap();
    assert_eq!(other.range_expression(), "Year 2024!B:B");
    let bare = Config::from_fields(text("k"), text("d"), text(""), text("")).unwrap();
    assert_eq!(bare.range_expression(), "!");
}
