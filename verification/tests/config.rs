use nu_formatter::config::{parse_positive_int, parse_string_list, read_config, Config};
use nu_formatter::config_error::ConfigError;
use nu_formatter::config_value::{ConfigData, ConfigEntry, ConfigValue};

fn value(data: ConfigData, kind_name: &str) -> ConfigValue {
    ConfigValue { data, kind_name: kind_name.to_string() }
}

fn whole(number: i64) -> ConfigValue {
    value(ConfigData::Int(number), "int")
}

fn string(text: &str) -> ConfigValue {
    value(ConfigData::String(text.to_string()), "string")
}

fn list(items: Vec<ConfigValue>) -> ConfigValue {
    value(ConfigData::List(items), "list<any>")
}

fn wrong_type(option: &str, found: &str, expected: &'static str) -> ConfigError {
    ConfigError::InvalidOptionType(option.to_string(), found.to_string(), expected)
}

fn wrong_value(option: &str, found: &str) -> ConfigError {
    ConfigError::InvalidOptionValue(option.to_string(), found.to_string(), "a positive number")
}

fn record(entries: Vec<(&str, ConfigValue)>) -> ConfigValue {
    value(
        ConfigData::Record(
            entries
                .into_iter()
                .map(|(key, value)| ConfigEntry { key: key.to_string(), value })
                .collect(),
        ),
        "record",
    )
}

#[test]
fn new_sets_the_three_numbers() {
    let config = Config::new(2, 100, 3);
    assert_eq!(config.indent, 2);
    assert_eq!(config.line_length, 100);
    assert_eq!(config.margin, 3);
    assert!(config.excludes.is_empty());
}

#[test]
fn default_configuration() {
    let config = Config::default();
    assert_eq!(config, Config { indent: 4, line_length: 80, margin: 1, excludes: vec![] });
}

#[test]
fn nothing_gives_the_default() {
    assert_eq!(Config::try_from(value(ConfigData::Nothing, "nothing")), Ok(Config::default()));
}

#[test]
fn record_sets_options_over_the_default() {
    let config = Config::try_from(record(vec![
        ("line_length", whole(120)),
        ("exclude", list(vec![string("a*nu"), string("b*.nu")])),
    ]));
    assert_eq!(
        config,
        Ok(Config {
            indent: 4,
            line_length: 120,
            margin: 1,
            excludes: vec!["a*nu".to_string(), "b*.nu".to_string()]
        })
    );
    let config = Config::try_from(record(vec![
        ("indent", whole(2)),
        ("margin", whole(3)),
        ("indent", whole(8)),
    ]));
    assert_eq!(config, Ok(Config { indent: 8, line_length: 80, margin: 3, excludes: vec![] }));
}

#[test]
fn what_is_no_record_is_an_invalid_format() {
    assert_eq!(Config::try_from(string("some string")), Err(ConfigError::InvalidFormat));
    assert_eq!(Config::try_from(whole(1)), Err(ConfigError::InvalidFormat));
}

#[test]
fn unknown_option() {
    assert_eq!(
        Config::try_from(record(vec![("unknown", whole(1))])),
        Err(ConfigError::UnknownOption("unknown".to_string()))
    );
    assert_eq!(
        Config::try_from(record(vec![("excludes", whole(1))])),
        Err(ConfigError::UnknownOption("excludes".to_string()))
    );
}

#[test]
fn number_that_is_not_positive() {
    assert_eq!(
        Config::try_from(record(vec![("line_length", whole(-1))])),
        Err(wrong_value("line_length", "-1"))
    );
    assert_eq!(
        parse_positive_int("indent", &whole(0)),
        Err(wrong_value("indent", "0"))
    );
    assert_eq!(parse_positive_int("indent", &whole(1)), Ok(1));
}

#[test]
fn number_of_the_wrong_type() {
    assert_eq!(
        Config::try_from(record(vec![("line_length", string("120"))])),
        Err(wrong_type("line_length", "string", "number"))
    );
}

#[test]
fn exclude_of_the_wrong_type() {
    assert_eq!(
        Config::try_from(record(vec![("exclude", string("a*nu"))])),
        Err(wrong_type("excludes", "string", "list<string>"))
    );
    assert_eq!(
        parse_string_list(&list(vec![string("a*nu"), whole(1), value(ConfigData::Other, "bool")])),
        Err(wrong_type("excludes", "int", "list<string>"))
    );
    assert_eq!(parse_string_list(&list(vec![])), Ok(vec![]));
}

#[test]
fn first_fault_is_reported() {
    assert_eq!(
        Config::try_from(record(vec![("indent", whole(0)), ("unknown", whole(1))])),
        Err(wrong_value("indent", "0"))
    );
}

#[test]
fn read_valid_config_empty() {
    let config = read_config("").expect("Config should be valid");
    assert_eq!(config, Config::default());
}

#[test]
fn read_valid_config() {
    let config = read_config(r#"{line_length: 120, exclude: ["a*nu", "b*.nu"]}"#)
        .expect("Config should be valid");
    assert_eq!(config.line_length, 120_usize);
    assert_eq!(config.excludes.len(), 2_usize);
    assert_eq!(config.excludes, vec!["a*nu".to_string(), "b*.nu".to_string()]);
    assert_eq!(config.indent, 4);
}

#[test]
fn read_invalid_config() {
    assert_eq!(read_config(r#"some string"#), Err(ConfigError::InvalidFormat));
    assert_eq!(
        read_config(r#"{unknown: 1}"#),
        Err(ConfigError::UnknownOption("unknown".to_string()))
    );
    assert_eq!(
        read_config(r#"{line_length: -1}"#),
        Err(wrong_value("line_length", "-1"))
    );
    assert_eq!(
        read_config(r#"{line_length: "120"}"#),
        Err(wrong_type("line_length", "string", "number"))
    );
    assert_eq!(
        read_config(r#"{exclude: "a*nu"}"#),
        Err(wrong_type("excludes", "string", "list<string>"))
    );
    assert_eq!(
        read_config(r#"{exclude: ["a*nu", 1]}"#),
        Err(wrong_type("excludes", "int", "list<string>"))
    );
}

#[test]
fn text_that_is_no_nuon() {
    assert_eq!(read_config("{line_length: "), Err(ConfigError::InvalidFormat));
}

#[test]
fn messages() {
    assert_eq!(
        ConfigError::IOError("gone".to_string()).message(),
        "Failed read the configuration file: gone"
    );
    assert_eq!(
        ConfigError::InvalidFormat.message(),
        "The configuration is not a valid nuon record"
    );
    assert_eq!(
        ConfigError::UnknownOption("x".to_string()).message(),
        "Found unknown configuration option: x"
    );
    assert_eq!(
        wrong_type("indent", "string", "number").message(),
        "Found invalid type for option 'indent': got string, expected number"
    );
    assert_eq!(
        wrong_value("indent", "0").message(),
        "Found invalid value for option 'indent': got 0, expected a positive number"
    );
    assert_eq!(ConfigError::InvalidExcludePattern.message(), "Found an invalid exclude pattern");
}
