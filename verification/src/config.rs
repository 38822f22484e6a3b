//! Keeps all the options, tweaks and dials of the configuration.

use vstd::prelude::*;
use crate::config_error::{ConfigError, ConfigFault};
use crate::config_value::{ConfigData, ConfigEntry, ConfigValue};
use crate::frontend::{nuon_value, parse_config_value};

verus! {

/// Configuration options for the formatter.
#[derive(Debug, Clone, PartialEq, Eq)]
pub struct Config {
    /// Spaces per indentation level.
    pub indent: usize,
    /// The line length aimed at. No rendering rule reads it.
    pub line_length: usize,
    /// Lines around custom commands. No rendering rule reads it.
    pub margin: usize,
    /// Glob patterns of the paths to leave alone.
    pub excludes: Vec<String>,
}

/// A configuration, in mathematical terms.
pub struct ConfigModel {
    pub indent: usize,
    pub line_length: usize,
    pub margin: usize,
    pub excludes: Seq<Seq<char>>,
}

/// The texts of a list of strings.
pub open spec fn texts(strings: Seq<String>) -> Seq<Seq<char>> {
    Seq::new(strings.len(), |i: int| strings[i]@)
}

impl ConfigModel {
    /// The configuration without any option set.
    pub open spec fn default() -> Self {
        ConfigModel { indent: 4, line_length: 80, margin: 1, excludes: Seq::empty() }
    }
}

/// The positive number that `value` gives to the option `option`.
pub open spec fn positive_int(option: Seq<char>, value: ConfigValue) -> Result<usize, ConfigFault> {
    match value.data {
        ConfigData::Int(number) => if 0 < number <= usize::MAX {
            Ok(number as usize)
        } else {
            Err(ConfigFault::WrongNumber { option, number })
        },
        _ => Err(
            ConfigFault::WrongType { option, found: value.kind_name@, expected: "number"@ },
        ),
    }
}

/// The strings among the first `n` items of a list; the fault of the first
/// item that is no string.
pub open spec fn strings_upto(items: Vec<ConfigValue>, n: int) -> Result<
    Seq<Seq<char>>,
    ConfigFault,
>
    decreases n,
{
    if n <= 0 || n > items.len() {
        Ok(Seq::empty())
    } else {
        match strings_upto(items, n - 1) {
            Err(fault) => Err(fault),
            Ok(strings) => match items[n - 1].data {
                ConfigData::String(text) => Ok(strings.push(text@)),
                _ => Err(
                    ConfigFault::WrongType {
                        option: "excludes"@,
                        found: items[n - 1].kind_name@,
                        expected: "list<string>"@,
                    },
                ),
            },
        }
    }
}

/// The list of strings that `value` holds.
pub open spec fn string_list(value: ConfigValue) -> Result<Seq<Seq<char>>, ConfigFault> {
    match value.data {
        ConfigData::List(items) => strings_upto(items, items.len() as int),
        _ => Err(
            ConfigFault::WrongType {
                option: "excludes"@,
                found: value.kind_name@,
                expected: "list<string>"@,
            },
        ),
    }
}

/// `config` with one option set as `entry` says.
pub open spec fn with_entry(config: ConfigModel, entry: ConfigEntry) -> Result<
    ConfigModel,
    ConfigFault,
> {
    if entry.key@ == "indent"@ {
        match positive_int(entry.key@, entry.value) {
            Ok(number) => Ok(ConfigModel { indent: number, ..config }),
            Err(fault) => Err(fault),
        }
    } else if entry.key@ == "line_length"@ {
        match positive_int(entry.key@, entry.value) {
            Ok(number) => Ok(ConfigModel { line_length: number, ..config }),
            Err(fault) => Err(fault),
        }
    } else if entry.key@ == "margin"@ {
        match positive_int(entry.key@, entry.value) {
            Ok(number) => Ok(ConfigModel { margin: number, ..config }),
            Err(fault) => Err(fault),
        }
    } else if entry.key@ == "exclude"@ {
        match string_list(entry.value) {
            Ok(strings) => Ok(ConfigModel { excludes: strings, ..config }),
            Err(fault) => Err(fault),
        }
    } else {
        Err(ConfigFault::UnknownOption(entry.key@))
    }
}

/// The default configuration with the options of the first `n` entries set,
/// one after the other; the fault of the first entry that has one.
pub open spec fn with_entries(entries: Vec<ConfigEntry>, n: int) -> Result<
    ConfigModel,
    ConfigFault,
>
    decreases n,
{
    if n <= 0 || n > entries.len() {
        Ok(ConfigModel::default())
    } else {
        match with_entries(entries, n - 1) {
            Err(fault) => Err(fault),
            Ok(config) => with_entry(config, entries[n - 1]),
        }
    }
}

/// The configuration that `value` describes: the default for nothing, the
/// options of a record set one after the other over the default, and an
/// error for anything else.
pub open spec fn configured(value: ConfigValue) -> Result<ConfigModel, ConfigFault> {
    match value.data {
        ConfigData::Nothing => Ok(ConfigModel::default()),
        ConfigData::Record(entries) => with_entries(entries, entries.len() as int),
        _ => Err(ConfigFault::InvalidFormat),
    }
}

/// Whether `result` holds the configuration, or reports the fault, of
/// `expected`.
pub open spec fn agrees(result: Result<Config, ConfigError>, expected: Result<
    ConfigModel,
    ConfigFault,
>) -> bool {
    match expected {
        Ok(model) => result matches Ok(config) && config@ == model,
        Err(fault) => result matches Err(error) && error.reports(fault),
    }
}

impl Config {
    pub open spec fn view(&self) -> ConfigModel {
        ConfigModel {
            indent: self.indent,
            line_length: self.line_length,
            margin: self.margin,
            excludes: texts(self.excludes@),
        }
    }

    pub fn new(tab_spaces: usize, max_width: usize, margin: usize) -> (config: Self)
        ensures
            config@ == (ConfigModel {
                indent: tab_spaces,
                line_length: max_width,
                margin,
                excludes: Seq::empty(),
            }),
    {
        let config = Self {
            indent: tab_spaces,
            line_length: max_width,
            margin,
            excludes: Vec::new(),
        };
        assert(texts(config.excludes@) == Seq::<Seq<char>>::empty());
        config
    }

    /// Reads a configuration from a value.
    pub fn try_from(value: ConfigValue) -> (result: Result<Self, ConfigError>)
        ensures
            agrees(result, configured(value)),
    {
        let mut config = Config::default();
        let entries = match &value.data {
            ConfigData::Record(entries) => entries,
            ConfigData::Nothing => {
                return Ok(config);
            },
            _ => {
                return Err(ConfigError::InvalidFormat);
            },
        };
        let mut i: usize = 0;
        while i < entries.len()
            invariant
                i <= entries.len(),
                value.data == ConfigData::Record(*entries),
                with_entries(*entries, i as int) == Ok::<ConfigModel, ConfigFault>(config@),
            decreases entries.len() - i,
        {
            let key = &entries[i].key;
            let option = &entries[i].value;
            let ghost old_config = config@;
            if *key == "indent".to_string() {
                match parse_positive_int(key.as_str(), option) {
                    Ok(number) => {
                        config.indent = number;
                    },
                    Err(error) => {
                        proof {
                            assert(with_entries(*entries, i + 1) == with_entry(
                                config@,
                                entries[i as int],
                            ));
                            lemma_fault_stays(*entries, i + 1, entries.len() as int);
                        }
                        return Err(error);
                    },
                }
            } else if *key == "line_length".to_string() {
                match parse_positive_int(key.as_str(), option) {
                    Ok(number) => {
                        config.line_length = number;
                    },
                    Err(error) => {
                        proof {
                            assert(with_entries(*entries, i + 1) == with_entry(
                                config@,
                                entries[i as int],
                            ));
                            lemma_fault_stays(*entries, i + 1, entries.len() as int);
                        }
                        return Err(error);
                    },
                }
            } else if *key == "margin".to_string() {
                match parse_positive_int(key.as_str(), option) {
                    Ok(number) => {
                        config.margin = number;
                    },
                    Err(error) => {
                        proof {
                            assert(with_entries(*entries, i + 1) == with_entry(
                                config@,
                                entries[i as int],
                            ));
                            lemma_fault_stays(*entries, i + 1, entries.len() as int);
                        }
                        return Err(error);
                    },
                }
            } else if *key == "exclude".to_string() {
                match parse_string_list(option) {
                    Ok(strings) => {
                        config.excludes = strings;
                    },
                    Err(error) => {
                        proof {
                            assert(with_entries(*entries, i + 1) == with_entry(
                                config@,
                                entries[i as int],
                            ));
                            lemma_fault_stays(*entries, i + 1, entries.len() as int);
                        }
                        return Err(error);
                    },
                }
            } else {
                proof {
                    assert(with_entries(*entries, i + 1) == with_entry(
                        config@,
                        entries[i as int],
                    ));
                    lemma_fault_stays(*entries, i + 1, entries.len() as int);
                }
                return Err(ConfigError::UnknownOption(key.clone()));
            }
            proof {
                assert(with_entries(*entries, i + 1) == with_entry(
                    old_config,
                    entries[i as int],
                ));
            }
            i += 1;
        }
        Ok(config)
    }
}

impl Default for Config {
    fn default() -> (config: Self)
        ensures
            config@ == ConfigModel::default(),
    {
        let config = Self { indent: 4, line_length: 80, margin: 1, excludes: Vec::new() };
        assert(texts(config.excludes@) == Seq::<Seq<char>>::empty());
        config
    }
}

/// A fault among the first `n` entries is the fault of the first `m` for
/// every larger `m`.
pub proof fn lemma_fault_stays(entries: Vec<ConfigEntry>, n: int, m: int)
    requires
        0 <= n <= m <= entries.len(),
        with_entries(entries, n) is Err,
    ensures
        with_entries(entries, m) == with_entries(entries, n),
    decreases m - n,
{
    if n < m {
        lemma_fault_stays(entries, n, m - 1);
    }
}

/// A fault among the first `n` items is the fault of the first `m` for
/// every larger `m`.
pub proof fn lemma_string_fault_stays(items: Vec<ConfigValue>, n: int, m: int)
    requires
        0 <= n <= m <= items.len(),
        strings_upto(items, n) is Err,
    ensures
        strings_upto(items, m) == strings_upto(items, n),
    decreases m - n,
{
    if n < m {
        lemma_string_fault_stays(items, n, m - 1);
    }
}

/// Parses a value as a positive integer.
pub fn parse_positive_int(key: &str, value: &ConfigValue) -> (result: Result<usize, ConfigError>)
    ensures
        match positive_int(key@, *value) {
            Ok(number) => result == Ok::<usize, ConfigError>(number),
            Err(fault) => result matches Err(error) && error.reports(fault),
        },
{
    match &value.data {
        ConfigData::Int(number) => {
            let number: i64 = *number;
            if number <= 0 || number as u64 > usize::MAX as u64 {
                Err(
                    ConfigError::InvalidOptionValue(
                        key.to_string(),
                        number.to_string(),
                        "a positive number",
                    ),
                )
            } else {
                Ok(number as usize)
            }
        },
        _ => Err(
            ConfigError::InvalidOptionType(key.to_string(), value.kind_name.clone(), "number"),
        ),
    }
}

/// Parses a value as a list of strings.
pub fn parse_string_list(value: &ConfigValue) -> (result: Result<Vec<String>, ConfigError>)
    ensures
        match string_list(*value) {
            Ok(strings) => result matches Ok(list) && texts(list@) == strings,
            Err(fault) => result matches Err(error) && error.reports(fault),
        },
{
    let items = match &value.data {
        ConfigData::List(items) => items,
        _ => {
            return Err(
                ConfigError::InvalidOptionType(
                    "excludes".to_string(),
                    value.kind_name.clone(),
                    "list<string>",
                ),
            );
        },
    };
    let mut strings: Vec<String> = Vec::new();
    let mut i: usize = 0;
    assert(texts(strings@) == Seq::<Seq<char>>::empty());
    while i < items.len()
        invariant
            i <= items.len(),
            value.data == ConfigData::List(*items),
            strings_upto(*items, i as int) == Ok::<Seq<Seq<char>>, ConfigFault>(texts(strings@)),
        decreases items.len() - i,
    {
        match &items[i].data {
            ConfigData::String(text) => {
                let ghost before = texts(strings@);
                strings.push(text.clone());
                assert(texts(strings@) == before.push(text@));
            },
            _ => {
                proof {
                    assert(strings_upto(*items, i + 1) is Err);
                    lemma_string_fault_stays(*items, i + 1, items.len() as int);
                }
                return Err(
                    ConfigError::InvalidOptionType(
                        "excludes".to_string(),
                        items[i].kind_name.clone(),
                        "list<string>",
                    ),
                );
            },
        }
        i += 1;
    }
    Ok(strings)
}

/// The configuration that a NUON text describes: that of the value it
/// denotes; a text that is no NUON is an invalid format.
pub open spec fn configured_by(content: Seq<char>) -> Result<ConfigModel, ConfigFault> {
    match nuon_value(content) {
        Some(value) => configured(value),
        None => Err(ConfigFault::InvalidFormat),
    }
}

/// Reads a configuration from NUON text: the text is parsed, and the value
/// it denotes is read as a configuration.
pub fn read_config(content: &str) -> (result: Result<Config, ConfigError>)
    ensures
        agrees(result, configured_by(content@)),
{
    match parse_config_value(content) {
        Some(value) => Config::try_from(value),
        None => Err(ConfigError::InvalidFormat),
    }
}

} // verus!
