//! The values a configuration is read from.

use vstd::prelude::*;

verus! {

/// What a configuration value holds.
#[derive(Debug)]
pub enum ConfigData {
    Nothing,
    Int(i64),
    String(String),
    List(Vec<ConfigValue>),
    Record(Vec<ConfigEntry>),
    /// A value of a kind that no option takes.
    Other,
}

/// A configuration value and the name of its type.
#[derive(Debug)]
pub struct ConfigValue {
    pub data: ConfigData,
    pub kind_name: String,
}

/// An entry of a record: an option and its value.
#[derive(Debug)]
pub struct ConfigEntry {
    pub key: String,
    pub value: ConfigValue,
}

} // verus!
