//! Errors raised while establishing the configuration.

use vstd::prelude::*;
use vstd::string::{to_string_from_display_ensures, StringExecFns};

verus! {

#[derive(Clone, Debug, PartialEq, Eq)]
pub enum ConfigError {
    /// The configuration file could not be read; holds the reason.
    IOError(String),
    /// The configuration is no record.
    InvalidFormat,
    /// The configuration names an option that does not exist.
    UnknownOption(String),
    /// An option has a value of the wrong type: the option, the type found,
    /// the type expected.
    InvalidOptionType(String, String, &'static str),
    /// An option has a value that is not allowed: the option, the value
    /// found, what was expected.
    InvalidOptionValue(String, String, &'static str),
    /// An exclude pattern is no valid glob.
    InvalidExcludePattern,
}

/// What is wrong with a configuration, in mathematical terms.
pub enum ConfigFault {
    /// The configuration is no record.
    InvalidFormat,
    /// An option that does not exist.
    UnknownOption(Seq<char>),
    /// A value of the wrong type.
    WrongType { option: Seq<char>, found: Seq<char>, expected: Seq<char> },
    /// A number that is not positive, or too large for this machine.
    WrongNumber { option: Seq<char>, number: i64 },
}

impl ConfigError {
    /// Whether this error reports `fault`. A number is reported as `Display`
    /// writes it.
    pub open spec fn reports(self, fault: ConfigFault) -> bool {
        match fault {
            ConfigFault::InvalidFormat => self is InvalidFormat,
            ConfigFault::UnknownOption(option) => self matches ConfigError::UnknownOption(o) && o@
                == option,
            ConfigFault::WrongType { option, found, expected } => {
                &&& self matches ConfigError::InvalidOptionType(o, f, e)
                &&& o@ == option
                &&& f@ == found
                &&& e@ == expected
            },
            ConfigFault::WrongNumber { option, number } => {
                &&& self matches ConfigError::InvalidOptionValue(o, f, e)
                &&& o@ == option
                &&& to_string_from_display_ensures::<i64>(&number, f)
                &&& e@ == "a positive number"@
            },
        }
    }

    /// The text of the message for this error.
    pub open spec fn message_text(self) -> Seq<char> {
        match self {
            ConfigError::IOError(reason) => "Failed read the configuration file: "@ + reason@,
            ConfigError::InvalidFormat => "The configuration is not a valid nuon record"@,
            ConfigError::UnknownOption(option) => "Found unknown configuration option: "@
                + option@,
            ConfigError::InvalidOptionType(option, found, expected) =>
                "Found invalid type for option '"@ + option@ + "': got "@ + found@
                    + ", expected "@ + expected@,
            ConfigError::InvalidOptionValue(option, found, expected) =>
                "Found invalid value for option '"@ + option@ + "': got "@ + found@
                    + ", expected "@ + expected@,
            ConfigError::InvalidExcludePattern => "Found an invalid exclude pattern"@,
        }
    }

    /// The message shown to the user.
    pub fn message(&self) -> (text: String)
        ensures
            text@ == self.message_text(),
    {
        match self {
            ConfigError::IOError(reason) => concat(
                "Failed read the configuration file: ",
                reason.as_str(),
            ),
            ConfigError::InvalidFormat => {
                "The configuration is not a valid nuon record".to_string()
            },
            ConfigError::UnknownOption(option) => concat(
                "Found unknown configuration option: ",
                option.as_str(),
            ),
            ConfigError::InvalidOptionType(option, found, expected) => {
                let a = concat("Found invalid type for option '", option.as_str());
                let b = concat(a.as_str(), "': got ");
                let c = concat(b.as_str(), found.as_str());
                let d = concat(c.as_str(), ", expected ");
                concat(d.as_str(), expected)
            },
            ConfigError::InvalidOptionValue(option, found, expected) => {
                let a = concat("Found invalid value for option '", option.as_str());
                let b = concat(a.as_str(), "': got ");
                let c = concat(b.as_str(), found.as_str());
                let d = concat(c.as_str(), ", expected ");
                concat(d.as_str(), expected)
            },
            ConfigError::InvalidExcludePattern => "Found an invalid exclude pattern".to_string(),
        }
    }
}

/// The first string followed by the second.
pub(crate) fn concat(first: &str, second: &str) -> (joined: String)
    ensures
        joined@ == first@ + second@,
{
    first.to_owned().concat(second)
}

} // verus!
