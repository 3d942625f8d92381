//! The configuration of the program.

use crate::text::{all_digits, decimal_value, joined, law_unsigned_texts, parse_unsigned,
    unsigned_error_text, unsigned_of_text};
use vstd::prelude::*;

verus! {

/// How often the rules are read again where nothing says otherwise, in seconds.
pub const DEFAULT_REFRESH_INTERVAL_SECS: u64 = 60;

/// Why there is no configuration.
#[derive(Debug)]
pub enum ConfigError {
    Generic(String),
}

impl ConfigError {
    /// The message of the error.
    pub open spec fn message(self) -> Seq<char> {
        match self {
            ConfigError::Generic(message) => message@,
        }
    }

    /// The text of the error.
    pub fn to_string(&self) -> (r: String)
        ensures
            r@ == "Configuration error: "@ + self.message(),
    {
        match self {
            ConfigError::Generic(message) => joined("Configuration error: ", message.as_str()),
        }
    }
}

/// The configuration of the program.
#[derive(Debug, Clone)]
pub struct Config {
    pub database_url: String,
    pub amqp_url: String,
    pub log_level: String,
    pub rules_refresh_interval_secs: u64,
}

/// The model of `Config`.
pub struct ConfigView {
    pub database_url: Seq<char>,
    pub amqp_url: Seq<char>,
    pub log_level: Seq<char>,
    pub rules_refresh_interval_secs: u64,
}

impl View for Config {
    type V = ConfigView;

    open spec fn view(&self) -> ConfigView {
        ConfigView {
            database_url: self.database_url@,
            amqp_url: self.amqp_url@,
            log_level: self.log_level@,
            rules_refresh_interval_secs: self.rules_refresh_interval_secs,
        }
    }
}

/// The environment variables that the configuration is made of: each of the first
/// three with its value or why it has none, the last with its value where it has
/// one.
#[derive(Debug)]
pub struct Variables {
    pub database_url: Result<String, String>,
    pub amqp_url: Result<String, String>,
    pub log_level: Result<String, String>,
    pub rules_refresh_interval_secs: Option<String>,
}

/// The interval that a variable sets, or why its value sets none.
pub open spec fn interval_of(value: Option<String>) -> Result<u64, Seq<char>> {
    match value {
        None => Ok(DEFAULT_REFRESH_INTERVAL_SECS),
        Some(text) => match unsigned_of_text(text@) {
            Some(secs) => Ok(secs),
            None => Err(unsigned_error_text(text@)),
        },
    }
}

impl Variables {
    /// The configuration that the variables make, or the message about the first of
    /// them that stands against it.
    pub open spec fn config(self) -> Result<ConfigView, Seq<char>> {
        match self.database_url {
            Err(e) => Err("DATABASE_URL: "@ + e@),
            Ok(database_url) => match self.amqp_url {
                Err(e) => Err("AMQP_URL: "@ + e@),
                Ok(amqp_url) => match self.log_level {
                    Err(e) => Err("RUST_LOG: "@ + e@),
                    Ok(log_level) => match interval_of(self.rules_refresh_interval_secs) {
                        Err(e) => Err("RULES_REFRESH_INTERVAL_SECS: "@ + e),
                        Ok(secs) => Ok(
                            ConfigView {
                                database_url: database_url@,
                                amqp_url: amqp_url@,
                                log_level: log_level@,
                                rules_refresh_interval_secs: secs,
                            },
                        ),
                    },
                },
            },
        }
    }
}

impl Config {
    /// The configuration that the environment variables make.
    pub fn from_variables(variables: Variables) -> (r: Result<Config, ConfigError>)
        ensures
            match r {
                Ok(config) => variables.config() == Ok::<ConfigView, Seq<char>>(config@),
                Err(e) => variables.config() == Err::<ConfigView, Seq<char>>(e.message()),
            },
            r matches Ok(config) ==> {
                &&& variables.database_url matches Ok(value) && config.database_url@ == value@
                &&& variables.amqp_url matches Ok(value) && config.amqp_url@ == value@
                &&& variables.log_level matches Ok(value) && config.log_level@ == value@
                &&& variables.rules_refresh_interval_secs is None
                    ==> config.rules_refresh_interval_secs == 60
                &&& variables.rules_refresh_interval_secs matches Some(text) ==> unsigned_of_text(
                    text@,
                ) == Some(config.rules_refresh_interval_secs)
            },
    {
        let database_url = match variables.database_url {
            Ok(value) => value,
            Err(e) => return Err(ConfigError::Generic(joined("DATABASE_URL: ", e.as_str()))),
        };
        let amqp_url = match variables.amqp_url {
            Ok(value) => value,
            Err(e) => return Err(ConfigError::Generic(joined("AMQP_URL: ", e.as_str()))),
        };
        let log_level = match variables.log_level {
            Ok(value) => value,
            Err(e) => return Err(ConfigError::Generic(joined("RUST_LOG: ", e.as_str()))),
        };
        let rules_refresh_interval_secs: u64 = match variables.rules_refresh_interval_secs {
            None => DEFAULT_REFRESH_INTERVAL_SECS,
            Some(text) => match parse_unsigned(text.as_str()) {
                Ok(secs) => secs,
                Err(e) => return Err(
                    ConfigError::Generic(joined("RULES_REFRESH_INTERVAL_SECS: ", e.as_str())),
                ),
            },
        };
        Ok(Config { database_url, amqp_url, log_level, rules_refresh_interval_secs })
    }
}

/// The variables make a configuration exactly where the first three are there and the
/// interval, if it is set, is an unsigned number; it then holds their values as they
/// are, and a minute where no interval is set.
pub proof fn law_configurations(variables: Variables)
    ensures
        variables.config() is Ok <==> {
            &&& variables.database_url is Ok
            &&& variables.amqp_url is Ok
            &&& variables.log_level is Ok
            &&& variables.rules_refresh_interval_secs matches Some(text) ==> unsigned_of_text(
                text@,
            ) is Some
        },
        variables.config() matches Ok(config) ==> {
            &&& variables.database_url matches Ok(value) && config.database_url == value@
            &&& variables.amqp_url matches Ok(value) && config.amqp_url == value@
            &&& variables.log_level matches Ok(value) && config.log_level == value@
            &&& variables.rules_refresh_interval_secs is None
                ==> config.rules_refresh_interval_secs == 60
            &&& variables.rules_refresh_interval_secs matches Some(text) ==> unsigned_of_text(text@)
                == Some(config.rules_refresh_interval_secs)
        },
{
}

/// An interval that is set in digits is that number of seconds, for every number that
/// fits.
pub proof fn law_intervals_are_numbers(text: String)
    requires
        text@.len() > 0,
        forall|i: int| 0 <= i < text@.len() ==> '0' <= #[trigger] text@[i] <= '9',
        decimal_value(text@) <= 0xffff_ffff_ffff_ffff,
    ensures
        interval_of(Some(text)) matches Ok(secs) && secs == decimal_value(text@),
{
    assert(all_digits(text@));
    law_unsigned_texts(text@, text@);
}

/// The first variable that stands against a configuration is told of, by its name and
/// with the whole reason.
pub proof fn law_the_first_variable_is_told(variables: Variables)
    ensures
        variables.database_url matches Err(e) ==> (variables.config() matches Err(told) && told
            =~= "DATABASE_URL: "@ + e@),
        variables.database_url is Ok ==> (variables.amqp_url matches Err(e) ==> (variables.config()
            matches Err(told) && told =~= "AMQP_URL: "@ + e@)),
        variables.database_url is Ok && variables.amqp_url is Ok ==> (variables.log_level
            matches Err(e) ==> (variables.config() matches Err(told) && told =~= "RUST_LOG: "@
            + e@)),
        variables.database_url is Ok && variables.amqp_url is Ok && variables.log_level is Ok ==> (
        variables.rules_refresh_interval_secs matches Some(text) ==> (unsigned_of_text(
            text@,
        ) is None ==> (variables.config() matches Err(told) && told
            =~= "RULES_REFRESH_INTERVAL_SECS: "@ + unsigned_error_text(text@)))),
{
}

/// The model of a configuration keeps each of its fields in its place, and an error's
/// message is the error's.
pub proof fn law_models_keep_configurations(config: Config, error: ConfigError)
    ensures
        config@.database_url == config.database_url@,
        config@.amqp_url == config.amqp_url@,
        config@.log_level == config.log_level@,
        config@.rules_refresh_interval_secs == config.rules_refresh_interval_secs,
        error matches ConfigError::Generic(message) && error.message() == message@,
{
}

} // verus!
