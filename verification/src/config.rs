//! The settings of the process.
//!
//! They are handed in as the texts that the environment holds, read once
//! at start, and kept as one value that is passed on by reference. Nothing
//! here looks at the environment itself.

use crate::numeric::{chars_of, read_unsigned, unsigned_of};
use vstd::prelude::*;

verus! {

/// The settings of the process.
#[derive(Debug, Clone)]
pub struct AppConfig {
    pub port: u16,
    pub host: String,
    /// The time that a request may take, in seconds.
    pub request_timeout_secs: u64,
    pub database_url: String,
    pub db_max_connections: u32,
}

/// The variables that the settings come from, in the order in which they
/// are looked at.
#[derive(Clone, Copy, Debug, PartialEq, Eq, Structural)]
pub enum Variable {
    Port,
    Host,
    RequestTimeout,
    DatabaseUrl,
    DbMaxConnections,
}

/// The variables that hold a number.
#[derive(Clone, Copy, Debug, PartialEq, Eq, Structural)]
pub enum Number {
    Port,
    RequestTimeout,
    DbMaxConnections,
}

/// Why the settings could not be made.
#[derive(Clone, Copy, Debug, PartialEq, Eq, Structural)]
pub enum ConfigError {
    /// The environment holds nothing under the variable.
    NotFound(Variable),
    /// What it holds under the variable is no number of the kind asked for.
    Invalid(Number),
}

/// What the environment holds under each variable.
#[derive(Debug)]
pub struct Environment {
    pub port: Option<String>,
    pub host: Option<String>,
    pub request_timeout: Option<String>,
    pub database_url: Option<String>,
    pub db_max_connections: Option<String>,
}

impl Variable {
    /// The name of the variable in the environment.
    pub open spec fn name_text(self) -> Seq<char> {
        match self {
            Variable::Port => "APP_PORT"@,
            Variable::Host => "APP_HOST"@,
            Variable::RequestTimeout => "REQUEST_TIMEOUT"@,
            Variable::DatabaseUrl => "DATABASE_URL"@,
            Variable::DbMaxConnections => "DB_MAX_CONNECTIONS"@,
        }
    }

    /// The name of the variable in the environment.
    pub fn name(self) -> (name: &'static str)
        ensures
            name@ == self.name_text(),
    {
        match self {
            Variable::Port => "APP_PORT",
            Variable::Host => "APP_HOST",
            Variable::RequestTimeout => "REQUEST_TIMEOUT",
            Variable::DatabaseUrl => "DATABASE_URL",
            Variable::DbMaxConnections => "DB_MAX_CONNECTIONS",
        }
    }
}

impl Number {
    /// The variable that holds the number.
    pub open spec fn variable_of(self) -> Variable {
        match self {
            Number::Port => Variable::Port,
            Number::RequestTimeout => Variable::RequestTimeout,
            Number::DbMaxConnections => Variable::DbMaxConnections,
        }
    }

    /// What is said of a text that is no such number.
    pub open spec fn demand_text(self) -> Seq<char> {
        match self {
            Number::Port => " value must be a valid u16 number"@,
            Number::RequestTimeout => " value must be a valid u64 number"@,
            Number::DbMaxConnections => " value must be a valid u32 number"@,
        }
    }

    /// The variable that holds the number.
    pub fn variable(self) -> (variable: Variable)
        ensures
            variable == self.variable_of(),
    {
        match self {
            Number::Port => Variable::Port,
            Number::RequestTimeout => Variable::RequestTimeout,
            Number::DbMaxConnections => Variable::DbMaxConnections,
        }
    }

    /// What is said of a text that is no such number.
    pub fn demand(self) -> (text: &'static str)
        ensures
            text@ == self.demand_text(),
    {
        match self {
            Number::Port => " value must be a valid u16 number",
            Number::RequestTimeout => " value must be a valid u64 number",
            Number::DbMaxConnections => " value must be a valid u32 number",
        }
    }
}

impl ConfigError {
    /// The words in which the fault is reported.
    pub open spec fn message_text(self) -> Seq<char> {
        match self {
            ConfigError::NotFound(variable) => "Not Found "@ + variable.name_text(),
            ConfigError::Invalid(number) => number.variable_of().name_text() + number.demand_text(),
        }
    }

    /// The words in which the fault is reported.
    pub fn message(self) -> (text: String)
        ensures
            text@ == self.message_text(),
    {
        match self {
            ConfigError::NotFound(variable) => "Not Found ".to_owned().concat(variable.name()),
            ConfigError::Invalid(number) => number.variable().name().to_owned().concat(
                number.demand(),
            ),
        }
    }
}

/// The number that `text` writes, if it writes one of at most `max`.
fn number_of(text: &str, max: u64) -> (r: Option<u64>)
    ensures
        r == match unsigned_of(text@, max as nat) {
            Some(m) => Some(m as u64),
            None => None,
        },
{
    let chars = chars_of(text);
    read_unsigned(&chars, max)
}

/// The first variable that stands in the way of the settings, if any: in
/// the order port, host, request timeout, database URL, connection limit,
/// a variable is at fault where the environment holds nothing under it, or
/// holds no number where one is asked for.
pub open spec fn first_fault(env: Environment) -> Option<ConfigError> {
    if env.port is None {
        Some(ConfigError::NotFound(Variable::Port))
    } else if unsigned_of(env.port.unwrap()@, u16::MAX as nat) is None {
        Some(ConfigError::Invalid(Number::Port))
    } else if env.host is None {
        Some(ConfigError::NotFound(Variable::Host))
    } else if env.request_timeout is None {
        Some(ConfigError::NotFound(Variable::RequestTimeout))
    } else if unsigned_of(env.request_timeout.unwrap()@, u64::MAX as nat) is None {
        Some(ConfigError::Invalid(Number::RequestTimeout))
    } else if env.database_url is None {
        Some(ConfigError::NotFound(Variable::DatabaseUrl))
    } else if env.db_max_connections is None {
        Some(ConfigError::NotFound(Variable::DbMaxConnections))
    } else if unsigned_of(env.db_max_connections.unwrap()@, u32::MAX as nat) is None {
        Some(ConfigError::Invalid(Number::DbMaxConnections))
    } else {
        None
    }
}

impl AppConfig {
    /// The settings hold what the environment gives.
    pub open spec fn reflects(&self, env: Environment) -> bool {
        &&& unsigned_of(env.port.unwrap()@, u16::MAX as nat) == Some(self.port as nat)
        &&& self.host@ == env.host.unwrap()@
        &&& unsigned_of(env.request_timeout.unwrap()@, u64::MAX as nat) == Some(
            self.request_timeout_secs as nat,
        )
        &&& self.database_url@ == env.database_url.unwrap()@
        &&& unsigned_of(env.db_max_connections.unwrap()@, u32::MAX as nat) == Some(
            self.db_max_connections as nat,
        )
    }

    /// Makes the settings from what the environment holds.
    ///
    /// Numbers are read as plain unsigned decimals: an optional `+`, then
    /// digits, within the range of the field. The first variable at fault
    /// is reported; without a fault the settings hold what was given.
    pub fn from_environment(env: &Environment) -> (r: Result<AppConfig, ConfigError>)
        ensures
            match first_fault(*env) {
                Some(fault) => r == Err::<AppConfig, ConfigError>(fault),
                None => r is Ok && r.unwrap().reflects(*env),
            },
    {
        let port = match &env.port {
            None => {
                return Err(ConfigError::NotFound(Variable::Port));
            },
            Some(text) => match number_of(text.as_str(), 65535) {
                Some(v) => v as u16,
                None => {
                    return Err(ConfigError::Invalid(Number::Port));
                },
            },
        };
        let host = match &env.host {
            None => {
                return Err(ConfigError::NotFound(Variable::Host));
            },
            Some(text) => text.clone(),
        };
        let request_timeout_secs = match &env.request_timeout {
            None => {
                return Err(ConfigError::NotFound(Variable::RequestTimeout));
            },
            Some(text) => match number_of(text.as_str(), u64::MAX) {
                Some(v) => v,
                None => {
                    return Err(ConfigError::Invalid(Number::RequestTimeout));
                },
            },
        };
        let database_url = match &env.database_url {
            None => {
                return Err(ConfigError::NotFound(Variable::DatabaseUrl));
            },
            Some(text) => text.clone(),
        };
        let db_max_connections = match &env.db_max_connections {
            None => {
                return Err(ConfigError::NotFound(Variable::DbMaxConnections));
            },
            Some(text) => match number_of(text.as_str(), 4294967295) {
                Some(v) => v as u32,
                None => {
                    return Err(ConfigError::Invalid(Number::DbMaxConnections));
                },
            },
        };
        Ok(AppConfig { port, host, request_timeout_secs, database_url, db_max_connections })
    }
}

} // verus!
