//! Configuration data for the service.
//!
//! Loading these values from files or the process environment is an I/O
//! concern and lives outside the library; the types themselves, and the
//! mapping between environment names and their textual form, are plain data.

use vstd::prelude::*;
use vstd::string::StringExecFns;

verus! {

/// The deployment environment the service runs in.
pub enum Environment {
    Local,
    Production,
}

impl Environment {
    /// The canonical name of the environment.
    pub fn as_str(&self) -> (r: &'static str)
        ensures
            r@ == self.spec_name(),
    {
        match self {
            Environment::Local => "local",
            Environment::Production => "production",
        }
    }

    pub open spec fn spec_name(&self) -> Seq<char> {
        match self {
            Environment::Local => "local"@,
            Environment::Production => "production"@,
        }
    }

    /// Parses an environment name; only the two canonical names are accepted.
    pub fn try_from(s: &str) -> (r: Result<Environment, String>)
        ensures
            s@ == "local"@ ==> (r matches Ok(e) && e is Local),
            s@ == "production"@ ==> (r matches Ok(e) && e is Production),
            s@ != "local"@ && s@ != "production"@ ==> r is Err,
    {
        proof {
            reveal_strlit("local");
            reveal_strlit("production");
            assert("local"@.len() == 5);
            assert("production"@.len() == 10);
        }
        let owned = String::from_str(s);
        if owned.eq(&String::from_str("local")) {
            Ok(Environment::Local)
        } else if owned.eq(&String::from_str("production")) {
            Ok(Environment::Production)
        } else {
            Err(String::from_str("unsupported environment; use `local` or `production`"))
        }
    }
}

/// Verbosity levels for the service's logging, in increasing order of noise.
pub enum LogLevel {
    Off,
    Trace,
    Debug,
    Info,
    Warn,
    Error,
}

impl LogLevel {
    /// The lowercase name of the level.
    pub fn as_str(&self) -> (r: &'static str)
        ensures
            r@ == self.spec_name(),
    {
        match self {
            LogLevel::Off => "off",
            LogLevel::Trace => "trace",
            LogLevel::Debug => "debug",
            LogLevel::Info => "info",
            LogLevel::Warn => "warn",
            LogLevel::Error => "error",
        }
    }

    pub open spec fn spec_name(&self) -> Seq<char> {
        match self {
            LogLevel::Off => "off"@,
            LogLevel::Trace => "trace"@,
            LogLevel::Debug => "debug"@,
            LogLevel::Info => "info"@,
            LogLevel::Warn => "warn"@,
            LogLevel::Error => "error"@,
        }
    }
}

impl Default for LogLevel {
    fn default() -> (r: Self)
        ensures
            r is Info,
    {
        LogLevel::Info
    }
}

/// Output formats for the service's logging.
pub enum Format {
    Compact,
    Pretty,
    Json,
}

impl Format {
    /// The lowercase name of the format.
    pub fn as_str(&self) -> (r: &'static str)
        ensures
            r@ == self.spec_name(),
    {
        match self {
            Format::Compact => "compact",
            Format::Pretty => "pretty",
            Format::Json => "json",
        }
    }

    pub open spec fn spec_name(&self) -> Seq<char> {
        match self {
            Format::Compact => "compact"@,
            Format::Pretty => "pretty"@,
            Format::Json => "json"@,
        }
    }
}

impl Default for Format {
    fn default() -> (r: Self)
        ensures
            r is Compact,
    {
        Format::Compact
    }
}

/// Where the HTTP listener binds.
pub struct ApplicationSettings {
    pub host: String,
    pub port: u16,
}

/// The token service's long-lived secret and the lifetime of issued tokens.
pub struct AuthSettings {
    pub secret: String,
    pub expiration: u64,
}

/// Connection parameters of the backing store.
pub struct DatabaseSettings {
    pub username: String,
    pub password: String,
    pub port: u16,
    pub host: String,
    pub database_name: String,
}

/// Logging verbosity and format.
pub struct LoggerSettings {
    pub pretty_backtrace: bool,
    pub level: LogLevel,
    pub format: Format,
}

/// The full configuration of one service instance.
pub struct Settings {
    pub application: ApplicationSettings,
    pub auth: AuthSettings,
    pub database: DatabaseSettings,
    pub logger: LoggerSettings,
}

} // verus!
