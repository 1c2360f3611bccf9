//! Server configuration: its defaults and the values derived from it.
use vstd::prelude::*;

verus! {

/// Where the configuration is read from when no path is given.
pub const DEFAULT_CONFIG_PATH: &'static str = "/etc/arcticwolf/config.toml";

/// Command-line options.
#[derive(Debug, Clone)]
pub struct Cli {
    /// Path to the configuration file.
    pub config: Option<String>,
}

#[derive(Debug, Clone)]
pub struct Config {
    pub server: ServerConfig,
    pub fsal: FsalConfig,
    pub logging: LoggingConfig,
}

#[derive(Debug, Clone)]
pub struct ServerConfig {
    pub bind_address: String,
    pub port: u16,
}

#[derive(Debug, Clone)]
pub struct FsalConfig {
    pub backend: String,
    pub export_path: String,
}

#[derive(Debug, Clone)]
pub struct LoggingConfig {
    /// Log level; when unset, the environment's level, then "info".
    pub level: Option<String>,
}

impl Default for ServerConfig {
    fn default() -> (r: Self)
        ensures
            r.bind_address@ == "0.0.0.0"@,
            r.port == 4000,
    {
        ServerConfig { bind_address: "0.0.0.0".to_owned(), port: 4000 }
    }
}

impl Default for FsalConfig {
    fn default() -> (r: Self)
        ensures
            r.backend@ == "local"@,
            r.export_path@ == "/tmp/nfs_exports"@,
    {
        FsalConfig { backend: "local".to_owned(), export_path: "/tmp/nfs_exports".to_owned() }
    }
}

impl Default for LoggingConfig {
    fn default() -> (r: Self)
        ensures
            r.level is None,
    {
        LoggingConfig { level: None }
    }
}

impl Default for Config {
    fn default() -> (r: Self)
        ensures
            r.server.bind_address@ == "0.0.0.0"@,
            r.server.port == 4000,
            r.fsal.backend@ == "local"@,
            r.fsal.export_path@ == "/tmp/nfs_exports"@,
            r.logging.level is None,
    {
        Config {
            server: ServerConfig::default(),
            fsal: FsalConfig::default(),
            logging: LoggingConfig::default(),
        }
    }
}

/// The decimal digits of `n`, without leading zeros.
pub open spec fn decimal(n: nat) -> Seq<char>
    decreases n,
{
    let digits = seq!['0', '1', '2', '3', '4', '5', '6', '7', '8', '9'];
    if n < 10 {
        seq![digits[n as int]]
    } else {
        decimal(n / 10) + seq![digits[(n % 10) as int]]
    }
}

/// Relies on `format!`: a string is written as it is, an integer as its
/// decimal digits.
#[verifier::external_body]
fn host_port(host: &str, port: u16) -> (r: String)
    ensures
        r@ == host@ + seq![':'] + decimal(port as nat),
{
    format!("{}:{}", host, port)
}

impl LoggingConfig {
    /// The log level: the configured one, else the one the environment
    /// gives (`env_level`), else "info".
    pub fn effective_level(&self, env_level: Option<String>) -> (r: String)
        ensures
            match self.level {
                Some(l) => r@ == l@,
                None => match env_level {
                    Some(e) => r@ == e@,
                    None => r@ == "info"@,
                },
            },
    {
        match &self.level {
            Some(level) => level.clone(),
            None => match env_level {
                Some(e) => e,
                None => "info".to_owned(),
            },
        }
    }
}

impl Config {
    /// The address to listen on, as `host:port`.
    pub fn bind_addr(&self) -> (r: String)
        ensures
            r@ == self.server.bind_address@ + seq![':'] + decimal(self.server.port as nat),
    {
        host_port(self.server.bind_address.as_str(), self.server.port)
    }

    /// The configuration file to read, and whether it was asked for on the
    /// command line (then a missing file is an error, not a reason to use
    /// the defaults).
    pub fn source(cli: &Cli) -> (r: (String, bool))
        ensures
            match cli.config {
                Some(p) => r.0@ == p@ && r.1,
                None => r.0@ == DEFAULT_CONFIG_PATH@ && !r.1,
            },
    {
        match &cli.config {
            Some(p) => (p.clone(), true),
            None => (DEFAULT_CONFIG_PATH.to_owned(), false),
        }
    }
}

} // verus!
