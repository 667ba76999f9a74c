//! Process configuration. The I/O shell reads the environment and hands the
//! raw values here; parsing and defaulting are decided in the library.

use vstd::prelude::*;

verus! {

/// The submission HTTP port used when the environment names none, or names
/// one that does not parse.
pub const DEFAULT_SERVER_PORT: u16 = 8080;

/// Connection strings and the port the server binds.
pub struct Config {
    pub database_url: String,
    pub rabbitmq_url: String,
    pub server_port: u16,
}

impl Config {
    /// Builds the configuration from the raw environment values. The port is
    /// whatever the environment parsed to, or the default where it gave none.
    pub fn new(database_url: String, rabbitmq_url: String, server_port: Option<u16>) -> (r: Config)
        ensures
            r.database_url@ == database_url@,
            r.rabbitmq_url@ == rabbitmq_url@,
            r.server_port == spec_port_or_default(server_port),
    {
        let port = match server_port {
            Some(p) => p,
            None => DEFAULT_SERVER_PORT,
        };
        Config { database_url: database_url, rabbitmq_url: rabbitmq_url, server_port: port }
    }
}

/// The port to bind: the parsed value, else the default.
pub open spec fn spec_port_or_default(p: Option<u16>) -> u16 {
    match p {
        Option::Some(v) => v,
        Option::None => DEFAULT_SERVER_PORT,
    }
}

} // verus!
