use vstd::prelude::*;

verus! {

/// Process-wide configuration, fixed after startup: the signing secret and
/// the connection settings of the credential store.
#[derive(Debug, Clone)]
pub struct Config {
    pub debug: bool,
    pub secret_key: String,
    pub postgres_host: String,
    pub postgres_database: String,
    pub postgres_username: String,
    pub postgres_password: String,
    pub postgres_port: u16,
    pub postgres_max_connections: u32,
}

} // verus!
