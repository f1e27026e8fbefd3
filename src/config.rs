//! The settings the server starts with, and key-value settings of the
//! mini program.
use vstd::prelude::*;

verus! {

/// All settings of the server.
pub struct Configs {
    pub server: Server,
    pub database: Database,
    pub jwt: Jwt,
    pub log: Log,
    pub weihuda: Weihuda,
}

/// Where the server listens.
pub struct Server {
    pub address: String,
}

/// The database connection.
pub struct Database {
    pub max_connections: u32,
    pub database_url: String,
}

/// Token signing.
pub struct Jwt {
    pub secret: String,
}

/// Logging.
pub struct Log {
    pub filter_level: String,
    pub with_ansi: bool,
    pub to_stdout: bool,
    pub directory: String,
    pub file_name: String,
    pub rolling: String,
}

/// The campus service that signs users in.
pub struct Weihuda {
    pub api_url: String,
}

/// A key-value setting of the mini program.
pub struct MiniConfig {
    pub key: String,
    pub value: String,
}

} // verus!
