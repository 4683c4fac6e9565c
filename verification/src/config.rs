//! The startup configuration of the service.
//!
//! Reading the environment and the command line happens outside the
//! library; the assembled values are carried in this plain struct.

use vstd::prelude::*;

verus! {

/// Everything the service needs at startup.
#[derive(Debug, Clone)]
pub struct Config {
    /// Log level (info, warn, or error).
    pub log_level: String,
    /// Web server port.
    pub port: u16,
    /// Database user.
    pub db_user: String,
    /// Database password.
    pub db_password: String,
    /// Host of the postgres database.
    pub db_host: String,
    /// Port number for the database connection.
    pub db_port: u16,
    /// Database name.
    pub db_name: String,
}

} // verus!
