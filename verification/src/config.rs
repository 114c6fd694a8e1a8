//! The settings the service needs before it can start.

use vstd::prelude::*;
use crate::error::ServiceError;

verus! {

/// The name of the setting that holds the connection string of the store.
pub const DATABASE_URL: &'static str = "DATABASE_URL";

/// The name of the setting that holds the address to listen on, as
/// `host:port`.
pub const LISTEN_ADDRESS: &'static str = "LISTEN_ADDRESS";

/// The settings of a service that may start.
#[derive(Clone, Debug, PartialEq, Eq)]
pub struct Config {
    pub database_url: String,
    pub listen_address: String,
}

impl Config {
    /// Builds the configuration from the values that were found under
    /// [`DATABASE_URL`] and [`LISTEN_ADDRESS`].
    ///
    /// Both are required: with both present the configuration holds them
    /// unchanged, and with either one absent the result is `ConfigError`.
    pub fn from_values(database_url: Option<String>, listen_address: Option<String>) -> (config:
        Result<Config, ServiceError>)
        ensures
            match (database_url, listen_address) {
                (Some(url), Some(address)) => config matches Ok(c) && c.database_url@ == url@
                    && c.listen_address@ == address@,
                _ => config == Err::<Config, ServiceError>(ServiceError::ConfigError),
            },
    {
        match (database_url, listen_address) {
            (Some(database_url), Some(listen_address)) => Ok(
                Config { database_url, listen_address },
            ),
            _ => Err(ServiceError::ConfigError),
        }
    }
}

} // verus!
