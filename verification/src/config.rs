//! Configuration of the persistence layer.

use vstd::prelude::*;
use vstd::string::*;

verus! {

/// The connection string used when none is configured: a local file-backed store.
pub open spec fn default_database_url() -> Seq<char> {
    "sqlite://./data.db"@
}

/// Where the persistence layer connects to.
#[derive(Debug, Clone)]
pub struct DatabaseConfig {
    pub database_url: String,
}

impl DatabaseConfig {
    /// A configuration with a custom connection string.
    pub fn new(database_url: String) -> (config: Self)
        ensures
            config.database_url == database_url,
    {
        Self { database_url }
    }

    /// The configuration for a looked-up `DATABASE_URL` setting: the setting
    /// where there is one, the default connection string where there is none.
    pub fn from_setting(setting: Option<String>) -> (config: Self)
        ensures
            setting matches Some(url) ==> config.database_url == url,
            setting is None ==> config.database_url@ == default_database_url(),
    {
        match setting {
            Some(database_url) => Self { database_url },
            None => Self::default(),
        }
    }
}

impl Default for DatabaseConfig {
    fn default() -> (config: Self)
        ensures
            config.database_url@ == default_database_url(),
    {
        Self { database_url: "sqlite://./data.db".to_string() }
    }
}

} // verus!
