//! Application configuration: where the database file lives.

use vstd::prelude::*;
use vstd::string::StringExecFns;

verus! {

/// Directory, under the application data directory, that holds databases.
pub const SQLITE_LOCAL_PATH: &'static str = "databases";

/// Name of the database file.
pub const SQLITE_FILE: &'static str = "data.db";

/// Where the SQLite database file lives.
pub struct SqtliteConfig {
    pub db_path: String,
}

/// Application configuration derived from the per-user data directory.
pub struct Config {
    pub app_config_dir: String,
    pub sqlite: SqtliteConfig,
}

impl SqtliteConfig {
    /// Joins the data directory, the database directory and the file name
    /// into the database file's path.
    pub fn from(app_config_dir: String) -> (r: SqtliteConfig)
        ensures
            r.db_path@ == app_config_dir@ + "/"@ + SQLITE_LOCAL_PATH@ + "/"@
                + SQLITE_FILE@,
    {
        let db_path = app_config_dir.concat("/").concat(SQLITE_LOCAL_PATH).concat(
            "/",
        ).concat(SQLITE_FILE);
        SqtliteConfig { db_path }
    }
}

impl Config {
    /// Builds the configuration for a given application data directory.
    pub fn from(app_config_dir: String) -> (r: Config)
        ensures
            r.app_config_dir@ == app_config_dir@,
            r.sqlite.db_path@ == app_config_dir@ + "/"@ + SQLITE_LOCAL_PATH@ + "/"@
                + SQLITE_FILE@,
    {
        let sqlite = SqtliteConfig::from(app_config_dir.clone());
        Config { app_config_dir, sqlite }
    }
}

} // verus!
