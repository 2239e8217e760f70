//! The configuration, its business rules and its summary.

use crate::error::ConfigError;
use crate::features::{enabled_names, FeatureFlags};
use crate::text::{is_blank, text_contains, text_eq, text_is_blank};
use vstd::prelude::*;
use vstd::string::StringExecFns;

verus! {

/// How to reach the server.
#[derive(Debug)]
pub struct ServerConfig {
    pub host: String,
    pub port: u16,
    pub enable_ssl: bool,
}

/// A server section as a plain value.
pub struct ServerConfigView {
    pub host: Seq<char>,
    pub port: u16,
    pub enable_ssl: bool,
}

impl View for ServerConfig {
    type V = ServerConfigView;

    open spec fn view(&self) -> ServerConfigView {
        ServerConfigView { host: self.host@, port: self.port, enable_ssl: self.enable_ssl }
    }
}

impl Clone for ServerConfig {
    fn clone(&self) -> (copy: ServerConfig)
        ensures
            copy@ == self@,
    {
        ServerConfig { host: self.host.clone(), port: self.port, enable_ssl: self.enable_ssl }
    }
}

impl PartialEq for ServerConfig {
    fn eq(&self, other: &ServerConfig) -> (same: bool) {
        self.host == other.host && self.port == other.port && self.enable_ssl == other.enable_ssl
    }
}

impl vstd::std_specs::cmp::PartialEqSpecImpl for ServerConfig {
    open spec fn obeys_eq_spec() -> bool {
        true
    }

    open spec fn eq_spec(&self, other: &ServerConfig) -> bool {
        self@ == other@
    }
}

/// How to reach the database.
#[derive(Debug)]
pub struct DatabaseConfig {
    pub connection_string: String,
    pub pool_size: u32,
    pub timeout_seconds: u64,
}

/// A database section as a plain value.
pub struct DatabaseConfigView {
    pub connection_string: Seq<char>,
    pub pool_size: u32,
    pub timeout_seconds: u64,
}

impl View for DatabaseConfig {
    type V = DatabaseConfigView;

    open spec fn view(&self) -> DatabaseConfigView {
        DatabaseConfigView {
            connection_string: self.connection_string@,
            pool_size: self.pool_size,
            timeout_seconds: self.timeout_seconds,
        }
    }
}

impl Clone for DatabaseConfig {
    fn clone(&self) -> (copy: DatabaseConfig)
        ensures
            copy@ == self@,
    {
        DatabaseConfig {
            connection_string: self.connection_string.clone(),
            pool_size: self.pool_size,
            timeout_seconds: self.timeout_seconds,
        }
    }
}

impl PartialEq for DatabaseConfig {
    fn eq(&self, other: &DatabaseConfig) -> (same: bool) {
        self.connection_string == other.connection_string && self.pool_size == other.pool_size
            && self.timeout_seconds == other.timeout_seconds
    }
}

impl vstd::std_specs::cmp::PartialEqSpecImpl for DatabaseConfig {
    open spec fn obeys_eq_spec() -> bool {
        true
    }

    open spec fn eq_spec(&self, other: &DatabaseConfig) -> bool {
        self@ == other@
    }
}

/// An application's configuration, as the configuration file gives it.
#[derive(Debug)]
pub struct AppConfig {
    /// The application's name.
    pub app_name: String,
    /// The application's version.
    pub version: String,
    /// Where the application runs: development, staging or production.
    pub environment: String,
    /// The server section, where the file has one.
    pub server: Option<ServerConfig>,
    /// The database section, where the file has one.
    pub database: Option<DatabaseConfig>,
    /// The feature flags.
    pub features: FeatureFlags,
}

/// A configuration as a plain value. Two configurations have the same
/// content when their views are equal.
pub struct AppConfigView {
    pub app_name: Seq<char>,
    pub version: Seq<char>,
    pub environment: Seq<char>,
    pub server: Option<ServerConfigView>,
    pub database: Option<DatabaseConfigView>,
    pub features: Map<Seq<char>, bool>,
}

impl View for AppConfig {
    type V = AppConfigView;

    open spec fn view(&self) -> AppConfigView {
        AppConfigView {
            app_name: self.app_name@,
            version: self.version@,
            environment: self.environment@,
            server: match self.server {
                Some(server) => Some(server@),
                None => None,
            },
            database: match self.database {
                Some(database) => Some(database@),
                None => None,
            },
            features: self.features@,
        }
    }
}

/// Whether `environment` is one of the three that a configuration may name.
pub open spec fn is_known_environment(environment: Seq<char>) -> bool {
    ||| environment == "development"@
    ||| environment == "staging"@
    ||| environment == "production"@
}

/// The reason given for a version without a dot.
pub open spec fn version_reason(version: Seq<char>) -> Seq<char> {
    "version '"@ + version + "' should follow semver format (e.g., 1.0.0)"@
}

impl AppConfigView {
    /// The reason for which the business rules reject this configuration:
    /// that of the first rule it breaks, in the order in which the rules are
    /// listed here, or `None` where it breaks no rule.
    pub open spec fn rejection(self) -> Option<Seq<char>> {
        if is_blank(self.app_name) {
            Some("app_name cannot be empty"@)
        } else if !self.version.contains('.') {
            Some(version_reason(self.version))
        } else if !is_known_environment(self.environment) {
            Some("environment must be one of: development, staging, production"@)
        } else if self.server matches Some(server) && is_blank(server.host) {
            Some("server.host cannot be empty"@)
        } else if self.server matches Some(server) && server.port == 0 {
            Some("server.port must be greater than 0"@)
        } else if self.database matches Some(database) && is_blank(database.connection_string) {
            Some("database.connection_string cannot be empty"@)
        } else if self.database matches Some(database) && database.pool_size == 0 {
            Some("database.pool_size must be greater than 0"@)
        } else {
            None
        }
    }

    /// Whether this configuration keeps every business rule: the name is
    /// not blank, the version holds a dot, the environment is a known one,
    /// a server has a host that is not blank and a port above zero, and a
    /// database has a connection string that is not blank and a pool size
    /// above zero.
    pub open spec fn is_valid(self) -> bool {
        &&& !is_blank(self.app_name)
        &&& self.version.contains('.')
        &&& is_known_environment(self.environment)
        &&& self.server matches Some(server) ==> !is_blank(server.host) && server.port > 0
        &&& self.database matches Some(database) ==> !is_blank(database.connection_string)
            && database.pool_size > 0
    }

    /// What a summary shows of this configuration.
    pub open spec fn summary(self) -> ConfigSummaryView {
        ConfigSummaryView {
            app_name: self.app_name,
            version: self.version,
            environment: self.environment,
            server: self.server,
            database: match self.database {
                Some(database) => Some(
                    DatabaseSummary {
                        pool_size: database.pool_size,
                        timeout_seconds: database.timeout_seconds,
                    },
                ),
                None => None,
            },
            enabled_features: if self.features.is_empty() {
                None
            } else {
                Some(enabled_names(self.features).len())
            },
        }
    }
}

/// A configuration is rejected exactly when it is not valid.
pub proof fn lemma_rejected_iff_invalid(config: AppConfigView)
    ensures
        config.rejection() is None <==> config.is_valid(),
{
}

/// The environment of a configuration file that names none.
pub fn default_environment() -> (environment: String)
    ensures
        environment@ == "development"@,
        is_known_environment(environment@),
{
    "development".to_string()
}

/// Whether a server section that does not say so uses SSL.
pub fn default_true() -> (enabled: bool)
    ensures
        enabled,
{
    true
}

/// The pool size of a database section that gives none.
pub fn default_pool_size() -> (size: u32)
    ensures
        size == 10,
{
    10
}

/// The timeout, in seconds, of a database section that gives none.
pub fn default_timeout() -> (seconds: u64)
    ensures
        seconds == 30,
{
    30
}

/// What is shown of a database section: its sizes, not how to connect.
#[derive(Debug, Clone, Copy, PartialEq, Eq, Structural)]
pub struct DatabaseSummary {
    pub pool_size: u32,
    pub timeout_seconds: u64,
}

/// What is shown of a configuration once it has been loaded.
#[derive(Debug)]
pub struct ConfigSummary {
    pub app_name: String,
    pub version: String,
    pub environment: String,
    /// The server section, where there is one.
    pub server: Option<ServerConfig>,
    /// The database section's sizes, where there is one.
    pub database: Option<DatabaseSummary>,
    /// How many features are switched on; `None` where the configuration
    /// names no feature at all.
    pub enabled_features: Option<usize>,
}

/// A summary as a plain value.
pub struct ConfigSummaryView {
    pub app_name: Seq<char>,
    pub version: Seq<char>,
    pub environment: Seq<char>,
    pub server: Option<ServerConfigView>,
    pub database: Option<DatabaseSummary>,
    pub enabled_features: Option<nat>,
}

impl View for ConfigSummary {
    type V = ConfigSummaryView;

    open spec fn view(&self) -> ConfigSummaryView {
        ConfigSummaryView {
            app_name: self.app_name@,
            version: self.version@,
            environment: self.environment@,
            server: match self.server {
                Some(server) => Some(server@),
                None => None,
            },
            database: self.database,
            enabled_features: match self.enabled_features {
                Some(count) => Some(count as nat),
                None => None,
            },
        }
    }
}

impl AppConfig {
    /// Holds the configuration to the business rules. A configuration that
    /// keeps them all passes; one that does not is refused with the reason
    /// of the first rule that it breaks.
    pub fn validate(&self) -> (checked: Result<(), ConfigError>)
        ensures
            checked is Ok <==> self@.is_valid(),
            match self@.rejection() {
                None => checked is Ok,
                Some(reason) => checked matches Err(error) && error.is_validation_failure(reason),
            },
    {
        if text_is_blank(self.app_name.as_str()) {
            return Err(
                ConfigError::ValidationFailed { reason: "app_name cannot be empty".to_string() },
            );
        }
        if !text_contains(self.version.as_str(), '.') {
            let mut reason = "version '".to_string();
            reason.append(self.version.as_str());
            reason.append("' should follow semver format (e.g., 1.0.0)");
            return Err(ConfigError::ValidationFailed { reason });
        }
        let environment = self.environment.as_str();
        if !(text_eq(environment, "development") || text_eq(environment, "staging") || text_eq(
            environment,
            "production",
        )) {
            return Err(
                ConfigError::ValidationFailed {
                    reason: "environment must be one of: development, staging, production".to_string(),
                },
            );
        }
        match &self.server {
            Some(server) => {
                if text_is_blank(server.host.as_str()) {
                    return Err(
                        ConfigError::ValidationFailed {
                            reason: "server.host cannot be empty".to_string(),
                        },
                    );
                }
                if server.port == 0 {
                    return Err(
                        ConfigError::ValidationFailed {
                            reason: "server.port must be greater than 0".to_string(),
                        },
                    );
                }
            },
            None => {},
        }
        match &self.database {
            Some(database) => {
                if text_is_blank(database.connection_string.as_str()) {
                    return Err(
                        ConfigError::ValidationFailed {
                            reason: "database.connection_string cannot be empty".to_string(),
                        },
                    );
                }
                if database.pool_size == 0 {
                    return Err(
                        ConfigError::ValidationFailed {
                            reason: "database.pool_size must be greater than 0".to_string(),
                        },
                    );
                }
            },
            None => {},
        }
        Ok(())
    }

    /// Draws up what is shown of the configuration: its name, version and
    /// environment, the server section and the database's sizes where they
    /// are present, and the number of features switched on where any
    /// feature is named.
    pub fn summary(&self) -> (summary: ConfigSummary)
        ensures
            summary@ == self@.summary(),
    {
        let server = match &self.server {
            Some(server) => Some(server.clone()),
            None => None,
        };
        let database = match &self.database {
            Some(database) => Some(
                DatabaseSummary {
                    pool_size: database.pool_size,
                    timeout_seconds: database.timeout_seconds,
                },
            ),
            None => None,
        };
        let enabled_features = if self.features.is_empty() {
            None
        } else {
            Some(self.features.enabled_count())
        };
        ConfigSummary {
            app_name: self.app_name.clone(),
            version: self.version.clone(),
            environment: self.environment.clone(),
            server,
            database,
            enabled_features,
        }
    }
}

impl Clone for AppConfig {
    fn clone(&self) -> (copy: AppConfig)
        ensures
            copy@ == self@,
    {
        let server = match &self.server {
            Some(server) => Some(server.clone()),
            None => None,
        };
        let database = match &self.database {
            Some(database) => Some(database.clone()),
            None => None,
        };
        AppConfig {
            app_name: self.app_name.clone(),
            version: self.version.clone(),
            environment: self.environment.clone(),
            server,
            database,
            features: self.features.clone(),
        }
    }
}

impl PartialEq for AppConfig {
    fn eq(&self, other: &AppConfig) -> (same: bool) {
        let same_server = match (&self.server, &other.server) {
            (Some(mine), Some(theirs)) => *mine == *theirs,
            (None, None) => true,
            _ => false,
        };
        let same_database = match (&self.database, &other.database) {
            (Some(mine), Some(theirs)) => *mine == *theirs,
            (None, None) => true,
            _ => false,
        };
        self.app_name == other.app_name && self.version == other.version && self.environment
            == other.environment && same_server && same_database && self.features
            == other.features
    }
}

impl vstd::std_specs::cmp::PartialEqSpecImpl for AppConfig {
    open spec fn obeys_eq_spec() -> bool {
        true
    }

    open spec fn eq_spec(&self, other: &AppConfig) -> bool {
        self@ == other@
    }
}

} // verus!
