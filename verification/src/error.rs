//! What can go wrong while the configuration file is checked or loaded.

use std::path::PathBuf;
use vstd::prelude::*;

verus! {

/// `std::io::Error`, the cause that the operating system gave for a failed
/// read or metadata query. It is carried along unopened.
#[verifier::external_type_specification]
#[verifier::external_body]
pub struct ExIoError(std::io::Error);

/// `serde_json::Error`, the cause that the JSON parser gave for a file that
/// it could not turn into a configuration. It is carried along unopened.
#[verifier::external_type_specification]
#[verifier::external_body]
pub struct ExJsonError(serde_json::Error);

/// `std::path::PathBuf`, the name of the watched file. It is carried along
/// unopened.
#[verifier::external_type_specification]
#[verifier::external_body]
pub struct ExPathBuf(PathBuf);

/// `PathBuf::clone`: the copy is the same path as the one it was made from.
pub assume_specification[ <PathBuf as Clone>::clone ](path: &PathBuf) -> (copy: PathBuf)
    ensures
        copy == *path,
;

/// Why a check or a load of the configuration file failed.
#[derive(Debug)]
#[allow(inconsistent_fields)]
pub enum ConfigError {
    /// The file does not exist.
    FileNotFound { path: PathBuf },
    /// The file's metadata could not be queried.
    MetadataError { path: PathBuf, source: std::io::Error },
    /// The file's content is not JSON of the expected shape.
    InvalidJson { source: serde_json::Error },
    /// The content has the expected shape but breaks a business rule.
    ValidationFailed { reason: String },
    /// The file exists but its content could not be read.
    ReadError { path: PathBuf, source: std::io::Error },
}

impl ConfigError {
    /// Whether this error reports a broken business rule in the words of
    /// `reason`.
    pub open spec fn is_validation_failure(self, reason: Seq<char>) -> bool {
        self matches ConfigError::ValidationFailed { reason: given } && given@ == reason
    }
}

impl From<serde_json::Error> for ConfigError {
    fn from(source: serde_json::Error) -> (error: ConfigError) {
        ConfigError::InvalidJson { source }
    }
}

impl vstd::std_specs::convert::FromSpecImpl<serde_json::Error> for ConfigError {
    open spec fn obeys_from_spec() -> bool {
        true
    }

    open spec fn from_spec(source: serde_json::Error) -> ConfigError {
        ConfigError::InvalidJson { source }
    }
}

} // verus!
