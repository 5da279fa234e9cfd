//! The error types used by `conrig`.
//!
//! `conrig` itself produces only the [`ConrigError::NoConfigurationFile`]
//! user error; every other variant surfaces a diagnostic from either a
//! serialization backend or the file system, structured so that a caller can
//! tell a missing file apart from a malformed one.

use vstd::prelude::*;

verus! {

/// Declares `toml::de::Error` so that it can be carried inside this crate's
/// error enums.  The value is opaque to verification.
#[verifier::external_type_specification]
#[verifier::external_body]
pub struct ExTomlDeError(toml::de::Error);

/// Declares `toml::ser::Error` so that it can be carried inside this crate's
/// error enums.  The value is opaque to verification.
#[verifier::external_type_specification]
#[verifier::external_body]
pub struct ExTomlSerError(toml::ser::Error);

/// Declares `serde_json::Error` so that it can be carried inside this
/// crate's error enums.  The value is opaque to verification.
#[verifier::external_type_specification]
#[verifier::external_body]
pub struct ExJsonError(serde_json::Error);

/// Declares `serde_yaml::Error` so that it can be carried inside this
/// crate's error enums.  The value is opaque to verification.
#[verifier::external_type_specification]
#[verifier::external_body]
pub struct ExYamlError(serde_yaml::Error);

/// Declares `ron::error::SpannedError` so that it can be carried inside this
/// crate's error enums.  The value is opaque to verification.
#[verifier::external_type_specification]
#[verifier::external_body]
pub struct ExRonSpannedError(ron::error::SpannedError);

/// Declares `ron::error::Error` so that it can be carried inside this
/// crate's error enums.  The value is opaque to verification.
#[verifier::external_type_specification]
#[verifier::external_body]
pub struct ExRonRawError(ron::error::Error);

/// The collection type for all error types in the `toml` library.
#[derive(Debug)]
pub enum TomlError {
    /// Possible error during the serialization of a `toml` value.
    Serialize(toml::ser::Error),
    /// Possible error during the deserialization of a `toml` document.
    Deserialize(toml::de::Error),
}

/// The collection type for all error types in the `ron` library.
#[derive(Debug)]
pub enum RonError {
    /// Spanned error, produced while deserializing.
    Spanned(ron::error::SpannedError),
    /// Raw, unspanned error, produced while serializing.
    Raw(ron::error::Error),
}

/// Error triggered by the underlying language library.
///
/// Typically, this means the configuration file has syntax errors,
/// or the wrong language was assumed for it.
#[derive(Debug)]
pub enum LangError {
    /// Error triggered by `ron`.
    RonError(RonError),
    /// Error triggered by `serde_json`.
    JsonError(serde_json::Error),
    /// Error triggered by `serde_yaml`.
    YamlError(serde_yaml::Error),
    /// Error triggered by `toml`.
    TomlError(TomlError),
}

/// Error triggered by the file system, most probably by the operating system.
///
/// The variants distinguish which operation failed, so that a caller can
/// tell a missing or unreadable file from a failed write.
#[derive(Debug, Clone, Copy, PartialEq, Eq, Structural)]
pub enum FileSystemError {
    /// A configuration file could not be opened.
    OpenConfig,
    /// A configuration file could not be read.
    ReadConfig,
    /// A configuration file could not be written.
    WriteConfig,
    /// No system-level project directory exists for the application.
    NoProjectDirectory,
}

/// Any error reported by `conrig`.
#[derive(Debug)]
pub enum ConrigError {
    /// Error triggered by the serialization or deserialization of a
    /// particular language.
    LangError(LangError),
    /// Error triggered during the writing or reading of a configuration file.
    FileSystemError(FileSystemError),
    /// The configuration file could not be found by the file searcher and no
    /// fallback path was installed before a terminal operation was invoked.
    NoConfigurationFile,
}

} // verus!
