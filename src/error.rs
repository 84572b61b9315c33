//! The errors of the library.
use vstd::prelude::*;

verus! {

/// Why the settings file could not be read or written.
#[derive(Debug, Clone, PartialEq, Eq)]
pub enum ConfigurationError {
    FileNotFoundError(String),
    FileCreationError(String),
    FileWriteError(String),
    DirCreationError(String),
    MessageError(String),
    TomlError(String),
}

/// Every failure of a session or of a resource operation.
#[derive(Debug, Clone, PartialEq, Eq)]
pub enum Error {
    /// The request never reached the server, or no answer came back.
    TransportFailure { url: String, cause: String },
    /// The server answered with a status outside `200..=299`.
    ApiFailure { url: String, status: u16, body: String },
    /// The server answered with success, but the body did not have the expected
    /// shape; the text says which operation was attempted.
    DecodeFailure(String),
    /// An operation was attempted without a valid token.
    MissingAuthentication,
    /// No space, or more than one, is marked as the default one.
    NoDefaultSpace,
    /// The command line named no known command.
    InvalidCommand,
    /// The settings file could not be used.
    Config(ConfigurationError),
}

} // verus!
