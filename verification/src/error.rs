//! Error types of the library.

use vstd::prelude::*;

verus! {

/// `url::ParseError`, carried by [`RpxyAcmeError::InvalidUrl`].
#[verifier::external_type_specification]
#[verifier::external_body]
pub struct ExUrlParseError(url::ParseError);

/// `std::io::Error`, carried by the I/O variants of [`RpxyAcmeError`].
#[verifier::external_type_specification]
#[verifier::external_body]
pub struct ExIoError(std::io::Error);

/// Why a configuration was refused while building settings, certificate
/// sources or ACME parameters.
#[derive(Debug, PartialEq, Eq, Structural)]
pub enum ConfigError {
    /// The configuration defines no `apps` table.
    NoApps,
    /// An application that needs a server name has none.
    NoServerName,
    /// ACME is in use but `data_dir` is not set.
    MissingDataDir,
    /// An application asks for ACME while ACME is not configured, or while it
    /// also names its own certificate or key file.
    InvalidAcmeTlsOption,
    /// A TLS application that does not ask for ACME lacks its certificate or
    /// key path.
    MissingCertificatePath,
}

/// The message the proxy reports for a refused configuration.
pub open spec fn config_error_text(e: ConfigError) -> Seq<char> {
    match e {
        ConfigError::NoApps => "No apps"@,
        ConfigError::NoServerName => "No server name"@,
        ConfigError::MissingDataDir => "ACME is enabled but 'data_dir' is not set. Please add to your config:\n  data_dir = \"/var/lib/rpxy\""@,
        ConfigError::InvalidAcmeTlsOption => "Condition failed: `acme_option.is_some() && tls.tls_cert_key_path.is_none() && tls.tls_cert_path.is_none()`"@,
        ConfigError::MissingCertificatePath => "A TLS application without ACME needs both tls_cert_path and tls_cert_key_path"@,
    }
}

impl ConfigError {
    /// The message reported for this refusal.
    pub fn message(&self) -> (r: String)
        ensures
            r@ == config_error_text(*self),
    {
        match self {
            ConfigError::NoApps => String::from_str("No apps"),
            ConfigError::NoServerName => String::from_str("No server name"),
            ConfigError::MissingDataDir => String::from_str(
                "ACME is enabled but 'data_dir' is not set. Please add to your config:\n  data_dir = \"/var/lib/rpxy\"",
            ),
            ConfigError::InvalidAcmeTlsOption => String::from_str(
                "Condition failed: `acme_option.is_some() && tls.tls_cert_key_path.is_none() && tls.tls_cert_path.is_none()`",
            ),
            ConfigError::MissingCertificatePath => String::from_str(
                "A TLS application without ACME needs both tls_cert_path and tls_cert_key_path",
            ),
        }
    }
}

/// A required field of a [`crate::backend::BackendAppBuilder`] was never set.
#[derive(Debug, PartialEq, Eq, Structural)]
pub enum BackendAppField {
    AppName,
    ServerName,
    PathManager,
}

/// Errors of the routing part of the proxy.
#[derive(Debug, PartialEq, Eq, Structural)]
pub enum RpxyError {
    /// Building a backend application failed because a field was not set.
    BuildBackendApp(BackendAppField),
}

/// Error type of the ACME part of the proxy.
#[derive(Debug)]
pub enum RpxyAcmeError {
    /// Missing or invalid ACME registry path.
    InvalidAcmeRegistryPath,
    /// Invalid url.
    InvalidUrl(url::ParseError),
    /// I/O error.
    Io(std::io::Error),
    /// TLS client configuration error.
    TlsClientConfig(String),
    /// Certificates for `domain` cannot be written to `path`.
    WritePermissionDenied { domain: String, path: String, source: std::io::Error },
}

} // verus!
