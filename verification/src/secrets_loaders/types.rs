use vstd::prelude::*;

use axum::http::header::{InvalidHeaderName, InvalidHeaderValue};

verus! {

#[verifier::external_type_specification]
#[verifier::external_body]
pub struct ExIoError(std::io::Error);

/// Why a secret could not be loaded.
#[derive(Debug)]
pub enum SecretLoadError {
    MissingEnvVar(String),
    VaultError(String),
    UnsupportedSecretSource,
    ReadFile { path: String, source: std::io::Error },
}

/// Why authentication could not be added to a request.
#[derive(Debug)]
pub enum AuthError {
    SecretLoad(SecretLoadError),
    InvalidHeaderName(InvalidHeaderName),
    InvalidHeaderValue(InvalidHeaderValue),
}

impl From<SecretLoadError> for AuthError {
    fn from(err: SecretLoadError) -> (r: Self) {
        AuthError::SecretLoad(err)
    }
}

impl vstd::std_specs::convert::FromSpecImpl<SecretLoadError> for AuthError {
    open spec fn obeys_from_spec() -> bool {
        true
    }

    open spec fn from_spec(err: SecretLoadError) -> Self {
        AuthError::SecretLoad(err)
    }
}

impl From<InvalidHeaderName> for AuthError {
    fn from(err: InvalidHeaderName) -> (r: Self) {
        AuthError::InvalidHeaderName(err)
    }
}

impl vstd::std_specs::convert::FromSpecImpl<InvalidHeaderName> for AuthError {
    open spec fn obeys_from_spec() -> bool {
        true
    }

    open spec fn from_spec(err: InvalidHeaderName) -> Self {
        AuthError::InvalidHeaderName(err)
    }
}

impl From<InvalidHeaderValue> for AuthError {
    fn from(err: InvalidHeaderValue) -> (r: Self) {
        AuthError::InvalidHeaderValue(err)
    }
}

impl vstd::std_specs::convert::FromSpecImpl<InvalidHeaderValue> for AuthError {
    open spec fn obeys_from_spec() -> bool {
        true
    }

    open spec fn from_spec(err: InvalidHeaderValue) -> Self {
        AuthError::InvalidHeaderValue(err)
    }
}

/// Where a secret is kept.
#[derive(Debug)]
pub enum SecretRef {
    Env { name: String },
    File { path: String },
}

/// How a request to a provider is authenticated.
#[derive(Debug)]
pub enum ProviderAuthMethod {
    NoAuth,
    BearerToken { token: SecretRef },
    Header { name: String, value: SecretRef },
}

/// What reading the place that a `SecretRef` names gave back.
#[derive(Debug)]
pub enum SecretFetch {
    /// The environment variable's value, or `None` where it is unset or not unicode.
    EnvVar(Option<String>),
    /// The file's contents, or the error that reading it gave.
    FileContents(Result<String, std::io::Error>),
}

/// Whether `fetched` is what reading the place that `secret` names gives:
/// an environment variable for an `Env` reference, a file for a `File` one.
pub open spec fn fetch_fits(secret: SecretRef, fetched: SecretFetch) -> bool {
    match secret {
        SecretRef::Env { .. } => fetched is EnvVar,
        SecretRef::File { .. } => fetched is FileContents,
    }
}

impl Clone for SecretRef {
    fn clone(&self) -> (r: Self)
        ensures
            r == *self,
    {
        match self {
            SecretRef::Env { name } => SecretRef::Env { name: name.clone() },
            SecretRef::File { path } => SecretRef::File { path: path.clone() },
        }
    }
}

impl Clone for ProviderAuthMethod {
    fn clone(&self) -> (r: Self)
        ensures
            r == *self,
    {
        match self {
            ProviderAuthMethod::NoAuth => ProviderAuthMethod::NoAuth,
            ProviderAuthMethod::BearerToken { token } => ProviderAuthMethod::BearerToken {
                token: token.clone(),
            },
            ProviderAuthMethod::Header { name, value } => ProviderAuthMethod::Header {
                name: name.clone(),
                value: value.clone(),
            },
        }
    }
}

} // verus!
