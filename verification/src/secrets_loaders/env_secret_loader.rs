use vstd::prelude::*;

use crate::secrets_loaders::traits::SecretLoader;
use crate::secrets_loaders::types::{SecretFetch, SecretLoadError, SecretRef};

verus! {

/// Loads secrets kept in environment variables.
pub struct EnvSecretLoader;

impl SecretLoader for EnvSecretLoader {
    open spec fn spec_supports(&self, secret: SecretRef) -> bool {
        secret is Env
    }

    open spec fn spec_load(&self, secret: SecretRef, fetched: SecretFetch) -> Result<
        Seq<char>,
        SecretLoadError,
    > {
        match secret {
            SecretRef::Env { name } => match fetched {
                SecretFetch::EnvVar(Some(value)) => Ok(value@),
                _ => Err(SecretLoadError::MissingEnvVar(name)),
            },
            _ => Err(SecretLoadError::UnsupportedSecretSource),
        }
    }

    fn supports(&self, secret: &SecretRef) -> (r: bool) {
        matches!(secret, SecretRef::Env { .. })
    }

    fn load(&self, secret: &SecretRef, fetched: SecretFetch) -> (r: Result<String, SecretLoadError>) {
        match secret {
            SecretRef::Env { name } => match fetched {
                SecretFetch::EnvVar(Some(value)) => Ok(value),
                _ => Err(SecretLoadError::MissingEnvVar(name.clone())),
            },
            _ => Err(SecretLoadError::UnsupportedSecretSource),
        }
    }
}

} // verus!

verus! {

/// Law: the environment loader handles exactly `Env` references, and answers
/// `UnsupportedSecretSource` for any other.
pub proof fn law_env_loader_scope(secret: SecretRef, fetched: SecretFetch)
    ensures
        EnvSecretLoader.spec_supports(secret) <==> secret is Env,
        !EnvSecretLoader.spec_supports(secret) ==> EnvSecretLoader.spec_load(secret, fetched)
            == Err::<Seq<char>, SecretLoadError>(SecretLoadError::UnsupportedSecretSource),
{
}

} // verus!

verus! {

/// Law: the environment loader hands back the variable's value unchanged, and
/// answers `MissingEnvVar` with the variable's name where it is not set.
pub proof fn law_env_loader_value(name: String, value: Option<String>)
    ensures
        EnvSecretLoader.spec_load(SecretRef::Env { name }, SecretFetch::EnvVar(value)) == match value {
            Some(v) => Ok::<Seq<char>, SecretLoadError>(v@),
            None => Err::<Seq<char>, SecretLoadError>(SecretLoadError::MissingEnvVar(name)),
        },
{
}

} // verus!
