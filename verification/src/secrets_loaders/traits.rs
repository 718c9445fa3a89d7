use vstd::prelude::*;

use crate::secrets_loaders::types::{fetch_fits, SecretFetch, SecretLoadError, SecretRef};

verus! {

/// A loaded secret as text, or the error that loading gave.
pub open spec fn loaded_view(r: Result<String, SecretLoadError>) -> Result<
    Seq<char>,
    SecretLoadError,
> {
    match r {
        Ok(s) => Ok(s@),
        Err(e) => Err(e),
    }
}

/// A source of secrets.
pub trait SecretLoader: Send + Sync {
    /// Whether this loader handles `secret`.
    spec fn spec_supports(&self, secret: SecretRef) -> bool;

    /// What this loader answers for `secret`, given what reading its place gave.
    spec fn spec_load(&self, secret: SecretRef, fetched: SecretFetch) -> Result<
        Seq<char>,
        SecretLoadError,
    >;

    fn supports(&self, secret: &SecretRef) -> (r: bool)
        ensures
            r == self.spec_supports(*secret),
    ;

    fn load(&self, secret: &SecretRef, fetched: SecretFetch) -> (r: Result<String, SecretLoadError>)
        requires
            fetch_fits(*secret, fetched),
        ensures
            loaded_view(r) == self.spec_load(*secret, fetched),
    ;
}

} // verus!
