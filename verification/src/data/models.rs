use vstd::prelude::*;

use crate::secrets_loaders::types::ProviderAuthMethod;

verus! {

/// An upstream provider as stored in the repository.
#[derive(Debug)]
pub struct Provider {
    pub id: String,
    pub name: String,
    pub url: String,
    /// How requests to this provider are authenticated.
    pub auth_method: ProviderAuthMethod,
}

/// A model that providers can serve.
#[derive(Debug)]
pub struct Model {
    pub id: String,
    pub name: String,
}

/// One row of the many-to-many relation between providers and models.
#[derive(Debug)]
pub struct ProviderModelMapping {
    pub provider_id: String,
    pub model_id: String,
}

/// The flat layout of the repository's TOML file.
#[derive(Debug)]
pub struct TomlFileStructure {
    pub providers: Vec<Provider>,
    pub models: Vec<Model>,
    pub provider_models: Vec<ProviderModelMapping>,
}

impl Clone for Provider {
    fn clone(&self) -> (r: Self)
        ensures
            r == *self,
    {
        Provider {
            id: self.id.clone(),
            name: self.name.clone(),
            url: self.url.clone(),
            auth_method: self.auth_method.clone(),
        }
    }
}

impl Clone for Model {
    fn clone(&self) -> (r: Self)
        ensures
            r == *self,
    {
        Model { id: self.id.clone(), name: self.name.clone() }
    }
}

impl Clone for ProviderModelMapping {
    fn clone(&self) -> (r: Self)
        ensures
            r == *self,
    {
        ProviderModelMapping { provider_id: self.provider_id.clone(), model_id: self.model_id.clone() }
    }
}

} // verus!
