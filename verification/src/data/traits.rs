use vstd::prelude::*;

use crate::data::models::{Model, Provider};

verus! {

/// Why a repository could not answer a query.
#[derive(Debug)]
pub struct DataError {
    pub message: String,
}

/// Read access to providers, models and the relation between them.
pub trait DataRepository: Send + Sync {
    /// Whether this repository answers every query, never failing.
    spec fn spec_answers(&self) -> bool;

    /// The provider with id `id`, if any.
    spec fn spec_provider(&self, id: Seq<char>) -> Option<Provider>;

    /// The model with id `id`, if any.
    spec fn spec_model(&self, id: Seq<char>) -> Option<Model>;

    /// The models that the provider with id `provider_id` serves.
    spec fn spec_models_for_provider(&self, provider_id: Seq<char>) -> Seq<Model>;

    /// The providers that serve the model with id `model_id`.
    spec fn spec_providers_for_model(&self, model_id: Seq<char>) -> Seq<Provider>;

    fn get_provider(&self, id: &str) -> (r: Result<Option<Provider>, DataError>)
        ensures
            self.spec_answers() ==> r is Ok,
            r matches Ok(p) ==> p == self.spec_provider(id@),
    ;

    fn get_model(&self, id: &str) -> (r: Result<Option<Model>, DataError>)
        ensures
            self.spec_answers() ==> r is Ok,
            r matches Ok(m) ==> m == self.spec_model(id@),
    ;

    fn get_models_for_provider(&self, provider_id: &str) -> (r: Result<Vec<Model>, DataError>)
        ensures
            self.spec_answers() ==> r is Ok,
            r matches Ok(models) ==> models@ == self.spec_models_for_provider(provider_id@),
    ;

    fn get_providers_for_model(&self, model_id: &str) -> (r: Result<Vec<Provider>, DataError>)
        ensures
            self.spec_answers() ==> r is Ok,
            r matches Ok(providers) ==> providers@ == self.spec_providers_for_model(model_id@),
    ;
}

} // verus!
