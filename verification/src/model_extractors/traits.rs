use vstd::prelude::*;

use crate::model_extractors::openai_json_extractor::ModelField;
use crate::model_extractors::types::ModelExtractionError;

verus! {

/// Takes the name of the requested model from a request body, given what
/// decoding the body as JSON gave.
pub trait ModelExtractor: Send + Sync {
    fn extract(&self, parsed: Result<ModelField, serde_json::Error>) -> Result<
        Option<String>,
        ModelExtractionError,
    >;
}

} // verus!
