use vstd::prelude::*;

use crate::model_extractors::traits::ModelExtractor;
use crate::model_extractors::types::ModelExtractionError;

verus! {

/// The one field of an OpenAI-style JSON request body that routing reads.
#[derive(Debug)]
pub struct ModelField {
    pub model: Option<String>,
}

/// Reads the model of OpenAI-style JSON request bodies from their top-level
/// `model` field.
pub struct OpenAiJsonExtractor;

impl ModelExtractor for OpenAiJsonExtractor {
    /// The body's `model` field (absent or null gives `None`); a body that is
    /// not valid JSON of that shape gives `InvalidJson` with the decoder's error.
    fn extract(&self, parsed: Result<ModelField, serde_json::Error>) -> (r: Result<
        Option<String>,
        ModelExtractionError,
    >)
        ensures
            match parsed {
                Ok(field) => r == Ok::<Option<String>, ModelExtractionError>(field.model),
                Err(err) => r == Err::<Option<String>, ModelExtractionError>(
                    ModelExtractionError::InvalidJson(err),
                ),
            },
    {
        match parsed {
            Ok(field) => Ok(field.model),
            Err(err) => Err(ModelExtractionError::from(err)),
        }
    }
}

} // verus!
