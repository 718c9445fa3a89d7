use vstd::prelude::*;

verus! {

broadcast use vstd::string::group_string_axioms;

#[verifier::external_type_specification]
#[verifier::external_body]
pub struct ExJsonError(serde_json::Error);

/// Why no model name could be taken from a request.
#[derive(Debug)]
pub enum ModelExtractionError {
    InvalidJson(serde_json::Error),
    MissingModel,
    UnsupportedContentType,
}

impl From<serde_json::Error> for ModelExtractionError {
    fn from(err: serde_json::Error) -> (r: Self) {
        ModelExtractionError::InvalidJson(err)
    }
}

impl vstd::std_specs::convert::FromSpecImpl<serde_json::Error> for ModelExtractionError {
    open spec fn obeys_from_spec() -> bool {
        true
    }

    open spec fn from_spec(err: serde_json::Error) -> Self {
        ModelExtractionError::InvalidJson(err)
    }
}

impl ModelExtractionError {
    /// The message that describes the error to a person.
    pub fn message(&self) -> (r: String)
        ensures
            match *self {
                ModelExtractionError::InvalidJson(err) => exists|detail: String|
                    vstd::string::to_string_from_display_ensures::<serde_json::Error>(&err, detail)
                        && r@ == "request body is not valid JSON: "@ + detail@,
                ModelExtractionError::MissingModel => r@
                    == "request body does not contain a top-level 'model' field"@,
                ModelExtractionError::UnsupportedContentType => r@
                    == "request content type is not supported for model extraction"@,
            },
    {
        match self {
            ModelExtractionError::InvalidJson(err) => {
                let detail = err.to_string();
                let mut text = "request body is not valid JSON: ".to_string();
                text.append(detail.as_str());
                text
            },
            ModelExtractionError::MissingModel => {
                "request body does not contain a top-level 'model' field".to_string()
            },
            ModelExtractionError::UnsupportedContentType => {
                "request content type is not supported for model extraction".to_string()
            },
        }
    }
}

} // verus!
