pub mod openai_json_extractor;
pub mod traits;
pub mod types;
