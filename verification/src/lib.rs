pub mod config;
pub mod data;
pub mod gateway;
pub mod headers;
pub mod model_extractors;
pub mod random;
pub mod requests;
pub mod secrets_loaders;
