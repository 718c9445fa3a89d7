use vstd::prelude::*;

verus! {

/// An upstream provider of the application configuration.
#[derive(Debug)]
pub struct Provider {
    pub id: String,
    pub name: String,
    pub url: String,
}

/// A model and the ids of the providers that serve it.
#[derive(Debug)]
pub struct Model {
    pub name: String,
    pub provider_ids: Vec<String>,
}

/// The application configuration.
#[derive(Debug)]
pub struct AppConfig {
    pub providers: Vec<Provider>,
    pub models: Vec<Model>,
}

/// Why the configuration could not be loaded.
#[derive(Debug)]
pub struct ConfigError {
    pub message: String,
}

/// A source of the application configuration.
pub trait ConfigLoader {
    fn load(&self) -> Result<AppConfig, ConfigError>;
}

} // verus!
