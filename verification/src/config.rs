pub mod models;
pub mod toml_loader;
