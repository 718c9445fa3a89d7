pub mod models;
pub mod toml_repo;
pub mod traits;
