pub mod composite_secret_loader;
pub mod env_secret_loader;
pub mod file_secret_loader;
pub mod traits;
pub mod types;
pub mod apply;
