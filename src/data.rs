pub mod config;
pub mod project_config;
