pub mod initialize_config;
pub mod update_config;
