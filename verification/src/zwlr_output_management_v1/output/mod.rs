pub mod output_configuration;
pub mod output_head;
pub mod output_manager;
pub mod output_mode;
