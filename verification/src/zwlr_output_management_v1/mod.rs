pub mod errors;
pub mod handler;
pub mod output;
pub mod laws;
