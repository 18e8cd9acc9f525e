pub mod errors;
pub mod handler;
pub mod laws;
