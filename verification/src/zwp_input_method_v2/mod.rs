pub mod handler;
pub mod laws;
