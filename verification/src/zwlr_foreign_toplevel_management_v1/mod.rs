pub mod errors;
pub mod handler;
pub mod slots;
pub mod laws;
