pub mod handlers;
pub mod laws;
pub mod models;
pub mod store;
pub mod time;
pub mod validation;
