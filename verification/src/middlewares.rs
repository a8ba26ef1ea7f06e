pub mod auth;
pub mod log;
