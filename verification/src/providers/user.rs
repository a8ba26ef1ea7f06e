pub mod api;
pub mod service;
