pub mod api;
pub mod cache;
pub mod service;
