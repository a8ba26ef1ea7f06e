pub mod arg;
pub mod config;
pub mod err;
pub mod join;
pub mod service;
