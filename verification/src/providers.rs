pub mod article;
pub mod auth;
pub mod user;
