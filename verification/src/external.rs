pub mod fs;
pub mod mail;
