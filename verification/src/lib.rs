pub mod db;
pub mod external;
pub mod internal;
pub mod middlewares;
pub mod providers;
pub mod types;
pub mod utils;
