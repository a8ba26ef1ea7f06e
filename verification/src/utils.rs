pub mod decimal;
pub mod encoding;
pub mod hmac;
pub mod paseto;
pub mod password_salt;
pub mod request;
pub mod response;
pub mod sniffer;
pub mod sorted;
pub mod stream;
pub mod text;
