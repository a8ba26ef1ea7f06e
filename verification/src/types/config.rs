use vstd::prelude::*;

verus! {

/// The name of the database where the settings give none.
pub const DEFAULT_DB_NAME: &'static str = "rustle_blog";

/// The user of the database where the settings give none.
pub const DEFAULT_DB_USER: &'static str = "rustle";

/// The host, of the database and of the HTTP server alike, where the
/// settings give none.
pub const DEFAULT_HOST: &'static str = "127.0.0.1";

/// The port of the database where the settings give none.
pub const DEFAULT_DB_PORT: u32 = 3306;

/// The port of the mail server where the settings give none.
pub const DEFAULT_MAIL_PORT: u32 = 465;

/// The port of the HTTP server where the settings give none.
pub const DEFAULT_HTTP_PORT: u16 = 5800;

/// The number of mails that the queue holds where the settings give none.
pub fn max_queue_capacity_default() -> (capacity: u32)
    ensures
        capacity == 100,
{
    100
}

/// Where the database is and how to log in to it.
#[derive(Debug, Clone, Default)]
pub struct DatabaseConfig {
    pub db_name: String,
    pub user_name: String,
    pub password: String,
    pub host: String,
    pub port: u32,
}

/// The mail account that the application sends from.
#[derive(Debug, Clone, Default)]
pub struct MailConfig {
    pub from: String,
    pub smtp_user_name: String,
    pub smtp_password: String,
    pub host: String,
    pub port: u32,
    pub max_queue_capacity: u32,
}

/// Mail is either set up or switched off.
#[derive(Debug, Clone, Default)]
pub enum MailEnum {
    Enable(MailConfig),
    #[default]
    Disabled,
}

/// Where the HTTP server listens.
#[derive(Debug, Clone, Default)]
pub struct HttpConfig {
    pub host: String,
    pub port: u16,
}

/// The secrets that the application signs and hashes with.
#[derive(Debug, Clone, Default)]
pub struct SecurityConfig {
    pub password_salt: String,
    pub auth_token_secret: String,
    pub credential_secret: String,
}

/// The site's name and address, as shown in mails.
#[derive(Debug, Clone, Default)]
pub struct InfoConfig {
    pub name: String,
    pub link: String,
}

/// All settings of the application.
#[derive(Debug, Clone, Default)]
pub struct BaseConfig {
    pub database: DatabaseConfig,
    pub http: HttpConfig,
    pub security: SecurityConfig,
    pub mail: MailEnum,
    pub info: InfoConfig,
}

/// One step of checking the settings after they were read. A step may fill
/// in a setting that is missing. It answers `Ok(true)` where it changed the
/// settings, so that they have to be written back, `Ok(false)` where it left
/// them as they were, and `Err` where a setting is unusable.
pub trait ConfigInitializer {
    /// What the step does: how the settings after it, and its answer,
    /// relate to the settings before it.
    spec fn initialized(before: BaseConfig, after: BaseConfig, answer: Result<bool, ()>) -> bool;

    fn initialize(c: &mut BaseConfig) -> (answer: Result<bool, ()>)
        ensures
            Self::initialized(*old(c), *final(c), answer),
    ;
}

} // verus!
