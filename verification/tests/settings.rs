use rustle::internal::config::{initialize_config, load_config, ConfigService};
use rustle::types::arg::Arg;
use rustle::types::config::{
    max_queue_capacity_default, BaseConfig, MailConfig, MailEnum, DEFAULT_DB_NAME,
    DEFAULT_DB_PORT, DEFAULT_DB_USER, DEFAULT_HOST, DEFAULT_HTTP_PORT, DEFAULT_MAIL_PORT,
};
use rustle::types::service::AppService;
use rustle::utils::paseto::token_key;

const KEY_TEXT: &str = "AAECAwQFBgcICQoLDA0ODxAREhMUFRYXGBkaGxwdHh8=";
const SALT: &str = "c29tZXNhbHRzb21lc2FsdA";
const CREDENTIAL: &str = "0123456789abcdef0123456789abcdef";

fn complete() -> BaseConfig {
    let mut c = BaseConfig::default();
    c.security.password_salt = String::from(SALT);
    c.security.auth_token_secret = String::from(KEY_TEXT);
    c.security.credential_secret = String::from(CREDENTIAL);
    c
}

#[test]
fn empty_settings_are_filled_and_written_back() {
    let mut c = BaseConfig::default();
    assert_eq!(initialize_config(&mut c), Ok(true));
    assert!(c.security.password_salt.len() >= 4);
    assert_eq!(token_key(&c.security.auth_token_secret).map(|k| k.len()), Some(32));
    assert_eq!(c.security.credential_secret.len(), 32);
    assert_eq!(initialize_config(&mut c), Ok(false));
}

#[test]
fn complete_settings_stay() {
    let mut c = complete();
    assert_eq!(initialize_config(&mut c), Ok(false));
    assert_eq!(c.security.password_salt, SALT);
    assert_eq!(c.security.auth_token_secret, KEY_TEXT);
    assert_eq!(c.security.credential_secret, CREDENTIAL);
}

#[test]
fn one_missing_secret_asks_for_a_rewrite() {
    let mut c = complete();
    c.security.credential_secret = String::new();
    assert_eq!(initialize_config(&mut c), Ok(true));
    assert_eq!(c.security.password_salt, SALT);
    assert_eq!(c.security.auth_token_secret, KEY_TEXT);
    assert_eq!(c.security.credential_secret.len(), 32);
}

#[test]
fn a_failed_step_fails_all_but_the_others_still_run() {
    let mut c = complete();
    c.security.password_salt = String::from("bad salt");
    c.security.credential_secret = String::new();
    assert_eq!(initialize_config(&mut c), Err(()));
    assert_eq!(c.security.password_salt, "bad salt");
    assert_eq!(c.security.credential_secret.len(), 32);
    let mut c = complete();
    c.mail = MailEnum::Enable(MailConfig::default());
    assert_eq!(initialize_config(&mut c), Err(()));
}

#[test]
fn load_config_gives_the_settings_to_use() {
    let (ready, rewrite) = load_config(complete()).unwrap();
    assert!(!rewrite);
    assert_eq!(ready.security.credential_secret, CREDENTIAL);
    let (ready, rewrite) = load_config(BaseConfig::default()).unwrap();
    assert!(rewrite);
    assert_eq!(ready.security.credential_secret.len(), 32);
    let mut bad = complete();
    bad.security.auth_token_secret = String::from("???");
    assert!(load_config(bad).is_err());
    assert_eq!(ConfigService::name(), "ConfigService");
}

#[test]
fn default_arguments_switch_debug_off() {
    assert!(!Arg::default().debug);
    assert!(Arg { debug: true }.debug);
}

#[test]
fn defaults_of_the_settings() {
    assert_eq!(max_queue_capacity_default(), 100);
    assert_eq!(DEFAULT_DB_NAME, "rustle_blog");
    assert_eq!(DEFAULT_DB_USER, "rustle");
    assert_eq!(DEFAULT_HOST, "127.0.0.1");
    assert_eq!(DEFAULT_DB_PORT, 3306);
    assert_eq!(DEFAULT_MAIL_PORT, 465);
    assert_eq!(DEFAULT_HTTP_PORT, 5800);
}
