use vstd::prelude::*;
use crate::external::mail::MailConfig;
use crate::types::config::{BaseConfig, ConfigInitializer};
use crate::types::service::AppService;
use crate::utils::hmac::CredentialConfig;
use crate::utils::paseto::AuthTokenConfig;
use crate::utils::password_salt::PasswordSaltConfig;

verus! {

/// What the steps that check the settings come to together, from the
/// answer of each: an error where a step failed; else whether a step has
/// changed the settings.
pub open spec fn steps_answer(answers: Seq<Result<bool, ()>>) -> Result<bool, ()> {
    if exists|i: int| 0 <= i < answers.len() && answers[i] is Err {
        Err(())
    } else {
        Ok(exists|i: int| 0 <= i < answers.len() && answers[i] == Ok::<bool, ()>(true))
    }
}

/// The settings `c4` and the answer `answer` are what the four steps make
/// of the settings `c0`, each step working on what the step before left:
/// the password salt, the token key, the credential secret, the mail
/// settings. Every step is run, also after one has failed.
pub open spec fn steps_run(c0: BaseConfig, c4: BaseConfig, answer: Result<bool, ()>) -> bool {
    exists|c1: BaseConfig, c2: BaseConfig, c3: BaseConfig, a: Seq<Result<bool, ()>>|
        #![trigger steps_chain(c0, c1, c2, c3, c4, a)]
        steps_chain(c0, c1, c2, c3, c4, a) && answer == steps_answer(a)
}

/// The four steps lead from `c0` over `c1`, `c2`, `c3` to `c4`, with the
/// answers `a`.
pub open spec fn steps_chain(
    c0: BaseConfig,
    c1: BaseConfig,
    c2: BaseConfig,
    c3: BaseConfig,
    c4: BaseConfig,
    a: Seq<Result<bool, ()>>,
) -> bool {
    &&& a.len() == 4
    &&& PasswordSaltConfig::initialized(c0, c1, a[0])
    &&& AuthTokenConfig::initialized(c1, c2, a[1])
    &&& CredentialConfig::initialized(c2, c3, a[2])
    &&& MailConfig::initialized(c3, c4, a[3])
}

/// Runs the steps that check the settings, one after the other.
pub fn initialize_config(config: &mut BaseConfig) -> (answer: Result<bool, ()>)
    ensures
        steps_run(*old(config), *final(config), answer),
{
    let ghost c0 = *config;
    let mut need_rewrite = false;
    let mut has_err = false;
    let a0 = PasswordSaltConfig::initialize(config);
    let ghost c1 = *config;
    match a0 {
        Ok(b) => {
            need_rewrite = need_rewrite || b;
        },
        Err(_) => {
            has_err = true;
        },
    }
    let a1 = AuthTokenConfig::initialize(config);
    let ghost c2 = *config;
    match a1 {
        Ok(b) => {
            need_rewrite = need_rewrite || b;
        },
        Err(_) => {
            has_err = true;
        },
    }
    let a2 = CredentialConfig::initialize(config);
    let ghost c3 = *config;
    match a2 {
        Ok(b) => {
            need_rewrite = need_rewrite || b;
        },
        Err(_) => {
            has_err = true;
        },
    }
    let a3 = MailConfig::initialize(config);
    match a3 {
        Ok(b) => {
            need_rewrite = need_rewrite || b;
        },
        Err(_) => {
            has_err = true;
        },
    }
    let ghost a = seq![a0, a1, a2, a3];
    proof {
        assert(steps_chain(c0, c1, c2, c3, *config, a));
        if has_err {
            assert(a[0] is Err || a[1] is Err || a[2] is Err || a[3] is Err);
        }
        if !has_err && need_rewrite {
            assert(a[0] == Ok::<bool, ()>(true) || a[1] == Ok::<bool, ()>(true) || a[2] == Ok::<
                bool,
                (),
            >(true) || a[3] == Ok::<bool, ()>(true));
        }
    }
    if has_err {
        Err(())
    } else {
        Ok(need_rewrite)
    }
}

/// Makes the settings that were read ready for use. The answer holds the
/// settings to use and says whether they have to be written back because
/// a step has changed them. Settings that a step found unusable give an
/// error.
pub fn load_config(config: BaseConfig) -> (r: Result<(BaseConfig, bool), ()>)
    ensures
        match r {
            Ok((ready, rewrite)) => steps_run(config, ready, Ok(rewrite)),
            Err(_) => exists|left: BaseConfig| steps_run(config, left, Err(())),
        },
{
    let mut ready = config;
    match initialize_config(&mut ready) {
        Ok(rewrite) => Ok((ready, rewrite)),
        Err(_) => Err(()),
    }
}

/// The service that holds the settings.
pub struct ConfigService;

impl AppService for ConfigService {
    open spec fn service_name() -> &'static str {
        "ConfigService"
    }

    fn name() -> (name: &'static str) {
        "ConfigService"
    }
}

} // verus!
