use vstd::prelude::*;
use crate::types::err::{AppError, AppResult, GlobalUserError};
use crate::utils::paseto::verify_access_token;
use crate::utils::text::{chars_to_string, str_chars, trim_chars, trimmed};

verus! {

/// The text that an `authorization` header begins with.
pub const BEARER_PREFIX: &'static str = "Bearer ";

/// The middleware that lets only requests with a valid access token pass.
pub struct Auth;

/// The identity of the caller of a request, as the access token names it.
#[derive(Debug, Clone, Copy, PartialEq, Eq)]
pub struct UserIdentity {
    pub id: i32,
}

/// A service wrapped by `Auth`.
pub struct AuthMiddleware<S> {
    pub service: S,
}

impl Auth {
    /// Wraps `service`.
    pub fn create<S>(&self, service: S) -> (wrapped: AuthMiddleware<S>)
        ensures
            wrapped.service == service,
    {
        AuthMiddleware { service }
    }
}

/// The token that an `authorization` header carries: what follows
/// `Bearer `, without the white space at its ends. A header that does not
/// begin with `Bearer ` carries none.
pub open spec fn bearer_token_of(header: Seq<char>) -> Option<Seq<char>> {
    if header.len() >= 7 && header.take(7) == "Bearer "@ {
        Some(trimmed(header.skip(7)))
    } else {
        None
    }
}

/// The token of the `authorization` header of a request. `header` is
/// `None` where the request has no such header that is text.
pub fn bearer_token(header: Option<&str>) -> (r: AppResult<String>)
    ensures
        match header {
            None => r == Err::<String, AppError>(GlobalUserError::StatusUnauthorized.error()),
            Some(text) => match bearer_token_of(text@) {
                Some(token) => r is Ok && r.unwrap()@ == token,
                None => r == Err::<String, AppError>(GlobalUserError::StatusUnauthorized.error()),
            },
        },
{
    let text = match header {
        Some(text) => text,
        None => {
            return Err(GlobalUserError::StatusUnauthorized.to_error());
        },
    };
    let chars = str_chars(text);
    proof {
        reveal_strlit("Bearer ");
    }
    if chars.len() < 7 || chars[0] != 'B' || chars[1] != 'e' || chars[2] != 'a' || chars[3] != 'r'
        || chars[4] != 'e' || chars[5] != 'r' || chars[6] != ' ' {
        proof {
            if chars.len() >= 7 && text@.take(7) == "Bearer "@ {
                assert(text@.take(7)[0] == 'B');
                assert(text@.take(7)[1] == 'e');
                assert(text@.take(7)[2] == 'a');
                assert(text@.take(7)[3] == 'r');
                assert(text@.take(7)[4] == 'e');
                assert(text@.take(7)[5] == 'r');
                assert(text@.take(7)[6] == ' ');
            }
        }
        return Err(GlobalUserError::StatusUnauthorized.to_error());
    }
    assert(text@.take(7) =~= "Bearer "@);
    let mut rest: Vec<char> = Vec::new();
    let mut i: usize = 7;
    while i < chars.len()
        invariant
            7 <= i <= chars.len(),
            rest@ == chars@.subrange(7, i as int),
        decreases chars.len() - i,
    {
        rest.push(chars[i]);
        assert(chars@.subrange(7, i as int).push(chars@[i as int]) =~= chars@.subrange(7, i + 1));
        i = i + 1;
    }
    assert(chars@.subrange(7, chars.len() as int) =~= text@.skip(7));
    Ok(chars_to_string(&trim_chars(&rest)))
}

/// The identity of the caller of a request from its `authorization`
/// header, checked with the secret of the settings. Whether a token is
/// accepted depends on the present time. Every refusal is answered alike.
pub fn authenticate(secret: &str, header: Option<&str>) -> (r: AppResult<UserIdentity>)
    ensures
        r matches Err(e) ==> e == GlobalUserError::StatusUnauthorized.error(),
        (header matches Some(text) ==> bearer_token_of(text@) is None) ==> r is Err,
{
    let token = match bearer_token(header) {
        Ok(token) => token,
        Err(e) => {
            return Err(e);
        },
    };
    match verify_access_token(secret, token.as_str()) {
        Ok(id) => Ok(UserIdentity { id }),
        Err(_) => Err(GlobalUserError::StatusUnauthorized.to_error()),
    }
}

} // verus!
