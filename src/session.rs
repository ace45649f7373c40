use vstd::prelude::*;
use vstd::string::*;

use crate::config::AuthConfig;
use crate::guard::Rejection;
use crate::token::{session_token, session_token_of};
use crate::user::{DtoUserLogin, UserModel};

verus! {

/// The value that a logout stores in the token cookie.
pub const INVALIDATED_TOKEN: &'static str = "invalidated";

/// The `Set-Cookie` value that stores `value` in the cookie `name`: sent back on every
/// path, hidden from scripts, kept to the same site, and marked `Secure` outside
/// development mode.
pub open spec fn set_cookie_of(name: Seq<char>, value: Seq<char>, dev_mode: bool) -> Seq<char> {
    let base = name + "="@ + value + "; Path=/; HttpOnly; SameSite=Strict; Max-Age=999999"@;
    if dev_mode {
        base
    } else {
        base + "; Secure"@
    }
}

/// The `Set-Cookie` value that stores `value` in the configured token cookie.
pub fn set_cookie(config: &AuthConfig, value: &str) -> (r: String)
    ensures
        r@ == set_cookie_of(config.cookie_name@, value@, config.dev_mode),
{
    let mut c = config.cookie_name.clone();
    c.append("=");
    c.append(value);
    c.append("; Path=/; HttpOnly; SameSite=Strict; Max-Age=999999");
    if !config.dev_mode {
        c.append("; Secure");
    }
    c
}

/// The `Set-Cookie` value of a successful login by `username`.
pub fn login_cookie(config: &AuthConfig, username: &str) -> (r: String)
    ensures
        r@ == set_cookie_of(config.cookie_name@, session_token_of(username@), config.dev_mode),
{
    let token = session_token(username);
    set_cookie(config, token.as_str())
}

/// The `Set-Cookie` value of a logout: the token cookie is overwritten.
pub fn logout_cookie(config: &AuthConfig) -> (r: String)
    ensures
        r@ == set_cookie_of(config.cookie_name@, INVALIDATED_TOKEN@, config.dev_mode),
{
    set_cookie(config, INVALIDATED_TOKEN)
}

/// Answers a login form, given what the store found under its user name (`Err`: the
/// store failed). The login succeeds, with the session cookie for the user, only when a
/// record was found whose user name and password both equal the form's.
///
/// Known defect: passwords are stored and compared in plain text. They should be
/// stored as salted hashes from a slow password hash, and a login should compare
/// hashes instead.
pub fn login_response(config: &AuthConfig, form: &DtoUserLogin, stored: Result<Option<UserModel>, ()>) -> (r: Result<String, Rejection>)
    ensures
        match stored {
            Err(_) => r == Err::<String, Rejection>(Rejection::InternalError),
            Ok(None) => r == Err::<String, Rejection>(Rejection::Unauthorized),
            Ok(Some(u)) => if u.username@ == form.username@ && u.password@ == form.password@ {
                r matches Ok(c) && c@ == set_cookie_of(
                    config.cookie_name@,
                    session_token_of(form.username@),
                    config.dev_mode,
                )
            } else {
                r == Err::<String, Rejection>(Rejection::Unauthorized)
            },
        },
{
    match stored {
        Err(_) => Err(Rejection::InternalError),
        Ok(None) => Err(Rejection::Unauthorized),
        Ok(Some(u)) => {
            if u.username == form.username && u.password == form.password {
                Ok(login_cookie(config, form.username.as_str()))
            } else {
                Err(Rejection::Unauthorized)
            }
        },
    }
}

/// Answers a logout by the current user, given what the store found under the user's
/// name (`Err`: the store failed): the cookie is overwritten only for a stored user.
pub fn logout_response(config: &AuthConfig, stored: Result<Option<UserModel>, ()>) -> (r: Result<String, Rejection>)
    ensures
        match stored {
            Err(_) => r == Err::<String, Rejection>(Rejection::InternalError),
            Ok(None) => r == Err::<String, Rejection>(Rejection::BadRequest),
            Ok(Some(_)) => r matches Ok(c) && c@ == set_cookie_of(
                config.cookie_name@,
                INVALIDATED_TOKEN@,
                config.dev_mode,
            ),
        },
{
    match stored {
        Err(_) => Err(Rejection::InternalError),
        Ok(None) => Err(Rejection::BadRequest),
        Ok(Some(_)) => Ok(logout_cookie(config)),
    }
}

} // verus!
