use vstd::prelude::*;
use vstd::string::*;

verus! {

/// Name of the cookie that carries the access token.
pub const AUTH_TOKEN_STRING: &'static str = "access_token";

/// Name of the database that holds the service's collections.
pub const MONGO_DB_NAME: &'static str = "poc_rear";

/// Name of the collection of user records.
pub const MONGO_COLL_NAME_USERS: &'static str = "users";

/// What the authentication guard is configured with, built once at start-up.
pub struct AuthConfig {
    /// Name of the cookie that carries the token.
    pub cookie_name: String,
    /// Base URL of the token authority; also the issuer that tokens must name.
    pub authority: String,
    /// Development mode: tokens are not checked, their second segment names the user.
    pub dev_mode: bool,
}

impl AuthConfig {
    /// A configuration that reads the token from the `access_token` cookie.
    pub fn new(authority: String, dev_mode: bool) -> (r: AuthConfig)
        ensures
            r.cookie_name@ == AUTH_TOKEN_STRING@,
            r.authority@ == authority@,
            r.dev_mode == dev_mode,
    {
        AuthConfig { cookie_name: String::from_str(AUTH_TOKEN_STRING), authority, dev_mode }
    }
}

} // verus!
