use alcoholic_jwt::JWKS;
use vstd::prelude::*;

use crate::config::AuthConfig;
use crate::cookie::{cookie_value, extract_access_token, pair_value};
use crate::jwt::{
    header_kid, jwks_find, jwks_key_ids, token_key_id, validated_sub, validated_subject, validation_rules,
};
use crate::text::{lemma_index_of_is, lemma_trim_leading_spaces_is};
use crate::token::{dev_lookup_key, jwks_uri, jwks_uri_of, second_segment, session_token_of};
use crate::user::{is_identity_of, DtoUser, UserModel};

verus! {

/// Why a request is turned away, with the HTTP status it is answered with.
#[derive(Clone, Copy, Debug, PartialEq, Eq, Structural)]
pub enum Rejection {
    Unauthorized,
    BadRequest,
    NotFound,
    Conflict,
    InternalError,
}

impl Rejection {
    /// The HTTP status code of the rejection.
    pub open spec fn status(self) -> u16 {
        match self {
            Rejection::Unauthorized => 401,
            Rejection::BadRequest => 400,
            Rejection::NotFound => 404,
            Rejection::Conflict => 409,
            Rejection::InternalError => 500,
        }
    }

    /// The HTTP status code of the rejection.
    pub fn status_code(&self) -> (r: u16)
        ensures
            r == self.status(),
    {
        match self {
            Rejection::Unauthorized => 401,
            Rejection::BadRequest => 400,
            Rejection::NotFound => 404,
            Rejection::Conflict => 409,
            Rejection::InternalError => 500,
        }
    }
}

/// What the guard asks its caller to do next for one request.
#[derive(Debug, PartialEq, Eq)]
pub enum AuthStep {
    /// Fetch the key set at `uri`, then hand it to `validate_access_token` with `token`.
    FetchKeySet { uri: String, token: String },
    /// Look the user up by name, then hand the answer to `after_user_lookup`.
    FindUser { username: String },
    /// Answer the request with the rejection's status.
    Reject(Rejection),
}

/// The value of an `AuthStep`.
pub enum GuardStep {
    FetchKeySet { uri: Seq<char>, token: Seq<char> },
    FindUser { username: Seq<char> },
    Reject { failure: Rejection },
}

impl View for AuthStep {
    type V = GuardStep;

    open spec fn view(&self) -> GuardStep {
        match self {
            AuthStep::FetchKeySet { uri, token } => GuardStep::FetchKeySet { uri: uri@, token: token@ },
            AuthStep::FindUser { username } => GuardStep::FindUser { username: username@ },
            AuthStep::Reject(f) => GuardStep::Reject { failure: *f },
        }
    }
}

/// How the guard ends for one request: the identity handed to the handler, or a rejection.
#[derive(Debug, PartialEq, Eq)]
pub enum AuthOutcome {
    Admit(DtoUser),
    Reject(Rejection),
}

/// The step that answers the request with `f`.
pub open spec fn reject(f: Rejection) -> GuardStep {
    GuardStep::Reject { failure: f }
}

/// The first step for a request whose `Cookie` header is `header`.
pub open spec fn first_step(config: AuthConfig, header: Option<Seq<char>>) -> GuardStep {
    match header {
        None => reject(Rejection::Unauthorized),
        Some(h) => match cookie_value(h, config.cookie_name@) {
            None => reject(Rejection::Unauthorized),
            Some(token) => if config.dev_mode {
                match second_segment(token) {
                    Some(u) => GuardStep::FindUser { username: u },
                    None => reject(Rejection::Unauthorized),
                }
            } else {
                GuardStep::FetchKeySet { uri: jwks_uri_of(config.authority@), token }
            },
        },
    }
}

/// The value of an optional string.
pub open spec fn text_view(t: Option<String>) -> Option<Seq<char>> {
    match t {
        Some(s) => Some(s@),
        None => None,
    }
}

/// The value of an optional header.
pub open spec fn header_view(cookie_header: Option<&str>) -> Option<Seq<char>> {
    match cookie_header {
        Some(h) => Some(h@),
        None => None,
    }
}

/// The step for a token whose validation produced `subject`: a present,
/// non-empty subject names the user to look up.
pub open spec fn subject_step(subject: Option<Seq<char>>) -> GuardStep {
    match subject {
        Some(u) => if u.len() > 0 {
            GuardStep::FindUser { username: u }
        } else {
            reject(Rejection::Unauthorized)
        },
        None => reject(Rejection::Unauthorized),
    }
}

/// The step for `token` once the key set `keys` was fetched: a token without a `kid`,
/// or whose `kid` names no key of the set, is unauthorized; otherwise the subject that
/// validation against that key yields, with `authority` as the required issuer, decides.
pub open spec fn key_set_step(authority: Seq<char>, token: Seq<char>, keys: JWKS) -> GuardStep {
    match header_kid(token) {
        None => reject(Rejection::Unauthorized),
        Some(kid) => match jwks_find(keys, kid) {
            None => reject(Rejection::Unauthorized),
            Some(key) => subject_step(validated_sub(token, key, authority)),
        },
    }
}

/// Starts the guard on a request whose `Cookie` header is `cookie_header`. Without the
/// token cookie the request is unauthorized. In development mode the token's second
/// segment names the user; otherwise the authority's key set must be fetched first.
pub fn begin(config: &AuthConfig, cookie_header: Option<&str>) -> (r: AuthStep)
    ensures
        r@ == first_step(*config, header_view(cookie_header)),
        cookie_header is None ==> r@ == reject(Rejection::Unauthorized),
        cookie_header matches Some(h) && cookie_value(h@, config.cookie_name@) is None
            ==> r@ == reject(Rejection::Unauthorized),
{
    let h = match cookie_header {
        Some(h) => h,
        None => return AuthStep::Reject(Rejection::Unauthorized),
    };
    let token = match extract_access_token(h, config.cookie_name.as_str()) {
        Some(t) => t,
        None => return AuthStep::Reject(Rejection::Unauthorized),
    };
    if config.dev_mode {
        match dev_lookup_key(token.as_str()) {
            Some(u) => AuthStep::FindUser { username: u },
            None => AuthStep::Reject(Rejection::Unauthorized),
        }
    } else {
        AuthStep::FetchKeySet { uri: jwks_uri(config.authority.as_str()), token }
    }
}

/// The step for a token whose validation produced `subject`.
pub fn step_for_subject(subject: Option<String>) -> (r: AuthStep)
    ensures
        r@ == subject_step(text_view(subject)),
{
    match subject {
        Some(s) => {
            if s.as_str().unicode_len() > 0 {
                AuthStep::FindUser { username: s }
            } else {
                AuthStep::Reject(Rejection::Unauthorized)
            }
        },
        None => AuthStep::Reject(Rejection::Unauthorized),
    }
}

/// Continues the guard once the key set was fetched (`None`: the fetch failed).
/// A failed fetch is an internal error. A token without a `kid`, or whose `kid`
/// names no key of the set, is unauthorized. Otherwise the token is validated
/// against that key, with the configured authority as the required issuer, and
/// the validated subject decides the step.
pub fn validate_access_token(config: &AuthConfig, token: &str, fetched: Option<&JWKS>) -> (r: AuthStep)
    ensures
        fetched is None ==> r@ == reject(Rejection::InternalError),
        fetched matches Some(keys) ==> r@ == key_set_step(config.authority@, token@, *keys),
        fetched matches Some(keys) ==> match header_kid(token@) {
            None => r@ == reject(Rejection::Unauthorized),
            Some(kid) => if jwks_key_ids(*keys).contains(Some(kid)) {
                r@ == subject_step(validated_sub(token@, jwks_find(*keys, kid)->0, config.authority@))
            } else {
                r@ == reject(Rejection::Unauthorized)
            },
        },
{
    let keys = match fetched {
        Some(k) => k,
        None => return AuthStep::Reject(Rejection::InternalError),
    };
    let kid = match token_key_id(token) {
        Some(k) => k,
        None => return AuthStep::Reject(Rejection::Unauthorized),
    };
    let key = match keys.find(kid.as_str()) {
        Some(k) => k,
        None => return AuthStep::Reject(Rejection::Unauthorized),
    };
    let rules = validation_rules(config.authority.as_str());
    let subject = validated_subject(token, key, rules);
    step_for_subject(subject)
}

/// Ends the guard with the answer of the user lookup (`Err`: the store failed).
/// A failed lookup is an internal error, a missing user is unauthorized, and a
/// found user's identity is handed on.
pub fn after_user_lookup(found: Result<Option<UserModel>, ()>) -> (r: AuthOutcome)
    ensures
        match found {
            Err(_) => r == AuthOutcome::Reject(Rejection::InternalError),
            Ok(None) => r == AuthOutcome::Reject(Rejection::Unauthorized),
            Ok(Some(m)) => r matches AuthOutcome::Admit(d) && is_identity_of(d, m),
        },
{
    match found {
        Err(_) => AuthOutcome::Reject(Rejection::InternalError),
        Ok(None) => AuthOutcome::Reject(Rejection::Unauthorized),
        Ok(Some(m)) => AuthOutcome::Admit(DtoUser::from_model(m)),
    }
}

/// Two requests whose cookie headers carry the same token cookie take the same
/// steps: the same first step and, in production mode, the same step once the same key
/// set was fetched. The guard reads nothing else of the request and keeps no state, so
/// the same token resolves to the same lookup each time.
pub proof fn lemma_same_token_same_step(config: AuthConfig, h1: Seq<char>, h2: Seq<char>, keys: JWKS)
    requires
        cookie_value(h1, config.cookie_name@) == cookie_value(h2, config.cookie_name@),
    ensures
        first_step(config, Some(h1)) == first_step(config, Some(h2)),
        first_step(config, Some(h1)) matches GuardStep::FetchKeySet { token: t1, .. } ==> (
        first_step(config, Some(h2)) matches GuardStep::FetchKeySet { token: t2, .. }
            && key_set_step(config.authority@, t1, keys) == key_set_step(config.authority@, t2, keys)),
{
}

/// Two lookups that find the same stored record hand on the same identity.
pub proof fn lemma_same_record_same_identity(d1: DtoUser, d2: DtoUser, m: UserModel)
    requires
        is_identity_of(d1, m),
        is_identity_of(d2, m),
    ensures
        d1.id@ == d2.id@,
        d1.username@ == d2.username@,
        d1.email@ == d2.email@,
        d1.created_at_ms == d2.created_at_ms,
        d1.updated_at_ms == d2.updated_at_ms,
{
}

/// In development mode, the token that a login hands out names the user who logged in:
/// a request whose `Cookie` header is the cookie set at login (`name=token`) is looked up
/// under that user's name, for a user name without `.` or `;`, and a cookie name without
/// `;` that does not start with a space.
pub proof fn lemma_login_token_names_user(config: AuthConfig, username: Seq<char>)
    requires
        config.dev_mode,
        config.cookie_name@.len() > 0,
        config.cookie_name@[0] != ' ',
        !config.cookie_name@.contains(';'),
        !username.contains('.'),
        !username.contains(';'),
    ensures
        first_step(config, Some(config.cookie_name@ + "="@ + session_token_of(username)))
            == (GuardStep::FindUser { username }),
{
    reveal_strlit("=");
    reveal_strlit("testing.");
    reveal_strlit(".testing");
    let name = config.cookie_name@;
    let token = session_token_of(username);
    let h = name + "="@ + token;
    assert(token =~= seq!['t', 'e', 's', 't', 'i', 'n', 'g', '.'] + username + seq![
        '.',
        't',
        'e',
        's',
        't',
        'i',
        'n',
        'g',
    ]);
    // The header is a single entry: it holds no `;`.
    assert forall|j: int| 0 <= j < h.len() implies h[j] != ';' by {
        if j < name.len() {
            assert(h[j] == name[j]);
        } else if j > name.len() + 8 && j < name.len() + 9 + username.len() {
            assert(h[j] == username[j - name.len() - 9]);
        }
    }
    lemma_index_of_is(h, ';', h.len() as int);
    assert(h.take(h.len() as int) =~= h);
    lemma_trim_leading_spaces_is(h, 0);
    assert(h.skip(0) =~= h);
    assert(h.take(name.len() as int) =~= name);
    assert(h.skip(name.len() + 1 as int) =~= token);
    assert(pair_value(h, name) == Some(token));
    assert(cookie_value(h, name) == Some(token));
    // The token's first dot ends `testing`, the next one follows the user name.
    lemma_index_of_is(token, '.', 7);
    let rest = token.skip(8);
    assert(rest =~= username + ".testing"@);
    assert forall|j: int| 0 <= j < username.len() implies rest[j] != '.' by {
        assert(rest[j] == username[j]);
    }
    lemma_index_of_is(rest, '.', username.len() as int);
    assert(rest.take(username.len() as int) =~= username);
}

} // verus!
