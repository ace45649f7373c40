use vstd::prelude::*;

verus! {

/// What is required when creating a new user.
#[derive(Clone, Debug, PartialEq, Eq)]
pub struct DtoUserCreate {
    pub username: String,
    pub password: String,
    pub email: String,
}

/// What is required when a user is logging in.
#[derive(Clone, Debug, PartialEq, Eq)]
pub struct DtoUserLogin {
    pub username: String,
    pub password: String,
}

/// A user's identity as handed to request handlers: the stored record without its password.
/// The id is the record's object id in hexadecimal; times are milliseconds since the epoch.
#[derive(Clone, Debug, PartialEq, Eq)]
pub struct DtoUser {
    pub id: String,
    pub username: String,
    pub email: String,
    pub created_at_ms: i64,
    pub updated_at_ms: i64,
}

/// A user record as it is stored.
#[derive(Clone, Debug, PartialEq, Eq)]
pub struct UserModel {
    pub id: String,
    pub username: String,
    pub password: String,
    pub email: String,
    pub created_at_ms: i64,
    pub updated_at_ms: i64,
}

/// `d` is the identity of the stored record `m`.
pub open spec fn is_identity_of(d: DtoUser, m: UserModel) -> bool {
    &&& d.id@ == m.id@
    &&& d.username@ == m.username@
    &&& d.email@ == m.email@
    &&& d.created_at_ms == m.created_at_ms
    &&& d.updated_at_ms == m.updated_at_ms
}

impl DtoUser {
    /// The identity of a stored record: every field but the password.
    pub fn from_model(m: UserModel) -> (r: DtoUser)
        ensures
            is_identity_of(r, m),
    {
        DtoUser {
            id: m.id,
            username: m.username,
            email: m.email,
            created_at_ms: m.created_at_ms,
            updated_at_ms: m.updated_at_ms,
        }
    }
}

} // verus!
