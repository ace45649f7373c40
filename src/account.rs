use vstd::prelude::*;

use crate::guard::Rejection;
use crate::user::{DtoUserCreate, UserModel};

verus! {

/// Decides a sign-up, given what the store found under the new user name (`Err`: the
/// store failed): a name that is taken is a conflict.
pub fn admit_new_user(existing: Result<Option<UserModel>, ()>) -> (r: Result<(), Rejection>)
    ensures
        match existing {
            Err(_) => r == Err::<(), Rejection>(Rejection::InternalError),
            Ok(Some(_)) => r == Err::<(), Rejection>(Rejection::Conflict),
            Ok(None) => r == Ok::<(), Rejection>(()),
        },
{
    match existing {
        Err(_) => Err(Rejection::InternalError),
        Ok(Some(_)) => Err(Rejection::Conflict),
        Ok(None) => Ok(()),
    }
}

/// The record stored for a sign-up form, under the fresh id `id`, created and
/// updated at `now_ms`.
pub fn new_user_record(form: DtoUserCreate, id: String, now_ms: i64) -> (r: UserModel)
    ensures
        r.id@ == id@,
        r.username@ == form.username@,
        r.password@ == form.password@,
        r.email@ == form.email@,
        r.created_at_ms == now_ms,
        r.updated_at_ms == now_ms,
{
    UserModel {
        id,
        username: form.username,
        password: form.password,
        email: form.email,
        created_at_ms: now_ms,
        updated_at_ms: now_ms,
    }
}

/// Answers a request for one stored item (a user, a word, the word of the day), given
/// what the store found (`Err`: the store failed).
pub fn found<T>(lookup: Result<Option<T>, ()>) -> (r: Result<T, Rejection>)
    ensures
        match lookup {
            Err(_) => r == Err::<T, Rejection>(Rejection::InternalError),
            Ok(None) => r == Err::<T, Rejection>(Rejection::NotFound),
            Ok(Some(u)) => r == Ok::<T, Rejection>(u),
        },
{
    match lookup {
        Err(_) => Err(Rejection::InternalError),
        Ok(None) => Err(Rejection::NotFound),
        Ok(Some(u)) => Ok(u),
    }
}

} // verus!
