use alcoholic_jwt::{Validation, JWK, JWKS};
use vstd::prelude::*;

verus! {

/// A JSON Web Key Set, as alcoholic_jwt reads it from the authority.
#[verifier::external_type_specification]
#[verifier::external_body]
pub struct ExJwks(JWKS);

/// One JSON Web Key of a key set.
#[verifier::external_type_specification]
#[verifier::external_body]
pub struct ExJwk(JWK);

/// A claim check that alcoholic_jwt's `validate` applies to a token.
#[verifier::external_type_specification]
pub struct ExValidation(Validation);

/// The key ids of the keys that `keys` holds, in order; a key without an id gives `None`.
pub uninterp spec fn jwks_key_ids(keys: JWKS) -> Seq<Option<Seq<char>>>;

/// The key that `keys` holds under the id `kid`: the first one with that id, if any.
pub uninterp spec fn jwks_find(keys: JWKS, kid: Seq<char>) -> Option<JWK>;

/// The subject of `token` when it passes validation against `key` with `issuer` as the
/// required issuer and a subject required; `None` when it does not, or when its subject
/// is not a string. It depends on these three alone.
pub uninterp spec fn validated_sub(token: Seq<char>, key: JWK, issuer: Seq<char>) -> Option<Seq<char>>;

/// The `kid` of the token's header, or `None` when the token has no such header
/// field or cannot be decoded.
pub uninterp spec fn header_kid(token: Seq<char>) -> Option<Seq<char>>;

/// Relies on alcoholic_jwt's `JWKS::find`: it returns the first key whose id is `kid`,
/// so it finds one exactly when some key of the set has that id, and the key it finds
/// depends on the set and the id alone.
pub assume_specification<'a, 'b>[ JWKS::find ](keys: &'a JWKS, kid: &'b str) -> (r: Option<&'a JWK>)
    ensures
        r is Some <==> jwks_key_ids(*keys).contains(Some(kid@)),
        match r {
            Some(k) => jwks_find(*keys, kid@) == Some(*k),
            None => jwks_find(*keys, kid@) is None,
        },
;

/// Relies on alcoholic_jwt's `token_kid`: it decodes the token's header and returns
/// its `kid`, which depends on the token alone; a decoding error is read as no `kid`.
#[verifier::external_body]
pub(crate) fn token_key_id(token: &str) -> (r: Option<String>)
    ensures
        match r {
            Some(k) => header_kid(token@) == Some(k@),
            None => header_kid(token@) is None,
        },
{
    alcoholic_jwt::token_kid(token).ok().flatten()
}

/// The claim checks that a token must pass: its issuer is `authority`, and it names a subject.
pub fn validation_rules(authority: &str) -> (r: Vec<Validation>)
    ensures
        r@.len() == 2,
        r@[0] matches Validation::Issuer(iss) && iss@ == authority@,
        r@[1] matches Validation::SubjectPresent,
{
    let mut rules: Vec<Validation> = Vec::new();
    rules.push(Validation::Issuer(authority.to_owned()));
    rules.push(Validation::SubjectPresent);
    rules
}

/// Relies on alcoholic_jwt's `validate`: it checks the token's signature against `key`
/// and then every claim check of `validations`. When all of them pass, the `sub` claim
/// is read from the validated claims; the result is `None` when the token is rejected
/// or its subject is not a string. With exactly an issuer check and a subject check, the
/// outcome depends on the token, the key and the issuer alone (no clock is read).
#[verifier::external_body]
pub(crate) fn validated_subject(token: &str, key: &JWK, validations: Vec<Validation>) -> (r: Option<String>)
    ensures
        validations@.len() == 2 ==> (validations@[1] is SubjectPresent ==> (
        validations@[0] matches Validation::Issuer(iss) ==> match r {
            Some(s) => validated_sub(token@, *key, iss@) == Some(s@),
            None => validated_sub(token@, *key, iss@) is None,
        })),
{
    let valid = alcoholic_jwt::validate(token, key, validations).ok()?;
    valid.claims.get("sub").and_then(|s| s.as_str()).map(|s| s.to_string())
}

} // verus!
