use vstd::prelude::*;
use vstd::string::*;

use crate::text::{find_char, index_of};

verus! {

/// The second `.`-separated segment of `token`: what lies between its first dot and
/// the next dot (or its end). `None` when the token has no dot.
pub open spec fn second_segment(token: Seq<char>) -> Option<Seq<char>> {
    let a = index_of(token, '.');
    if a < token.len() {
        let rest = token.skip(a + 1 as int);
        Some(rest.take(index_of(rest, '.') as int))
    } else {
        None
    }
}

/// The user name that a development-mode token carries: its second `.`-separated segment.
pub fn dev_lookup_key(token: &str) -> (r: Option<String>)
    ensures
        match r {
            Some(u) => second_segment(token@) == Some(u@),
            None => second_segment(token@) is None,
        },
{
    let len = token.unicode_len();
    let a = find_char(token, '.', 0, len);
    assert(token@.subrange(0, len as int) =~= token@);
    if a == len {
        return None;
    }
    let b = find_char(token, '.', a + 1, len);
    let u = token.substring_char(a + 1, b).to_owned();
    proof {
        let rest = token@.skip(a + 1 as int);
        assert(token@.subrange(a + 1 as int, len as int) =~= rest);
        assert(rest.take(index_of(rest, '.') as int) =~= u@);
    }
    Some(u)
}

/// Where the authority publishes its key set: `<authority>/.well-known/jwks.json`,
/// with no second `/` when the authority already ends in one.
pub open spec fn jwks_uri_of(authority: Seq<char>) -> Seq<char> {
    if authority.len() > 0 && authority.last() == '/' {
        authority + ".well-known/jwks.json"@
    } else {
        authority + "/"@ + ".well-known/jwks.json"@
    }
}

/// The address of the authority's key set.
pub fn jwks_uri(authority: &str) -> (r: String)
    ensures
        r@ == jwks_uri_of(authority@),
{
    let n = authority.unicode_len();
    let mut uri = authority.to_owned();
    if n == 0 || authority.get_char(n - 1) != '/' {
        uri.append("/");
    }
    uri.append(".well-known/jwks.json");
    uri
}

/// The token that a login hands out: the user name between two fixed segments,
/// so that its second segment names the user.
pub open spec fn session_token_of(username: Seq<char>) -> Seq<char> {
    "testing."@ + username + ".testing"@
}

/// The token issued to `username` at login.
pub fn session_token(username: &str) -> (r: String)
    ensures
        r@ == session_token_of(username@),
{
    let mut t = String::from_str("testing.");
    t.append(username);
    t.append(".testing");
    t
}

} // verus!
