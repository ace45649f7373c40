use vstd::prelude::*;
use vstd::string::*;

use crate::text::{find_char, holds_at, index_of, skip_spaces, trim_leading_spaces};

verus! {

/// The value of one `name=value` entry of a `Cookie` header, when the entry
/// (spaces before it dropped) carries the cookie `name`.
pub open spec fn pair_value(entry: Seq<char>, name: Seq<char>) -> Option<Seq<char>> {
    let t = trim_leading_spaces(entry);
    if name.len() < t.len() && t.take(name.len() as int) == name && t[name.len() as int] == '=' {
        Some(t.skip(name.len() + 1 as int))
    } else {
        None
    }
}

/// The value of the first entry of the `;`-separated `header` that carries the cookie `name`.
pub open spec fn cookie_value(header: Seq<char>, name: Seq<char>) -> Option<Seq<char>>
    decreases header.len(),
{
    let end = index_of(header, ';');
    match pair_value(header.take(end as int), name) {
        Some(v) => Some(v),
        None => if end < header.len() {
            cookie_value(header.skip(end + 1 as int), name)
        } else {
            None
        },
    }
}

/// The value of the cookie `cookie_name` in the `Cookie` header `cookie_header`:
/// the first `;`-separated entry that reads `cookie_name=value`, leading spaces aside.
pub fn extract_access_token(cookie_header: &str, cookie_name: &str) -> (r: Option<String>)
    ensures
        match r {
            Some(v) => cookie_value(cookie_header@, cookie_name@) == Some(v@),
            None => cookie_value(cookie_header@, cookie_name@) is None,
        },
{
    let len = cookie_header.unicode_len();
    let name_len = cookie_name.unicode_len();
    let ghost h = cookie_header@;
    let ghost name = cookie_name@;
    let mut start: usize = 0;
    assert(h.skip(0) =~= h);
    loop
        invariant
            len == h.len(),
            h == cookie_header@,
            name == cookie_name@,
            name_len == name.len(),
            start <= len,
            cookie_value(h, name) == cookie_value(h.skip(start as int), name),
        decreases len - start,
    {
        let end = find_char(cookie_header, ';', start, len);
        let k = skip_spaces(cookie_header, start, end);
        let ghost rest = h.skip(start as int);
        let ghost entry = h.subrange(start as int, end as int);
        proof {
            assert(h.subrange(start as int, len as int) =~= rest);
            assert(rest.take(index_of(rest, ';') as int) =~= entry);
        }
        let found = name_len < end - k && holds_at(cookie_header, k, cookie_name, name_len)
            && cookie_header.get_char(k + name_len) == '=';
        proof {
            let t = trim_leading_spaces(entry);
            assert(t == h.subrange(k as int, end as int));
            if name_len < end - k {
                assert(t.take(name.len() as int) =~= h.subrange(k as int, k + name_len));
                assert(t[name.len() as int] == h[k + name_len]);
            }
        }
        if found {
            let v = cookie_header.substring_char(k + name_len + 1, end).to_owned();
            proof {
                let t = trim_leading_spaces(entry);
                assert(t.skip(name.len() + 1 as int) =~= v@);
            }
            return Some(v);
        }
        if end == len {
            return None;
        }
        proof {
            assert(rest.skip(index_of(rest, ';') + 1 as int) =~= h.skip(end + 1 as int));
        }
        start = end + 1;
    }
}

} // verus!
