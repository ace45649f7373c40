use vstd::prelude::*;

verus! {

/// Position of the first `c` in `s`, or `s.len()` when `s` holds no `c`.
pub open spec fn index_of(s: Seq<char>, c: char) -> nat
    decreases s.len(),
{
    if s.len() == 0 {
        0
    } else if s[0] == c {
        0
    } else {
        1 + index_of(s.drop_first(), c)
    }
}

/// `s` without its leading spaces.
pub open spec fn trim_leading_spaces(s: Seq<char>) -> Seq<char>
    decreases s.len(),
{
    if s.len() > 0 && s[0] == ' ' {
        trim_leading_spaces(s.drop_first())
    } else {
        s
    }
}

/// `index_of` is the one position that has no `c` before it and a `c` (or the end) at it.
pub proof fn lemma_index_of_is(s: Seq<char>, c: char, k: int)
    requires
        0 <= k <= s.len(),
        forall|j: int| 0 <= j < k ==> s[j] != c,
        k == s.len() || s[k] == c,
    ensures
        index_of(s, c) == k,
    decreases s.len(),
{
    if k > 0 {
        assert(s[0] != c);
        let t = s.drop_first();
        assert forall|j: int| 0 <= j < k - 1 implies t[j] != c by {
            assert(t[j] == s[j + 1]);
        }
        if k < s.len() {
            assert(t[k - 1] == s[k]);
        }
        lemma_index_of_is(t, c, k - 1);
    }
}

/// Trimming drops exactly the run of spaces that starts `s`.
pub proof fn lemma_trim_leading_spaces_is(s: Seq<char>, k: int)
    requires
        0 <= k <= s.len(),
        forall|j: int| 0 <= j < k ==> s[j] == ' ',
        k == s.len() || s[k] != ' ',
    ensures
        trim_leading_spaces(s) == s.skip(k),
    decreases s.len(),
{
    if k == 0 {
        assert(s.skip(0) =~= s);
    } else {
        let t = s.drop_first();
        assert forall|j: int| 0 <= j < k - 1 implies t[j] == ' ' by {
            assert(t[j] == s[j + 1]);
        }
        if k < s.len() {
            assert(t[k - 1] == s[k]);
        }
        lemma_trim_leading_spaces_is(t, k - 1);
        assert(t.skip(k - 1) =~= s.skip(k));
    }
}

/// The first position at or after `from` that holds `c`, or `len` when there is none.
pub fn find_char(s: &str, c: char, from: usize, len: usize) -> (k: usize)
    requires
        len == s@.len(),
        from <= len,
    ensures
        from <= k <= len,
        forall|j: int| from <= j < k ==> s@[j] != c,
        k < len ==> s@[k as int] == c,
        index_of(s@.subrange(from as int, len as int), c) == k - from,
{
    let mut k = from;
    while k < len && s.get_char(k) != c
        invariant
            len == s@.len(),
            from <= k <= len,
            forall|j: int| from <= j < k ==> s@[j] != c,
        decreases len - k,
    {
        k = k + 1;
    }
    proof {
        let t = s@.subrange(from as int, len as int);
        assert forall|j: int| 0 <= j < k - from implies t[j] != c by {
            assert(t[j] == s@[from + j]);
        }
        if k < len {
            assert(t[k - from] == s@[k as int]);
        }
        lemma_index_of_is(t, c, k - from);
    }
    k
}

/// The first position at or after `from`, and before `to`, that holds no space.
pub fn skip_spaces(s: &str, from: usize, to: usize) -> (k: usize)
    requires
        from <= to <= s@.len(),
    ensures
        from <= k <= to,
        trim_leading_spaces(s@.subrange(from as int, to as int)) == s@.subrange(k as int, to as int),
{
    let mut k = from;
    while k < to && s.get_char(k) == ' '
        invariant
            from <= k <= to <= s@.len(),
            forall|j: int| from <= j < k ==> s@[j] == ' ',
        decreases to - k,
    {
        k = k + 1;
    }
    proof {
        let t = s@.subrange(from as int, to as int);
        assert forall|j: int| 0 <= j < k - from implies t[j] == ' ' by {
            assert(t[j] == s@[from + j]);
        }
        if k < to {
            assert(t[k - from] == s@[k as int]);
        }
        lemma_trim_leading_spaces_is(t, k - from);
        assert(t.skip(k - from) =~= s@.subrange(k as int, to as int));
    }
    k
}

/// Whether `s` holds `word` at `at`, read left to right.
pub fn holds_at(s: &str, at: usize, word: &str, word_len: usize) -> (r: bool)
    requires
        word_len == word@.len(),
        at + word_len <= s@.len() <= usize::MAX,
    ensures
        r == (s@.subrange(at as int, at + word_len) == word@),
{
    let mut i: usize = 0;
    while i < word_len
        invariant
            word_len == word@.len(),
            at + word_len <= s@.len() <= usize::MAX,
            i <= word_len,
            forall|j: int| 0 <= j < i ==> s@[at + j] == word@[j],
        decreases word_len - i,
    {
        if s.get_char(at + i) != word.get_char(i) {
            assert(s@.subrange(at as int, at + word_len)[i as int] != word@[i as int]);
            return false;
        }
        i = i + 1;
    }
    assert(s@.subrange(at as int, at + word_len) =~= word@);
    true
}

} // verus!
