//! Text handling shared by the flows: trimming, case folding, and prefix
//! tests, all stated over sequences of characters.
//!
//! A string is read into its characters once; every function here takes
//! time linear in the length of its arguments.

use vstd::prelude::*;
use vstd::string::StrSliceExecFns;

verus! {

/// Whether `c` is white space, as `char::is_whitespace` decides it (the
/// Unicode property `White_Space`).
pub uninterp spec fn is_white_space(c: char) -> bool;

/// The lower-case form of a text, as `str::to_lowercase` computes it (the
/// Unicode lower-case mapping, which may change the number of characters).
pub uninterp spec fn lowercased(s: Seq<char>) -> Seq<char>;

/// The text of an optional string.
pub open spec fn opt_text(s: Option<String>) -> Option<Seq<char>> {
    match s {
        Some(t) => Some(t@),
        None => None,
    }
}

/// Calls `char::is_whitespace`. Trusted: the answer depends on the
/// character alone.
#[verifier::external_body]
fn char_is_whitespace(c: char) -> (b: bool)
    ensures
        b == is_white_space(c),
{
    c.is_whitespace()
}

/// Calls `str::to_lowercase`. Trusted: the result depends on the text
/// alone.
#[verifier::external_body]
fn str_to_lowercase(s: &str) -> (lower: String)
    ensures
        lower@ == lowercased(s@),
{
    s.to_lowercase()
}

/// The first position at or after `i` that holds no white space, or the
/// length of `s` if there is none.
pub open spec fn skip_space(s: Seq<char>, i: int) -> int
    decreases s.len() - i,
{
    if 0 <= i < s.len() && is_white_space(s[i]) {
        skip_space(s, i + 1)
    } else {
        i
    }
}

/// The end of the last stretch before `j` that ends in a character other
/// than white space, or 0 if there is none.
pub open spec fn drop_space(s: Seq<char>, j: int) -> int
    decreases j,
{
    if 0 < j <= s.len() && is_white_space(s[j - 1]) {
        drop_space(s, j - 1)
    } else {
        j
    }
}

/// `s` without its leading and trailing white space.
pub open spec fn trimmed(s: Seq<char>) -> Seq<char> {
    let from = skip_space(s, 0);
    let to = drop_space(s, s.len() as int);
    if from < to {
        s.subrange(from, to)
    } else {
        Seq::empty()
    }
}

/// What it means for `t` to be `s` trimmed: `t` is a stretch of `s`, all
/// that lies outside it is white space, and `t` neither starts nor ends
/// with white space.
pub open spec fn is_trim_of(t: Seq<char>, s: Seq<char>) -> bool {
    exists|from: int, to: int|
        {
            &&& 0 <= from <= to <= s.len()
            &&& t == #[trigger] s.subrange(from, to)
            &&& forall|k: int| 0 <= k < from ==> is_white_space(#[trigger] s[k])
            &&& forall|k: int| to <= k < s.len() ==> is_white_space(#[trigger] s[k])
            &&& t.len() > 0 ==> !is_white_space(t[0]) && !is_white_space(t[t.len() - 1])
        }
}

/// The address under which an account is stored and looked up: trimmed,
/// then lower-cased.
pub open spec fn normalized_email(raw: Seq<char>) -> Seq<char> {
    lowercased(trimmed(raw))
}

proof fn lemma_skip_space(s: Seq<char>, i: int)
    requires
        0 <= i <= s.len(),
    ensures
        i <= skip_space(s, i) <= s.len(),
        forall|k: int| i <= k < skip_space(s, i) ==> is_white_space(#[trigger] s[k]),
        skip_space(s, i) < s.len() ==> !is_white_space(s[skip_space(s, i)]),
    decreases s.len() - i,
{
    if i < s.len() && is_white_space(s[i]) {
        lemma_skip_space(s, i + 1);
    }
}

proof fn lemma_drop_space(s: Seq<char>, j: int)
    requires
        0 <= j <= s.len(),
    ensures
        0 <= drop_space(s, j) <= j,
        forall|k: int| drop_space(s, j) <= k < j ==> is_white_space(#[trigger] s[k]),
        drop_space(s, j) > 0 ==> !is_white_space(s[drop_space(s, j) - 1]),
    decreases j,
{
    if 0 < j && is_white_space(s[j - 1]) {
        lemma_drop_space(s, j - 1);
    }
}

/// Trimming removes exactly the white space at the two ends: the result
/// is a stretch of the text, nothing but white space lies outside it, and
/// it neither starts nor ends with white space.
pub proof fn lemma_trimmed_is_trim(s: Seq<char>)
    ensures
        is_trim_of(trimmed(s), s),
{
    let from = skip_space(s, 0);
    let to = drop_space(s, s.len() as int);
    lemma_skip_space(s, 0);
    lemma_drop_space(s, s.len() as int);
    if from < to {
        assert(s.subrange(from, to)[0] == s[from]);
        assert(s.subrange(from, to)[to - from - 1] == s[to - 1]);
        assert(is_trim_of(trimmed(s), s));
    } else {
        // Nothing but white space: every position lies before `from` or
        // at or after `to`.
        assert(from == s.len()) by {
            if from < s.len() {
                assert(!is_white_space(s[from]));
                assert(to > from);
            }
        }
        assert(trimmed(s) == s.subrange(from, from));
        assert(is_trim_of(trimmed(s), s));
    }
}

/// Trimming a text that has no white space at either end changes nothing.
pub proof fn lemma_trimmed_fixed(s: Seq<char>)
    requires
        s.len() > 0 ==> !is_white_space(s[0]) && !is_white_space(s[s.len() - 1]),
    ensures
        trimmed(s) == s,
{
    if s.len() > 0 {
        assert(s.subrange(0, s.len() as int) == s);
    }
}

/// Trimming what is trimmed changes nothing: a text has one trimmed form.
pub proof fn lemma_trimmed_twice(s: Seq<char>)
    ensures
        trimmed(trimmed(s)) == trimmed(s),
{
    lemma_trimmed_is_trim(s);
    lemma_trimmed_fixed(trimmed(s));
}

/// The characters of `s`, one by one.
pub fn to_chars(s: &str) -> (chars: Vec<char>)
    ensures
        chars@ == s@,
{
    let mut chars: Vec<char> = Vec::new();
    for c in it: s.chars()
        invariant
            chars.len() == it.index(),
            forall|j: int| 0 <= j < chars.len() ==> chars@[j] == it.seq()[j],
            it.seq() == s@,
    {
        chars.push(c);
    }
    chars
}

/// The number of characters of `s`.
pub fn char_count(s: &str) -> (n: usize)
    ensures
        n == s@.len(),
{
    s.unicode_len()
}

/// `s` without its leading and trailing white space.
pub fn trim(s: &str) -> (t: &str)
    ensures
        t@ == trimmed(s@),
{
    let chars = to_chars(s);
    let n = chars.len();
    let mut from: usize = 0;
    while from < n && char_is_whitespace(chars[from])
        invariant
            n == s@.len(),
            chars@ == s@,
            from <= n,
            skip_space(s@, 0) == skip_space(s@, from as int),
        decreases n - from,
    {
        from = from + 1;
    }
    let mut to: usize = n;
    while to > 0 && char_is_whitespace(chars[to - 1])
        invariant
            n == s@.len(),
            chars@ == s@,
            to <= n,
            drop_space(s@, n as int) == drop_space(s@, to as int),
        decreases to,
    {
        to = to - 1;
    }
    if from < to {
        s.substring_char(from, to)
    } else {
        s.substring_char(0, 0)
    }
}

/// The address under which an account is stored and looked up.
pub fn normalize_email(raw: &str) -> (email: String)
    ensures
        email@ == normalized_email(raw@),
{
    str_to_lowercase(trim(raw))
}

/// Whether `chars` begins with `prefix`.
pub fn has_prefix(chars: &[char], prefix: &[char]) -> (b: bool)
    ensures
        b == prefix@.is_prefix_of(chars@),
{
    let m = prefix.len();
    if chars.len() < m {
        return false;
    }
    let mut i: usize = 0;
    while i < m
        invariant
            m == prefix@.len(),
            m <= chars@.len(),
            i <= m,
            forall|k: int| 0 <= k < i ==> chars@[k] == prefix@[k],
        decreases m - i,
    {
        if chars[i] != prefix[i] {
            assert(chars@.subrange(0, m as int)[i as int] != prefix@[i as int]);
            return false;
        }
        i = i + 1;
    }
    assert(chars@.subrange(0, m as int) =~= prefix@);
    true
}

/// Whether `s` begins with the characters of `prefix`.
pub fn starts_with(s: &str, prefix: &str) -> (b: bool)
    ensures
        b == prefix@.is_prefix_of(s@),
{
    let chars = to_chars(s);
    let prefix = to_chars(prefix);
    has_prefix(chars.as_slice(), prefix.as_slice())
}

/// `s` from its `k`-th character on.
pub fn skip_chars(s: &str, k: usize) -> (rest: &str)
    requires
        k <= s@.len(),
    ensures
        rest@ == s@.subrange(k as int, s@.len() as int),
{
    let n = s.unicode_len();
    s.substring_char(k, n)
}

} // verus!
