//! Verified string helpers: prefix tests, character search, substring
//! containment, and the split of a session token into its two halves.

use vstd::prelude::*;
use vstd::string::StrSliceExecFns;
use vstd::string::StringExecFns;

verus! {

/// `s` begins with `prefix`.
pub open spec fn starts_with_spec(s: Seq<char>, prefix: Seq<char>) -> bool {
    prefix.len() <= s.len() && s.subrange(0, prefix.len() as int) == prefix
}

/// `c` occurs somewhere in `s`.
pub open spec fn has_char(s: Seq<char>, c: char) -> bool {
    exists|i: int| 0 <= i < s.len() && s[i] == c
}

/// `needle` occurs as a contiguous run inside `haystack`.
pub open spec fn contains_seq(haystack: Seq<char>, needle: Seq<char>) -> bool {
    exists|i: int|
        0 <= i && i + needle.len() <= haystack.len() && #[trigger] haystack.subrange(
            i,
            i + needle.len() as int,
        ) == needle
}

pub fn str_starts_with(s: &str, prefix: &str) -> (b: bool)
    ensures
        b == starts_with_spec(s@, prefix@),
{
    let n = prefix.unicode_len();
    if n > s.unicode_len() {
        return false;
    }
    let mut i: usize = 0;
    while i < n
        invariant
            i <= n,
            n == prefix@.len(),
            n <= s@.len(),
            forall|j: int| 0 <= j < i ==> s@[j] == prefix@[j],
        decreases n - i,
    {
        if s.get_char(i) != prefix.get_char(i) {
            proof {
                assert(s@.subrange(0, n as int) != prefix@) by {
                    assert(s@.subrange(0, n as int)[i as int] == s@[i as int]);
                }
            }
            return false;
        }
        i += 1;
    }
    proof {
        assert(s@.subrange(0, n as int) =~= prefix@);
    }
    true
}

/// Character-for-character string equality.
pub fn str_eq(a: &str, b: &str) -> (r: bool)
    ensures
        r == (a@ == b@),
{
    let n = a.unicode_len();
    if n != b.unicode_len() {
        return false;
    }
    let mut i: usize = 0;
    while i < n
        invariant
            i <= n,
            n == a@.len(),
            n == b@.len(),
            forall|j: int| 0 <= j < i ==> a@[j] == b@[j],
        decreases n - i,
    {
        if a.get_char(i) != b.get_char(i) {
            return false;
        }
        i += 1;
    }
    proof {
        assert(a@ =~= b@);
    }
    true
}

/// The position of the first occurrence of `c` in `s`, if any.
pub fn find_char(s: &str, c: char) -> (r: Option<usize>)
    ensures
        match r {
            Some(i) => i < s@.len() && s@[i as int] == c && forall|j: int|
                0 <= j < i ==> s@[j] != c,
            None => !has_char(s@, c),
        },
{
    let n = s.unicode_len();
    let mut i: usize = 0;
    while i < n
        invariant
            i <= n,
            n == s@.len(),
            forall|j: int| 0 <= j < i ==> s@[j] != c,
        decreases n - i,
    {
        if s.get_char(i) == c {
            return Some(i);
        }
        i += 1;
    }
    None
}

/// `t` is `p1`, one underscore, then `p2`, where both halves are non-empty
/// and neither holds an underscore of its own. This is the shape a session
/// token must have: `p1` is the indexed lookup half, `p2` the secret half.
pub open spec fn is_token_split(t: Seq<char>, p1: Seq<char>, p2: Seq<char>) -> bool {
    &&& t == p1 + seq!['_'] + p2
    &&& p1.len() > 0
    &&& p2.len() > 0
    &&& !has_char(p1, '_')
    &&& !has_char(p2, '_')
}

/// How the characters of a joined token relate to its two halves.
pub proof fn lemma_split_index(t: Seq<char>, p1: Seq<char>, p2: Seq<char>)
    requires
        t == p1 + seq!['_'] + p2,
    ensures
        t.len() == p1.len() + 1 + p2.len(),
        forall|i: int| 0 <= i < p1.len() ==> t[i] == p1[i],
        t[p1.len() as int] == '_',
        forall|i: int| 0 <= i < p2.len() ==> t[p1.len() + 1 + i] == p2[i],
{
    assert forall|i: int| 0 <= i < p1.len() implies t[i] == p1[i] by {
        assert(t[i] == (p1 + seq!['_'] + p2)[i]);
    }
    assert(t[p1.len() as int] == (p1 + seq!['_'] + p2)[p1.len() as int]);
    assert forall|i: int| 0 <= i < p2.len() implies t[p1.len() + 1 + i] == p2[i] by {
        assert(t[p1.len() + 1 + i] == (p1 + seq!['_'] + p2)[p1.len() + 1 + i]);
    }
}

/// A token splits in at most one way.
pub proof fn lemma_token_split_unique(
    t: Seq<char>,
    p1: Seq<char>,
    p2: Seq<char>,
    q1: Seq<char>,
    q2: Seq<char>,
)
    requires
        is_token_split(t, p1, p2),
        is_token_split(t, q1, q2),
    ensures
        p1 == q1,
        p2 == q2,
{
    lemma_split_index(t, p1, p2);
    lemma_split_index(t, q1, q2);
    if p1.len() < q1.len() {
        assert(t[p1.len() as int] == '_');
        assert(t[p1.len() as int] == q1[p1.len() as int]);
        assert(has_char(q1, '_'));
    } else if q1.len() < p1.len() {
        assert(t[q1.len() as int] == '_');
        assert(t[q1.len() as int] == p1[q1.len() as int]);
        assert(has_char(p1, '_'));
    } else {
        assert(p1 =~= q1);
        assert(p2 =~= q2) by {
            assert forall|i: int| 0 <= i < p2.len() implies p2[i] == q2[i] by {
                assert(p2[i] == t[p1.len() + 1 + i]);
                assert(q2[i] == t[q1.len() + 1 + i]);
            }
        }
    }
}

/// Split a token into its two halves, failing closed unless the token is
/// exactly two non-empty underscore-free parts joined by one underscore.
pub fn split_token(t: &str) -> (r: Option<(String, String)>)
    ensures
        match r {
            Some(parts) => is_token_split(t@, parts.0@, parts.1@),
            None => forall|p1: Seq<char>, p2: Seq<char>| !is_token_split(t@, p1, p2),
        },
{
    let n = t.unicode_len();
    let sep = match find_char(t, '_') {
        Some(i) => i,
        None => {
            proof {
                assert forall|p1: Seq<char>, p2: Seq<char>| !is_token_split(t@, p1, p2) by {
                    if is_token_split(t@, p1, p2) {
                        lemma_split_index(t@, p1, p2);
                        assert(has_char(t@, '_'));
                    }
                }
            }
            return None;
        },
    };
    if sep == 0 || sep + 1 >= n {
        proof {
            lemma_no_split_at_edges(t@, sep as int);
        }
        return None;
    }
    let p1 = t.substring_char(0, sep).to_owned();
    let p2 = t.substring_char(sep + 1, n).to_owned();
    if let Some(k) = find_char(p2.as_str(), '_') {
        proof {
            lemma_no_split_second_underscore(t@, sep as int, sep + 1 + k as int);
        }
        return None;
    }
    proof {
        assert(t@ =~= p1@ + seq!['_'] + p2@);
    }
    Some((p1, p2))
}

/// If the first underscore of `t` stands at its very start or its very end,
/// no valid split of `t` exists.
proof fn lemma_no_split_at_edges(t: Seq<char>, sep: int)
    requires
        0 <= sep < t.len(),
        t[sep] == '_',
        forall|j: int| 0 <= j < sep ==> t[j] != '_',
        sep == 0 || sep + 1 == t.len(),
    ensures
        forall|p1: Seq<char>, p2: Seq<char>| !is_token_split(t, p1, p2),
{
    assert forall|p1: Seq<char>, p2: Seq<char>| !is_token_split(t, p1, p2) by {
        if is_token_split(t, p1, p2) {
            lemma_split_index(t, p1, p2);
            if p1.len() < sep {
                assert(t[p1.len() as int] != '_');
            } else if p1.len() > sep {
                assert(t[sep] == p1[sep]);
                assert(has_char(p1, '_'));
            } else {
                // p1.len() == sep: sep == 0 makes p1 empty; sep + 1 == t.len()
                // makes p2 empty.
                assert(t.len() == p1.len() + 1 + p2.len());
            }
        }
    }
}

/// If `t` holds a second underscore after its first one, no valid split of
/// `t` exists.
proof fn lemma_no_split_second_underscore(t: Seq<char>, sep: int, k: int)
    requires
        0 <= sep < k < t.len(),
        t[sep] == '_',
        t[k] == '_',
        forall|j: int| 0 <= j < sep ==> t[j] != '_',
    ensures
        forall|p1: Seq<char>, p2: Seq<char>| !is_token_split(t, p1, p2),
{
    assert forall|p1: Seq<char>, p2: Seq<char>| !is_token_split(t, p1, p2) by {
        if is_token_split(t, p1, p2) {
            lemma_split_index(t, p1, p2);
            if p1.len() < sep {
                assert(t[p1.len() as int] != '_');
            } else if p1.len() > sep {
                assert(t[sep] == p1[sep]);
                assert(has_char(p1, '_'));
            } else {
                assert(t[p1.len() + 1 + (k - sep - 1)] == p2[k - sep - 1]);
                assert(has_char(p2, '_'));
            }
        }
    }
}

/// Join the two halves of a token around one underscore.
pub fn join_token(p1: &str, p2: &str) -> (r: String)
    ensures
        r@ == p1@ + seq!['_'] + p2@,
{
    let mut r = p1.to_owned();
    r.append("_");
    r.append(p2);
    proof {
        reveal_strlit("_");
        assert(r@ =~= p1@ + seq!['_'] + p2@);
    }
    r
}

/// Concatenate two strings.
pub fn concat2(a: &str, b: &str) -> (r: String)
    ensures
        r@ == a@ + b@,
{
    let mut r = a.to_owned();
    r.append(b);
    r
}

/// Concatenate three strings.
pub fn concat3(a: &str, b: &str, c: &str) -> (r: String)
    ensures
        r@ == a@ + b@ + c@,
{
    let mut r = a.to_owned();
    r.append(b);
    r.append(c);
    r
}

} // verus!
