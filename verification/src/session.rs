//! Server-side sessions under a split token.
//!
//! A session token is two halves joined by one underscore. The first half is
//! the non-secret lookup key; the second half is the secret, held to a fixed
//! length and compared only through a fixed-time primitive, so a lookup leaks
//! nothing through timing about where a mismatch sits. A session is valid
//! until its expiry passes; expiry is lazy, checked on each read.

use vstd::prelude::*;
use vstd::string::StrSliceExecFns;
use crate::kv::KvVec;
use crate::strutil::has_char;
use crate::strutil::is_token_split;
use crate::strutil::join_token;
use crate::strutil::lemma_token_split_unique;
use crate::strutil::split_token;
use crate::strutil::find_char;

verus! {

/// Seconds a fresh session lives: one day.
pub const SESSION_LIFETIME_SECONDS: i64 = 86400;

/// The fixed character length of the secret half of a token.
pub const TOKEN_PART2_LEN: usize = 36;

/// The characters a freshly minted token half is made of: lowercase
/// hexadecimal digits and hyphens. In particular no underscore, so a joined
/// token splits back into exactly its two halves.
pub open spec fn token_part_chars(s: Seq<char>) -> bool {
    forall|i: int|
        0 <= i < s.len() ==> ('0' <= #[trigger] s[i] <= '9' || 'a' <= s[i] <= 'f' || s[i] == '-')
}

/// Hexadecimal digits and hyphens do not include the underscore.
pub proof fn lemma_token_part_no_underscore(s: Seq<char>)
    requires
        token_part_chars(s),
    ensures
        !has_char(s, '_'),
{
    if has_char(s, '_') {
        let i = choose|i: int| 0 <= i < s.len() && s[i] == '_';
        assert('0' <= s[i] <= '9' || 'a' <= s[i] <= 'f' || s[i] == '-');
    }
}

/// Relies on `uuid::Uuid::new_v4` and its display form: a fresh version-4
/// UUID rendered hyphenated, which is always 36 characters, each a lowercase
/// hexadecimal digit or a hyphen. Nothing is assumed about which UUID comes
/// back.
#[verifier::external_body]
fn fresh_token_part() -> (r: String)
    ensures
        r@.len() == 36,
        token_part_chars(r@),
{
    uuid::Uuid::new_v4().to_string()
}

/// Relies on `constant_time_eq::constant_time_eq`: plain equality of the two
/// byte strings, computed without an early exit on the first mismatch, and
/// false when the lengths differ. Two `&str` are equal as character
/// sequences exactly when their UTF-8 bytes are equal.
#[verifier::external_body]
fn constant_time_str_eq(a: &str, b: &str) -> (r: bool)
    ensures
        r == (a@ == b@),
{
    constant_time_eq::constant_time_eq(a.as_bytes(), b.as_bytes())
}

/// What the store holds for one session. The record sits under its token's
/// first half; `token_p2` is the secret second half.
#[derive(Debug)]
pub struct SessionRecord {
    pub token_p2: String,
    pub user_id: i64,
    pub created_at: i64,
    pub expires_at: i64,
}

/// The session store. Contracts speak of `self@`, the map from the
/// non-secret first half of a token to the session record under it.
pub struct SessionStore {
    records: KvVec<SessionRecord>,
}

impl View for SessionStore {
    type V = Map<Seq<char>, SessionRecord>;

    closed spec fn view(&self) -> Map<Seq<char>, SessionRecord> {
        self.records@
    }
}

/// What validating `t` at time `now` against the store contents `m` yields:
/// the user of the matching live session, or nothing. A token that is not
/// exactly two non-empty underscore-free halves fails closed, as does a
/// wrong length of the secret half, an unknown lookup half, a mismatched
/// secret half, and a session whose expiry is not in the future.
pub open spec fn spec_validate(m: Map<Seq<char>, SessionRecord>, t: Seq<char>, now: i64) -> Option<
    i64,
> {
    if exists|p1: Seq<char>, p2: Seq<char>| is_token_split(t, p1, p2) {
        let (p1, p2) = choose|p1: Seq<char>, p2: Seq<char>| is_token_split(t, p1, p2);
        if p2.len() == TOKEN_PART2_LEN && m.contains_key(p1) && m[p1].token_p2@ == p2
            && m[p1].expires_at > now {
            Some(m[p1].user_id)
        } else {
            None
        }
    } else {
        None
    }
}

/// How a store that just opened a session relates to the store before: one
/// fresh record, keyed by the new token's first half, carrying its secret
/// second half, the user, the creation time and a one-day expiry; `token` is
/// the joined pair the browser receives.
pub open spec fn created_session(
    s0: Map<Seq<char>, SessionRecord>,
    s1: Map<Seq<char>, SessionRecord>,
    token: Seq<char>,
    user_id: i64,
    now: i64,
) -> bool {
    exists|p1: Seq<char>|
        #[trigger] s1.contains_key(p1) && {
            let rec = s1[p1];
            &&& is_token_split(token, p1, rec.token_p2@)
            &&& p1.len() == 36
            &&& token_part_chars(p1)
            &&& rec.token_p2@.len() == TOKEN_PART2_LEN
            &&& token_part_chars(rec.token_p2@)
            &&& rec.user_id == user_id
            &&& rec.created_at == now
            &&& rec.expires_at == now + SESSION_LIFETIME_SECONDS
            &&& s1 == s0.insert(p1, rec)
        }
}

/// The data-model invariant every stored session obeys: its expiry lies
/// strictly after its creation.
pub open spec fn sessions_expire_after_creation(m: Map<Seq<char>, SessionRecord>) -> bool {
    forall|k: Seq<char>| #[trigger] m.contains_key(k) ==> m[k].created_at < m[k].expires_at
}

impl SessionStore {
    pub closed spec fn wf(&self) -> bool {
        &&& self.records.wf()
        &&& sessions_expire_after_creation(self@)
    }

    /// A well-formed store never holds a session whose expiry is not after
    /// its creation.
    pub proof fn lemma_expiry_after_creation(&self)
        requires
            self.wf(),
        ensures
            sessions_expire_after_creation(self@),
    {
    }

    /// An empty store.
    pub fn new() -> (s: Self)
        ensures
            s.wf(),
            s@ == Map::<Seq<char>, SessionRecord>::empty(),
    {
        SessionStore { records: KvVec::new() }
    }

    /// Open a session for `user_id` at time `now`: mint the two random token
    /// halves, store the record under the first half with a one-day expiry,
    /// and hand back the joined token.
    pub fn create(&mut self, user_id: i64, now: i64) -> (token: String)
        requires
            old(self).wf(),
            now <= i64::MAX - SESSION_LIFETIME_SECONDS,
        ensures
            final(self).wf(),
            created_session(old(self)@, final(self)@, token@, user_id, now),
    {
        let p1 = fresh_token_part();
        let p2 = fresh_token_part();
        let token = join_token(p1.as_str(), p2.as_str());
        let rec = SessionRecord {
            token_p2: p2,
            user_id,
            created_at: now,
            expires_at: now + SESSION_LIFETIME_SECONDS,
        };
        proof {
            lemma_token_part_no_underscore(p1@);
            lemma_token_part_no_underscore(rec.token_p2@);
        }
        let ghost gp1 = p1@;
        let ghost grec = rec;
        self.records.insert(p1, rec);
        proof {
            assert(self@.contains_key(gp1));
            assert(self@[gp1] == grec);
            assert(is_token_split(token@, gp1, grec.token_p2@));
        }
        token
    }

    /// Validate a presented token at time `now`. The secret half is compared
    /// through the fixed-time primitive, never by short-circuiting equality.
    pub fn validate(&self, token: &str, now: i64) -> (r: Option<i64>)
        requires
            self.wf(),
        ensures
            r == spec_validate(self@, token@, now),
    {
        let parts = match split_token(token) {
            Some(parts) => parts,
            None => {
                return None;
            },
        };
        proof {
            let (q1, q2) = choose|q1: Seq<char>, q2: Seq<char>| is_token_split(token@, q1, q2);
            lemma_token_split_unique(token@, parts.0@, parts.1@, q1, q2);
        }
        let (p1, p2) = parts;
        if p2.unicode_len() != TOKEN_PART2_LEN {
            return None;
        }
        match self.records.get(p1.as_str()) {
            None => None,
            Some(rec) => {
                if constant_time_str_eq(p2.as_str(), rec.token_p2.as_str()) {
                    if rec.expires_at > now {
                        Some(rec.user_id)
                    } else {
                        None
                    }
                } else {
                    None
                }
            },
        }
    }

    /// Remove the session a token points at, keyed by the token's lookup
    /// half: its prefix up to the first underscore, or all of it when it has
    /// none. Deleting what is not there changes nothing.
    pub fn delete(&mut self, token: &str)
        requires
            old(self).wf(),
        ensures
            final(self).wf(),
            exists|p1: Seq<char>|
                #[trigger] is_lookup_half(token@, p1) && final(self)@ == old(self)@.remove(p1),
    {
        let ghost m0 = self@;
        let sep = match find_char(token, '_') {
            Some(i) => i,
            None => {
                let _ = self.records.remove(token);
                proof {
                    assert(self@ =~= m0.remove(token@));
                    assert(token@ =~= token@.subrange(0, token@.len() as int));
                    assert(is_lookup_half(token@, token@));
                }
                return ;
            },
        };
        let p1 = token.substring_char(0, sep);
        let _ = self.records.remove(p1);
        proof {
            assert(self@ =~= m0.remove(p1@));
            assert forall|j: int| 0 <= j < p1@.len() implies p1@[j] != '_' by {
                assert(p1@[j] == token@[j]);
            }
            assert(is_lookup_half(token@, p1@));
        }
    }

    /// How many sessions the store holds.
    pub fn len(&self) -> (n: usize)
        requires
            self.wf(),
        ensures
            n == self@.dom().len(),
    {
        self.records.len()
    }
}

/// `p1` is the lookup half of `t`: its prefix up to the first underscore, or
/// all of `t` when `t` holds none.
pub open spec fn is_lookup_half(t: Seq<char>, p1: Seq<char>) -> bool {
    &&& p1.len() <= t.len()
    &&& p1 == t.subrange(0, p1.len() as int)
    &&& !has_char(p1, '_')
    &&& (p1.len() == t.len() || t[p1.len() as int] == '_')
}

/// A freshly created session validates to its user while its expiry is in
/// the future, and to nothing once the expiry has passed: the whole of what
/// a lookup of the new token can yield, at any time and over any prior store
/// contents.
pub proof fn lemma_validate_created(
    m: Map<Seq<char>, SessionRecord>,
    p1: Seq<char>,
    rec: SessionRecord,
    at: i64,
)
    requires
        p1.len() > 0,
        !has_char(p1, '_'),
        rec.token_p2@.len() == TOKEN_PART2_LEN,
        !has_char(rec.token_p2@, '_'),
    ensures
        spec_validate(m.insert(p1, rec), p1 + seq!['_'] + rec.token_p2@, at) == if rec.expires_at
            > at {
            Some(rec.user_id)
        } else {
            None::<i64>
        },
{
    let t = p1 + seq!['_'] + rec.token_p2@;
    assert(is_token_split(t, p1, rec.token_p2@));
    let (q1, q2) = choose|q1: Seq<char>, q2: Seq<char>| is_token_split(t, q1, q2);
    lemma_token_split_unique(t, p1, rec.token_p2@, q1, q2);
}

/// Once its record is deleted, a token validates to nothing, whatever the
/// time and the rest of the store.
pub proof fn lemma_validate_after_delete(
    m: Map<Seq<char>, SessionRecord>,
    p1: Seq<char>,
    p2: Seq<char>,
    at: i64,
)
    requires
        p1.len() > 0,
        p2.len() > 0,
        !has_char(p1, '_'),
        !has_char(p2, '_'),
    ensures
        spec_validate(m.remove(p1), p1 + seq!['_'] + p2, at) == None::<i64>,
{
    let t = p1 + seq!['_'] + p2;
    assert(is_token_split(t, p1, p2));
    let (q1, q2) = choose|q1: Seq<char>, q2: Seq<char>| is_token_split(t, q1, q2);
    lemma_token_split_unique(t, p1, p2, q1, q2);
}

/// A token whose secret half differs from the stored one — anywhere, by as
/// little as one character — validates to nothing. The fixed-time comparison
/// makes the rejection's timing independent of where the difference sits;
/// what is provable here is the rejection itself.
pub proof fn lemma_validate_wrong_secret(
    m: Map<Seq<char>, SessionRecord>,
    p1: Seq<char>,
    p2: Seq<char>,
    at: i64,
)
    requires
        p1.len() > 0,
        p2.len() > 0,
        !has_char(p1, '_'),
        !has_char(p2, '_'),
        m.contains_key(p1) ==> m[p1].token_p2@ != p2,
    ensures
        spec_validate(m, p1 + seq!['_'] + p2, at) == None::<i64>,
{
    let t = p1 + seq!['_'] + p2;
    assert(is_token_split(t, p1, p2));
    let (q1, q2) = choose|q1: Seq<char>, q2: Seq<char>| is_token_split(t, q1, q2);
    lemma_token_split_unique(t, p1, p2, q1, q2);
}

/// A token whose session was just opened validates to that session's user at
/// any time before the expiry, and to nothing from the expiry on — whatever
/// the store held before.
pub proof fn lemma_created_validates(
    s0: Map<Seq<char>, SessionRecord>,
    s1: Map<Seq<char>, SessionRecord>,
    token: Seq<char>,
    user_id: i64,
    now: i64,
    at: i64,
)
    requires
        created_session(s0, s1, token, user_id, now),
    ensures
        spec_validate(s1, token, at) == if now + SESSION_LIFETIME_SECONDS > at {
            Some(user_id)
        } else {
            None::<i64>
        },
{
    let p1 = choose|p1: Seq<char>|
        #[trigger] s1.contains_key(p1) && {
            let rec = s1[p1];
            &&& is_token_split(token, p1, rec.token_p2@)
            &&& p1.len() == 36
            &&& token_part_chars(p1)
            &&& rec.token_p2@.len() == TOKEN_PART2_LEN
            &&& token_part_chars(rec.token_p2@)
            &&& rec.user_id == user_id
            &&& rec.created_at == now
            &&& rec.expires_at == now + SESSION_LIFETIME_SECONDS
            &&& s1 == s0.insert(p1, rec)
        };
    let rec = s1[p1];
    lemma_token_part_no_underscore(p1);
    lemma_token_part_no_underscore(rec.token_p2@);
    lemma_validate_created(s0, p1, rec, at);
}

/// Once a token's session is deleted — by the token, as `delete` does — the
/// token validates to nothing, whatever the time: the other half of the
/// fresh-session law.
pub proof fn lemma_deleted_token_does_not_validate(
    s0: Map<Seq<char>, SessionRecord>,
    s1: Map<Seq<char>, SessionRecord>,
    token: Seq<char>,
    user_id: i64,
    now: i64,
    q1: Seq<char>,
    at: i64,
)
    requires
        created_session(s0, s1, token, user_id, now),
        is_lookup_half(token, q1),
    ensures
        spec_validate(s1.remove(q1), token, at) == None::<i64>,
{
    let p1 = choose|p1: Seq<char>|
        #[trigger] s1.contains_key(p1) && {
            let rec = s1[p1];
            &&& is_token_split(token, p1, rec.token_p2@)
            &&& p1.len() == 36
            &&& token_part_chars(p1)
            &&& rec.token_p2@.len() == TOKEN_PART2_LEN
            &&& token_part_chars(rec.token_p2@)
            &&& rec.user_id == user_id
            &&& rec.created_at == now
            &&& rec.expires_at == now + SESSION_LIFETIME_SECONDS
            &&& s1 == s0.insert(p1, rec)
        };
    let rec = s1[p1];
    lemma_token_part_no_underscore(p1);
    lemma_token_part_no_underscore(rec.token_p2@);
    lemma_lookup_half_of_split(token, p1, rec.token_p2@, q1);
    lemma_validate_after_delete(s1, p1, rec.token_p2@, at);
}

/// The lookup half of a well-formed joined token is exactly its first half,
/// so deleting by a token removes the very record its first half indexes.
pub proof fn lemma_lookup_half_of_split(t: Seq<char>, p1: Seq<char>, p2: Seq<char>, q1: Seq<char>)
    requires
        is_token_split(t, p1, p2),
        is_lookup_half(t, q1),
    ensures
        q1 == p1,
{
    crate::strutil::lemma_split_index(t, p1, p2);
    if q1.len() < p1.len() {
        assert(t[q1.len() as int] == p1[q1.len() as int]);
        assert(t[q1.len() as int] == '_');
        assert(has_char(p1, '_'));
    } else if q1.len() > p1.len() {
        assert(q1[p1.len() as int] == t[p1.len() as int]);
        assert(has_char(q1, '_'));
    } else {
        assert(q1 =~= p1) by {
            assert(forall|i: int| 0 <= i < p1.len() ==> q1[i] == t[i] && p1[i] == t[i]);
        }
    }
}

} // verus!
