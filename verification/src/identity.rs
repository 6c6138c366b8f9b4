//! User identity: a durable mapping from email to a stable numeric
//! identifier, created at most once per email.
//!
//! Identifiers are assigned from a counter that only grows, so an identifier,
//! once handed out for an email, never changes and is never reused for
//! another email.

use vstd::prelude::*;
use vstd::string::StrSliceExecFns;
use crate::error::AppError;
use crate::kv::KvVec;

verus! {

/// The identity store. Contracts speak of `self@`, the map from email to
/// user identifier.
pub struct IdentityStore {
    emails: KvVec<i64>,
    next_id: i64,
}

impl View for IdentityStore {
    type V = Map<Seq<char>, i64>;

    closed spec fn view(&self) -> Map<Seq<char>, i64> {
        self.emails@
    }
}

impl IdentityStore {
    /// The store's invariant: distinct emails hold distinct identifiers, and
    /// every identifier handed out so far lies below the counter.
    pub closed spec fn wf(&self) -> bool {
        &&& self.emails.wf()
        &&& forall|k1: Seq<char>, k2: Seq<char>|
            #![trigger self@[k1], self@[k2]]
            self@.contains_key(k1) && self@.contains_key(k2) && k1 != k2 ==> self@[k1] != self@[k2]
        &&& forall|k: Seq<char>| #[trigger] self@.contains_key(k) ==> 1 <= self@[k] < self.next_id
        &&& self.next_id >= 1
    }

    /// The counter has reached the last representable identifier, so no new
    /// user can be created.
    pub closed spec fn ids_exhausted(&self) -> bool {
        self.next_id == i64::MAX
    }

    /// An empty store; identifiers start at 1.
    pub fn new() -> (s: Self)
        ensures
            s.wf(),
            s@ == Map::<Seq<char>, i64>::empty(),
            !s.ids_exhausted(),
    {
        IdentityStore { emails: KvVec::new(), next_id: 1 }
    }

    /// Resolve an email to its user identifier, creating the user if the
    /// email is unseen. An existing email resolves to its stored identifier
    /// and changes nothing; an unseen one is assigned the next identifier,
    /// which no other email holds. The one failure is a counter that has run
    /// out of identifiers, and only an unseen email can hit it.
    pub fn find_or_create(&mut self, email: &str) -> (r: Result<i64, AppError>)
        requires
            old(self).wf(),
        ensures
            final(self).wf(),
            match r {
                Ok(id) => if old(self)@.contains_key(email@) {
                    id == old(self)@[email@] && *final(self) == *old(self)
                } else {
                    !old(self).ids_exhausted() && final(self)@ == old(self)@.insert(email@, id)
                        && (forall|k: Seq<char>|
                        #[trigger] old(self)@.contains_key(k) ==> old(self)@[k] != id)
                },
                Err(e) => *final(self) == *old(self) && !old(self)@.contains_key(email@) && old(
                    self,
                ).ids_exhausted() && e.code == 500 && e.message@
                    == "IdentityStore: no user identifiers left"@ && e.user_message@ == Seq::<
                    char,
                >::empty(),
            },
    {
        if let Some(id) = self.emails.get(email) {
            return Ok(*id);
        }
        if self.next_id == i64::MAX {
            return Err(
                AppError::new("IdentityStore: no user identifiers left".to_owned()),
            );
        }
        let id = self.next_id;
        self.next_id = self.next_id + 1;
        self.emails.insert(email.to_owned(), id);
        Ok(id)
    }

    /// The email a user identifier belongs to, if any user holds it. With
    /// the invariant, at most one email can.
    pub fn email_of(&self, user_id: i64) -> (r: Option<&String>)
        requires
            self.wf(),
        ensures
            match r {
                Some(email) => self@.contains_key(email@) && self@[email@] == user_id,
                None => forall|k: Seq<char>| #[trigger] self@.contains_key(k) ==> self@[k]
                    != user_id,
            },
    {
        self.emails.key_of(user_id)
    }

    /// How many users exist.
    pub fn len(&self) -> (n: usize)
        requires
            self.wf(),
        ensures
            n == self@.dom().len(),
    {
        self.emails.len()
    }
}

/// Two emails holding the same identifier are the same email: identifiers
/// are never shared.
pub proof fn lemma_email_unique(s: &IdentityStore, e1: Seq<char>, e2: Seq<char>)
    requires
        s.wf(),
        s@.contains_key(e1),
        s@.contains_key(e2),
        s@[e1] == s@[e2],
    ensures
        e1 == e2,
{
}

/// Resolving an email is idempotent: once a first resolution has stored an
/// identifier for it, any store that grew from that point by inserts of
/// *other* emails still holds the same identifier for it — so a second
/// resolution returns the same identifier and creates nothing.
pub proof fn lemma_find_or_create_idempotent(
    m: Map<Seq<char>, i64>,
    email: Seq<char>,
    id: i64,
    other: Seq<char>,
    other_id: i64,
)
    requires
        other != email,
    ensures
        m.insert(email, id).contains_key(email),
        m.insert(email, id)[email] == id,
        m.insert(email, id).insert(other, other_id)[email] == id,
{
}

} // verus!
