//! Single-use handshake state, keyed by CSRF token.
//!
//! A record is written when a login starts and is read-and-deleted in one
//! step when the provider redirects back. Consuming is the only read, so a
//! record can serve at most one callback.

use vstd::prelude::*;
use crate::kv::KvVec;

verus! {

/// What a login start records under its CSRF token: the PKCE verifier for
/// the later code exchange, and the URL to send the user back to.
#[derive(Debug)]
pub struct OAuthStateRecord {
    pub pkce_verifier: String,
    pub return_url: String,
}

/// Durable, single-use records keyed by CSRF token. Contracts speak of
/// `self@`, the map from CSRF token to record.
pub struct OAuthStateStore {
    records: KvVec<OAuthStateRecord>,
}

impl View for OAuthStateStore {
    type V = Map<Seq<char>, OAuthStateRecord>;

    closed spec fn view(&self) -> Map<Seq<char>, OAuthStateRecord> {
        self.records@
    }
}

impl OAuthStateStore {
    pub closed spec fn wf(&self) -> bool {
        self.records.wf()
    }

    /// An empty store.
    pub fn new() -> (s: Self)
        ensures
            s.wf(),
            s@ == Map::<Seq<char>, OAuthStateRecord>::empty(),
    {
        OAuthStateStore { records: KvVec::new() }
    }

    /// Record a started handshake under its CSRF token.
    pub fn insert(&mut self, csrf_token: String, pkce_verifier: String, return_url: String)
        requires
            old(self).wf(),
        ensures
            final(self).wf(),
            final(self)@ == old(self)@.insert(
                csrf_token@,
                (OAuthStateRecord { pkce_verifier, return_url }),
            ),
    {
        self.records.insert(csrf_token, OAuthStateRecord { pkce_verifier, return_url });
    }

    /// Read and delete the record under `csrf_token`, in one step: a second
    /// consume of the same token finds nothing.
    pub fn consume(&mut self, csrf_token: &str) -> (r: Option<OAuthStateRecord>)
        requires
            old(self).wf(),
        ensures
            final(self).wf(),
            match r {
                Some(rec) => old(self)@.contains_key(csrf_token@) && rec == old(
                    self,
                )@[csrf_token@] && final(self)@ == old(self)@.remove(csrf_token@),
                None => !old(self)@.contains_key(csrf_token@) && *final(self) == *old(self),
            },
    {
        self.records.remove(csrf_token)
    }

    /// How many handshakes are pending.
    pub fn len(&self) -> (n: usize)
        requires
            self.wf(),
        ensures
            n == self@.dom().len(),
    {
        self.records.len()
    }
}

/// A state record is single-use: whatever store a consume leaves behind, the
/// consumed token is no longer a key of it, so a second consume of the same
/// token finds nothing.
pub proof fn lemma_state_single_use(m: Map<Seq<char>, OAuthStateRecord>, csrf_token: Seq<char>)
    ensures
        !m.remove(csrf_token).contains_key(csrf_token),
{
}

} // verus!
