//! The two request interceptors: one resolves the session cookie into an
//! identity and attaches the outcome to the request context, the other turns
//! the attached outcome into an access decision for protected routes.
//!
//! The context entry is `Option<Option<UserData>>`: the outer level says
//! whether injection ran at all, the inner one whether it found an identity.
//! A missing entry is a programming error in the route wiring — a server
//! fault — and is kept distinct from an anonymous request.

use vstd::prelude::*;
use crate::error::AppError;
use crate::identity::IdentityStore;
use crate::session::SessionRecord;
use crate::session::SessionStore;
use crate::session::spec_validate;
use crate::strutil::concat2;

verus! {

/// The request-scoped identity: never persisted, derived per request from
/// the session and identity stores.
#[derive(Clone, Debug)]
pub struct UserData {
    pub user_id: i64,
    pub user_email: String,
}

/// Relies on `chrono::Utc::now` and `DateTime::timestamp`: the current time
/// as whole seconds since the Unix epoch. Nothing is assumed about the value
/// the clock yields. `Utc::now` aborts on a system clock set before the
/// epoch — an environmental condition, not one any input selects.
#[verifier::external_body]
fn now_timestamp() -> i64 {
    chrono::Utc::now().timestamp()
}

pub open spec fn view_opt_str(c: Option<&str>) -> Option<Seq<char>> {
    match c {
        Some(s) => Some(s@),
        None => None,
    }
}

/// What identity a request carries: the user of a live session named by the
/// cookie, with the email that holds that user's identifier — and nothing
/// when there is no cookie, no live session, or no such user.
pub open spec fn spec_inject(
    sessions: Map<Seq<char>, SessionRecord>,
    users: Map<Seq<char>, i64>,
    cookie: Option<Seq<char>>,
    now: i64,
) -> Option<(i64, Seq<char>)> {
    match cookie {
        Some(t) => match spec_validate(sessions, t, now) {
            Some(uid) => if exists|e: Seq<char>| #[trigger] users.contains_key(e) && users[e]
                == uid {
                Some((uid, choose|e: Seq<char>| #[trigger] users.contains_key(e) && users[e] == uid))
            } else {
                None
            },
            None => None,
        },
        None => None,
    }
}

/// `r` is the identity `spec_inject` names, field for field.
pub open spec fn matches_inject(
    r: Option<UserData>,
    sessions: Map<Seq<char>, SessionRecord>,
    users: Map<Seq<char>, i64>,
    cookie: Option<Seq<char>>,
    now: i64,
) -> bool {
    match spec_inject(sessions, users, cookie, now) {
        Some(pair) => r matches Some(ud) && ud.user_id == pair.0 && ud.user_email@ == pair.1,
        None => r is None,
    }
}

/// Resolve the session cookie, if any, into an identity at time `now`.
/// Every failure — no cookie, malformed token, unknown or expired session,
/// wrong secret half, no user under the session's identifier — yields
/// `None`: this path runs on every request and never blocks one.
pub fn inject_user_data(
    cookie: Option<&str>,
    sessions: &SessionStore,
    users: &IdentityStore,
    now: i64,
) -> (r: Option<UserData>)
    requires
        sessions.wf(),
        users.wf(),
    ensures
        matches_inject(r, sessions@, users@, view_opt_str(cookie), now),
{
    let token = match cookie {
        Some(token) => token,
        None => {
            return None;
        },
    };
    let uid = match sessions.validate(token, now) {
        Some(uid) => uid,
        None => {
            return None;
        },
    };
    match users.email_of(uid) {
        Some(email) => {
            let ud = UserData { user_id: uid, user_email: email.clone() };
            proof {
                let e = choose|e: Seq<char>| #[trigger] users@.contains_key(e) && users@[e] == uid;
                crate::identity::lemma_email_unique(users, email@, e);
            }
            Some(ud)
        },
        None => None,
    }
}

/// As `inject_user_data`, at the clock's current time: reads the timestamp
/// once, resolves at it, and hands the timestamp back with the outcome, so
/// the outcome is pinned to the very moment that was read.
pub fn inject_user_data_now(
    cookie: Option<&str>,
    sessions: &SessionStore,
    users: &IdentityStore,
) -> (r: (i64, Option<UserData>))
    requires
        sessions.wf(),
        users.wf(),
    ensures
        matches_inject(r.1, sessions@, users@, view_opt_str(cookie), r.0),
{
    let now = now_timestamp();
    let outcome = inject_user_data(cookie, sessions, users, now);
    (now, outcome)
}

/// What a protected route does with the context entry injection left behind.
pub enum AuthDecision {
    /// An identity is attached: let the request through.
    Proceed,
    /// No identity: send the browser to the login start, carrying the URL it
    /// asked for so it can return there.
    RedirectToLogin(String),
    /// The entry itself is missing: injection never ran, which is an error
    /// in the route wiring, reported as a server fault — never treated as a
    /// logged-out user.
    ServerFault(AppError),
}

/// Decide whether a request may reach a protected route. The three shapes of
/// the context entry map onto the three decisions, each pinned exactly: a
/// missing entry is a fault, an empty one is a redirect that preserves the
/// request's URL, an identity proceeds.
pub fn check_auth(ctx: &Option<Option<UserData>>, request_uri: &str) -> (d: AuthDecision)
    ensures
        ctx is None ==> (d matches AuthDecision::ServerFault(e) && e.code == 500 && e.message@
            == "check_auth: extensions have no UserData"@ && e.user_message@ == Seq::<
            char,
        >::empty()),
        (ctx matches Some(inner) && inner is None) ==> (d matches AuthDecision::RedirectToLogin(u)
            && u@ == "/login?return_url="@ + request_uri@),
        (ctx matches Some(inner) && inner is Some) ==> d matches AuthDecision::Proceed,
{
    match ctx {
        None => AuthDecision::ServerFault(
            AppError::new("check_auth: extensions have no UserData".to_owned()),
        ),
        Some(None) => AuthDecision::RedirectToLogin(concat2("/login?return_url=", request_uri)),
        Some(Some(_)) => AuthDecision::Proceed,
    }
}

} // verus!
