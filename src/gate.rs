//! The authentication gate that every request passes, and the session
//! cookie it reads.

use vstd::prelude::*;
use vstd::string::StringExecFns;
use crate::refresh::{expiry_of, grant_fits, TokenGrant};
use crate::resolver::resolve_in;
use crate::session::{find_user, has_member, live, User};
use crate::store::{has_id, SessionTable};
use crate::text::{has_prefix, signed_decimal, signed_text, starts_with, text_eq};

verus! {

/// Name of the cookie that carries the session id.
pub const COOKIE_NAME: &'static str = "asklp_session";

/// The public landing page, which is also the login page.
pub const LANDING_PATH: &'static str = "/";

/// The authenticated area.
pub const APP_HOME: &'static str = "/app";

/// Whether `path` is the public landing route.
pub open spec fn is_landing(path: Seq<char>) -> bool {
    path == seq!['/']
}

/// Whether `path` lies under the protected prefix.
pub open spec fn is_protected(path: Seq<char>) -> bool {
    has_prefix(path, seq!['/', 'a', 'p', 'p'])
}

/// What becomes of a request at the authentication checkpoint.
#[derive(Debug)]
pub enum Gate {
    /// Send a signed-in user from the landing page to the app.
    RedirectToApp,
    /// Send an anonymous user away from a protected page to the login page.
    RedirectToLogin,
    /// Run the handler, with the identity attached where there is one.
    Proceed(Option<User>),
}

/// The decision for a request with this identity (if any) and path.
pub open spec fn gate_outcome(user: Option<User>, path: Seq<char>) -> Gate {
    match user {
        Some(u) => if is_landing(path) {
            Gate::RedirectToApp
        } else {
            Gate::Proceed(Some(u))
        },
        None => if is_protected(path) {
            Gate::RedirectToLogin
        } else {
            Gate::Proceed(None)
        },
    }
}

/// Decides a request from the identity resolved for it, if any, and its
/// path.
pub fn gate(user: Option<User>, path: &str) -> (r: Gate)
    ensures
        r == gate_outcome(user, path@),
{
    proof {
        reveal_strlit("/");
        reveal_strlit("/app");
        assert("/"@ =~= seq!['/']);
    }
    match user {
        Some(u) => if text_eq(path, "/") {
            Gate::RedirectToApp
        } else {
            Gate::Proceed(Some(u))
        },
        None => {
            assert("/app"@ =~= seq!['/', 'a', 'p', 'p']);
            if starts_with(path, "/app") {
                Gate::RedirectToLogin
            } else {
                Gate::Proceed(None)
            }
        },
    }
}

/// The whole checkpoint for one request, against `sessions` and `users`:
/// the session named by the cookie is resolved at `now` (refreshed with
/// `answer`, the provider's answer, where it has expired), its owner looked
/// up, and the request decided. A missing cookie, session or owner, or a
/// failed refresh, makes the request anonymous.
pub fn checkpoint(
    sessions: &mut SessionTable,
    users: &Vec<User>,
    key: &[u8; 32],
    cookie: Option<&str>,
    path: &str,
    now: i64,
    answer: &Result<TokenGrant, String>,
) -> (r: Gate)
    requires
        old(sessions).wf(),
        answer matches Ok(g) ==> grant_fits(*g),
    ensures
        final(sessions).wf(),
        cookie.is_none() ==> r == gate_outcome(None, path@) && final(sessions)@ == old(sessions)@,
        cookie matches Some(id) && !has_id(old(sessions)@, id@) ==> r == gate_outcome(None, path@),
        forall|i: int|
            0 <= i < old(sessions)@.len() && cookie is Some && #[trigger] old(sessions)@[i].id == cookie.unwrap()@ ==> {
                let row = old(sessions)@[i];
                let refreshed = answer matches Ok(g) && g.refresh_token.is_some() && expiry_of(now as int, g.expires_in)
                    <= i64::MAX;
                &&& !live(row, now as int) && !refreshed ==> r == gate_outcome(None, path@)
                &&& !has_member(users@, row.user_id) ==> r == gate_outcome(None, path@)
                &&& (live(row, now as int) || refreshed) && has_member(users@, row.user_id) ==> {
                    &&& is_landing(path@) ==> r == Gate::RedirectToApp
                    &&& !is_landing(path@) ==> (r matches Gate::Proceed(Some(u)) && u.id@ == row.user_id
                        && users@.contains(u))
                }
            },
{
    let identity = match cookie {
        None => None,
        Some(id) => {
            let (session, _) = resolve_in(sessions, key, id, now, answer);
            match session {
                Some(s) => find_user(users, s.user_id.as_str()),
                None => None,
            }
        },
    };
    gate(identity, path)
}

/// The text of a `Set-Cookie` value for the session cookie.
pub open spec fn cookie_text(value: Seq<char>, max_age: int) -> Seq<char> {
    "asklp_session="@ + value + "; Path=/; HttpOnly; SameSite=Lax; Max-Age="@ + signed_text(max_age)
}

/// Seconds from `now` until `expires_at`, none where that has passed, at
/// most `i64::MAX`.
pub open spec fn remaining(expires_at: int, now: int) -> int {
    if expires_at - now <= 0 {
        0
    } else if expires_at - now > i64::MAX {
        i64::MAX as int
    } else {
        expires_at - now
    }
}

/// Seconds from `now` until `expires_at`.
pub fn seconds_until(expires_at: i64, now: i64) -> (r: i64)
    ensures
        r as int == remaining(expires_at as int, now as int),
{
    let d: i128 = expires_at as i128 - now as i128;
    if d <= 0 {
        0
    } else if d > i64::MAX as i128 {
        i64::MAX
    } else {
        d as i64
    }
}

/// The cookie that carries `session_id` until `expires_at`.
pub fn session_cookie(session_id: &str, expires_at: i64, now: i64) -> (r: String)
    ensures
        r@ == cookie_text(session_id@, remaining(expires_at as int, now as int)),
{
    let mut c = String::from_str("asklp_session=");
    c.append(session_id);
    c.append("; Path=/; HttpOnly; SameSite=Lax; Max-Age=");
    let age = signed_decimal(seconds_until(expires_at, now));
    c.append(age.as_str());
    c
}

/// The cookie that clears the session on logout: empty, and already
/// expired.
pub fn cleared_cookie() -> (r: String)
    ensures
        r@ == cookie_text(Seq::empty(), 0),
{
    let mut c = String::from_str("asklp_session=");
    c.append("; Path=/; HttpOnly; SameSite=Lax; Max-Age=");
    let age = signed_decimal(0);
    c.append(age.as_str());
    assert(c@ =~= cookie_text(Seq::empty(), 0));
    c
}

} // verus!
