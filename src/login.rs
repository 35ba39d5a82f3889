//! The end of a successful OAuth login: the member's earlier sessions give
//! way to one new session, and the browser gets its cookie.

use vstd::prelude::*;
use crate::crypto::{opened_text, CryptoError};
use crate::error::Error;
use crate::gate::{cookie_text, remaining, session_cookie};
use crate::refresh::{expiry_of, grant_fits, seal_session, TokenGrant};
use crate::session::SessionRow;
use crate::store::{has_id, user_differs, without_user, SessionTable};

verus! {

/// Opens a session `session_id` for `user_id` with the tokens of `grant`,
/// after removing every earlier session of that user, so that a member has
/// one session at a time. Returns the `Set-Cookie` value. Refused, with
/// the table unchanged, where the grant holds no refresh token or its
/// expiry does not fit; and where the id is taken by another user's row.
pub fn start_session(
    table: &mut SessionTable,
    key: &[u8; 32],
    session_id: String,
    user_id: &str,
    grant: &TokenGrant,
    now: i64,
) -> (r: Result<String, Error>)
    requires
        old(table).wf(),
        grant_fits(*grant),
    ensures
        final(table).wf(),
        grant.refresh_token.is_none() || expiry_of(now as int, grant.expires_in) > i64::MAX ==> (r matches Err(
            Error::Auth(_),
        ) && final(table)@ == old(table)@),
        grant.refresh_token.is_some() && expiry_of(now as int, grant.expires_in) <= i64::MAX && has_id(
            without_user(old(table)@, user_id@),
            session_id@,
        ) ==> (r matches Err(Error::Db(_)) && final(table)@ == without_user(old(table)@, user_id@)),
        r matches Ok(cookie) ==> {
            let s = final(table)@.last();
            &&& final(table)@ == without_user(old(table)@, user_id@).push(s)
            &&& s.id == session_id@
            &&& s.user_id == user_id@
            &&& s.expires_at == expiry_of(now as int, grant.expires_in)
            &&& opened_text(key@, s.access_token, s.access_token_nonce) == Ok::<Seq<char>, CryptoError>(grant.access_token@)
            &&& opened_text(key@, s.refresh_token, s.refresh_token_nonce) == Ok::<Seq<char>, CryptoError>(
                grant.refresh_token.unwrap()@,
            )
            &&& cookie@ == cookie_text(session_id@, remaining(s.expires_at, now as int))
        },
        grant.refresh_token.is_some() && expiry_of(now as int, grant.expires_in) <= i64::MAX && !has_id(
            without_user(old(table)@, user_id@),
            session_id@,
        ) ==> r is Ok,
{
    let session = match seal_session(key, session_id, user_id.to_owned(), grant, now) {
        Ok(s) => s,
        Err(e) => return Err(e),
    };
    let cookie = session_cookie(session.id.as_str(), session.expires_at, now);
    table.delete_all_for_user(user_id);
    match table.create(session) {
        Ok(()) => Ok(cookie),
        Err(_) => Err(Error::Db("a session with this id already exists".to_owned())),
    }
}

/// After a login the member owns exactly one session: the new one, last in
/// storage order.
pub proof fn lemma_one_session_per_login(rows: Seq<SessionRow>, user_id: Seq<char>, fresh: SessionRow)
    requires
        fresh.user_id == user_id,
    ensures
        ({
            let after = without_user(rows, user_id).push(fresh);
            forall|i: int| 0 <= i < after.len() && #[trigger] after[i].user_id == user_id ==> i == after.len() - 1
        }),
{
    let kept = without_user(rows, user_id);
    let after = kept.push(fresh);
    assert forall|i: int| 0 <= i < after.len() && #[trigger] after[i].user_id == user_id implies i == after.len() - 1 by {
        if i < kept.len() {
            rows.lemma_filter_pred(user_differs(user_id), i);
            assert(after[i] == kept[i]);
        }
    }
}

} // verus!
