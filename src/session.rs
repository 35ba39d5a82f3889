//! Users and sessions, with times as whole seconds since the Unix epoch
//! (UTC).

use vstd::prelude::*;

verus! {

/// What a session is, as contracts speak of it.
pub struct SessionRow {
    pub id: Seq<char>,
    pub user_id: Seq<char>,
    pub access_token: Seq<char>,
    pub access_token_nonce: Seq<char>,
    pub refresh_token: Seq<char>,
    pub refresh_token_nonce: Seq<char>,
    pub expires_at: int,
}

/// One authenticated browser. The tokens are stored encrypted, each as
/// ciphertext hex with the hex of the nonce it was sealed with.
#[derive(Debug)]
pub struct Session {
    pub id: String,
    pub user_id: String,
    pub access_token: String,
    pub access_token_nonce: String,
    pub refresh_token: String,
    pub refresh_token_nonce: String,
    pub expires_at: i64,
}

impl View for Session {
    type V = SessionRow;

    open spec fn view(&self) -> SessionRow {
        SessionRow {
            id: self.id@,
            user_id: self.user_id@,
            access_token: self.access_token@,
            access_token_nonce: self.access_token_nonce@,
            refresh_token: self.refresh_token@,
            refresh_token_nonce: self.refresh_token_nonce@,
            expires_at: self.expires_at as int,
        }
    }
}

/// Whether a session is still valid at `now`: its expiry is strictly later.
pub open spec fn live(s: SessionRow, now: int) -> bool {
    s.expires_at > now
}

/// `stale` with the token fields and the expiry of `fresh`; the id and the
/// owner stay.
pub open spec fn refreshed_row(stale: SessionRow, fresh: SessionRow) -> SessionRow {
    SessionRow {
        id: stale.id,
        user_id: stale.user_id,
        access_token: fresh.access_token,
        access_token_nonce: fresh.access_token_nonce,
        refresh_token: fresh.refresh_token,
        refresh_token_nonce: fresh.refresh_token_nonce,
        expires_at: fresh.expires_at,
    }
}

impl Session {
    /// An independent copy.
    pub fn duplicate(&self) -> (r: Session)
        ensures
            r@ == self@,
    {
        Session {
            id: self.id.clone(),
            user_id: self.user_id.clone(),
            access_token: self.access_token.clone(),
            access_token_nonce: self.access_token_nonce.clone(),
            refresh_token: self.refresh_token.clone(),
            refresh_token_nonce: self.refresh_token_nonce.clone(),
            expires_at: self.expires_at,
        }
    }

    /// Whether the session is still valid at `now`.
    pub fn is_live(&self, now: i64) -> (r: bool)
        ensures
            r == live(self@, now as int),
    {
        self.expires_at > now
    }
}

/// A member of the service. `joined_at` is in seconds since the epoch;
/// `last_question_reset` is a day number counted from 1970-01-01.
#[derive(Debug, Clone)]
pub struct User {
    pub id: String,
    pub username: String,
    pub discriminator: String,
    pub avatar: String,
    pub is_admin: bool,
    pub joined_at: i64,
    pub daily_questions: u64,
    pub last_question_reset: Option<i64>,
}

impl User {
    /// An independent copy.
    pub fn duplicate(&self) -> (r: User)
        ensures
            r == *self,
    {
        User {
            id: self.id.clone(),
            username: self.username.clone(),
            discriminator: self.discriminator.clone(),
            avatar: self.avatar.clone(),
            is_admin: self.is_admin,
            joined_at: self.joined_at,
            daily_questions: self.daily_questions,
            last_question_reset: self.last_question_reset,
        }
    }
}

/// Whether some member in `users` has this id.
pub open spec fn has_member(users: Seq<User>, id: Seq<char>) -> bool {
    exists|k: int| 0 <= k < users.len() && #[trigger] users[k].id@ == id
}

/// The first member in `users` with this id.
pub fn find_user(users: &Vec<User>, id: &str) -> (r: Option<User>)
    ensures
        match r {
            Some(u) => u.id@ == id@ && users@.contains(u),
            None => !has_member(users@, id@),
        },
{
    let mut i: usize = 0;
    while i < users.len()
        invariant
            i <= users@.len(),
            forall|k: int| 0 <= k < i ==> users@[k].id@ != id@,
        decreases users@.len() - i,
    {
        if crate::text::text_eq(users[i].id.as_str(), id) {
            let u = users[i].duplicate();
            assert(users@[i as int] == u);
            return Some(u);
        }
        i = i + 1;
    }
    None
}

} // verus!
