//! Token refresh and session creation: what follows an answer of the OAuth
//! provider's token endpoint. The exchange itself is made by the caller,
//! once, with the refresh token that `stored_refresh_token` gives.

use vstd::prelude::*;
use vstd::utf8::encode_utf8;
use crate::crypto::{decrypt, encrypt, opened_text, CryptoError, MAX_PLAINTEXT};
use crate::error::Error;
use crate::session::Session;

verus! {

/// Lifetime of an access token, in seconds, where the provider gives none.
pub const DEFAULT_EXPIRES_IN: u64 = 3600;

/// What the token endpoint granted.
#[derive(Debug, Clone)]
pub struct TokenGrant {
    pub access_token: String,
    pub refresh_token: Option<String>,
    /// Seconds until the access token expires, where the provider says.
    pub expires_in: Option<u64>,
}

/// The expiry of a token granted at `now` for `expires_in` seconds (or the
/// default lifetime).
pub open spec fn expiry_of(now: int, expires_in: Option<u64>) -> int {
    match expires_in {
        Some(secs) => now + secs,
        None => now + DEFAULT_EXPIRES_IN,
    }
}

/// Whether a grant's tokens fit the cipher.
pub open spec fn grant_fits(g: TokenGrant) -> bool {
    &&& encode_utf8(g.access_token@).len() <= MAX_PLAINTEXT
    &&& g.refresh_token matches Some(t) ==> encode_utf8(t@).len() <= MAX_PLAINTEXT
}

/// The expiry of a token granted at `now`, or `None` where it would not
/// fit in an `i64`.
pub fn expiry_after(now: i64, expires_in: Option<u64>) -> (r: Option<i64>)
    ensures
        match r {
            Some(t) => t as int == expiry_of(now as int, expires_in),
            None => expiry_of(now as int, expires_in) > i64::MAX,
        },
{
    let secs = match expires_in {
        Some(s) => s,
        None => DEFAULT_EXPIRES_IN,
    };
    let sum: i128 = now as i128 + secs as i128;
    if sum > i64::MAX as i128 {
        None
    } else {
        Some(sum as i64)
    }
}

/// The plaintext refresh token of a stored session, to present to the
/// provider.
pub fn stored_refresh_token(key: &[u8; 32], session: &Session) -> (r: Result<String, CryptoError>)
    ensures
        match r {
            Ok(t) => opened_text(key@, session.refresh_token@, session.refresh_token_nonce@) == Ok::<Seq<char>, CryptoError>(t@),
            Err(e) => opened_text(key@, session.refresh_token@, session.refresh_token_nonce@) == Err::<Seq<char>, CryptoError>(e),
        },
{
    decrypt(key, session.refresh_token.as_str(), session.refresh_token_nonce.as_str())
}

/// A session for `user_id` under `id` that holds the granted tokens, each
/// encrypted with a fresh nonce, and expires `expires_in` seconds (or the
/// default lifetime) after `now`. A grant without a refresh token, or whose
/// expiry does not fit, is refused.
pub fn seal_session(key: &[u8; 32], id: String, user_id: String, grant: &TokenGrant, now: i64) -> (r: Result<Session, Error>)
    requires
        grant_fits(*grant),
    ensures
        r.is_ok() <==> grant.refresh_token.is_some() && expiry_of(now as int, grant.expires_in) <= i64::MAX,
        r matches Err(e) ==> e matches Error::Auth(_),
        r matches Ok(s) ==> {
            &&& s.id@ == id@
            &&& s.user_id@ == user_id@
            &&& s.expires_at as int == expiry_of(now as int, grant.expires_in)
            &&& opened_text(key@, s.access_token@, s.access_token_nonce@) == Ok::<Seq<char>, CryptoError>(grant.access_token@)
            &&& opened_text(key@, s.refresh_token@, s.refresh_token_nonce@) == Ok::<Seq<char>, CryptoError>(grant.refresh_token.unwrap()@)
            &&& s.access_token@ != grant.access_token@
            &&& s.refresh_token@ != grant.refresh_token.unwrap()@
        },
{
    let refresh_plain = match &grant.refresh_token {
        Some(t) => t,
        None => return Err(Error::Auth("the provider returned no refresh token".to_owned())),
    };
    let expires_at = match expiry_after(now, grant.expires_in) {
        Some(t) => t,
        None => return Err(Error::Auth("the granted lifetime is out of range".to_owned())),
    };
    let (access_token, access_token_nonce) = encrypt(key, grant.access_token.as_str());
    let (refresh_token, refresh_token_nonce) = encrypt(key, refresh_plain.as_str());
    Ok(Session { id, user_id, access_token, access_token_nonce, refresh_token, refresh_token_nonce, expires_at })
}

/// The session `stale` after a successful refresh: same id and owner, the
/// granted tokens freshly encrypted, the new expiry.
pub fn refreshed_session(key: &[u8; 32], stale: &Session, grant: &TokenGrant, now: i64) -> (r: Result<Session, Error>)
    requires
        grant_fits(*grant),
    ensures
        r.is_ok() <==> grant.refresh_token.is_some() && expiry_of(now as int, grant.expires_in) <= i64::MAX,
        r matches Err(e) ==> e matches Error::Auth(_),
        r matches Ok(s) ==> {
            &&& s.id@ == stale.id@
            &&& s.user_id@ == stale.user_id@
            &&& s.expires_at as int == expiry_of(now as int, grant.expires_in)
            &&& opened_text(key@, s.access_token@, s.access_token_nonce@) == Ok::<Seq<char>, CryptoError>(grant.access_token@)
            &&& opened_text(key@, s.refresh_token@, s.refresh_token_nonce@) == Ok::<Seq<char>, CryptoError>(grant.refresh_token.unwrap()@)
        },
{
    seal_session(key, stale.id.clone(), stale.user_id.clone(), grant, now)
}

} // verus!
