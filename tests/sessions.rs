use asklp::login::start_session;
use asklp::crypto::decrypt;
use asklp::refresh::{expiry_after, refreshed_session, seal_session, stored_refresh_token, TokenGrant};
use asklp::resolver::{after_lookup, after_refresh, resolve_in, ResolveStep, Settle};
use asklp::session::Session;
use asklp::store::{SessionTable, StoreError};
use asklp::error::Error;

const KEY: [u8; 32] = [5u8; 32];

fn session(id: &str, user: &str, expires_at: i64) -> Session {
    let grant = TokenGrant {
        access_token: format!("access-{id}"),
        refresh_token: Some(format!("refresh-{id}")),
        expires_in: Some(0),
    };
    seal_session(&KEY, id.to_string(), user.to_string(), &grant, expires_at).unwrap()
}

fn grant(access: &str, refresh: Option<&str>, expires_in: Option<u64>) -> TokenGrant {
    TokenGrant {
        access_token: access.to_string(),
        refresh_token: refresh.map(|r| r.to_string()),
        expires_in,
    }
}

#[test]
fn store_creates_finds_and_refuses_duplicates() {
    let mut t = SessionTable::new();
    assert_eq!(t.create(session("a", "u1", 100)), Ok(()));
    assert_eq!(t.create(session("a", "u2", 200)), Err(StoreError::DuplicateId));
    assert_eq!(t.len(), 1);
    let found = t.get_by_id("a").unwrap();
    assert_eq!(found.user_id, "u1");
    assert!(t.get_by_id("b").is_none());
}

#[test]
fn delete_is_a_no_op_for_a_missing_row() {
    let mut t = SessionTable::new();
    t.create(session("a", "u1", 100)).unwrap();
    t.delete("zz");
    assert_eq!(t.len(), 1);
    t.delete("a");
    t.delete("a");
    assert_eq!(t.len(), 0);
}

#[test]
fn sweep_removes_exactly_the_expired_rows_once() {
    let mut t = SessionTable::new();
    t.create(session("a", "u1", 99)).unwrap();
    t.create(session("b", "u1", 100)).unwrap();
    t.create(session("c", "u2", 101)).unwrap();
    t.create(session("d", "u3", 500)).unwrap();
    assert_eq!(t.sweep_expired(100), 2);
    assert_eq!(t.sweep_expired(100), 0);
    assert!(t.get_by_id("a").is_none());
    assert!(t.get_by_id("b").is_none());
    assert!(t.get_by_id("c").is_some());
    assert!(t.get_by_id("d").is_some());
}

#[test]
fn active_session_of_a_user_is_the_latest_valid_one() {
    let mut t = SessionTable::new();
    t.create(session("old", "u1", 50)).unwrap();
    t.create(session("mid", "u1", 300)).unwrap();
    t.create(session("new", "u1", 400)).unwrap();
    t.create(session("other", "u2", 900)).unwrap();
    let s = t.get_active_by_user("u1", 100).unwrap();
    assert_eq!(s.id, "new");
    assert_eq!(t.len(), 4);
}

#[test]
fn user_without_valid_session_loses_expired_rows() {
    let mut t = SessionTable::new();
    t.create(session("x", "u1", 50)).unwrap();
    t.create(session("y", "u1", 60)).unwrap();
    t.create(session("z", "u2", 60)).unwrap();
    assert!(t.get_active_by_user("u1", 100).is_none());
    assert_eq!(t.len(), 1);
    assert!(t.get_by_id("z").is_some());
}

#[test]
fn delete_all_for_user_keeps_other_users() {
    let mut t = SessionTable::new();
    t.create(session("x", "u1", 50)).unwrap();
    t.create(session("y", "u2", 60)).unwrap();
    t.delete_all_for_user("u1");
    assert_eq!(t.len(), 1);
    assert!(t.get_by_id("y").is_some());
}

#[test]
fn update_replaces_tokens_nonces_and_expiry_only() {
    let mut t = SessionTable::new();
    t.create(session("a", "u1", 10)).unwrap();
    let mut fresh = session("a", "someone-else", 999);
    fresh.user_id = "ignored".to_string();
    let expected_token = fresh.access_token.clone();
    t.update(&fresh);
    let row = t.get_by_id("a").unwrap();
    assert_eq!(row.user_id, "u1");
    assert_eq!(row.access_token, expected_token);
    assert_eq!(row.expires_at, 999);
    assert_eq!(decrypt(&KEY, &row.access_token, &row.access_token_nonce).unwrap(), "access-a");
    t.update(&session("missing", "u9", 5));
    assert_eq!(t.len(), 1);
}

#[test]
fn expiry_defaults_to_an_hour_and_refuses_overflow() {
    assert_eq!(expiry_after(1000, None), Some(4600));
    assert_eq!(expiry_after(1000, Some(60)), Some(1060));
    assert_eq!(expiry_after(i64::MAX - 10, Some(11)), None);
    assert_eq!(expiry_after(-10, Some(u64::MAX)), None);
    assert_eq!(expiry_after(i64::MIN, Some(u64::MAX / 2)), Some(-1));
}

#[test]
fn refresh_needs_a_refresh_token() {
    let stale = session("a", "u1", 10);
    let r = refreshed_session(&KEY, &stale, &grant("acc", None, Some(60)), 100);
    assert!(matches!(r, Err(Error::Auth(_))));
}

#[test]
fn refreshed_session_keeps_identity_and_seals_new_tokens() {
    let stale = session("a", "u1", 10);
    assert_eq!(stored_refresh_token(&KEY, &stale).unwrap(), "refresh-a");
    let fresh = refreshed_session(&KEY, &stale, &grant("acc2", Some("ref2"), None), 100).unwrap();
    assert_eq!(fresh.id, "a");
    assert_eq!(fresh.user_id, "u1");
    assert_eq!(fresh.expires_at, 3700);
    assert_ne!(fresh.access_token, "acc2");
    assert_eq!(decrypt(&KEY, &fresh.access_token, &fresh.access_token_nonce).unwrap(), "acc2");
    assert_eq!(decrypt(&KEY, &fresh.refresh_token, &fresh.refresh_token_nonce).unwrap(), "ref2");
}

#[test]
fn valid_session_resolves_unchanged_without_refresh() {
    let mut t = SessionTable::new();
    t.create(session("a", "u1", 500)).unwrap();
    let before = t.get_by_id("a").unwrap();
    let (r, refreshed) = resolve_in(&mut t, &KEY, "a", 100, &Err("unreachable".to_string()));
    let s = r.unwrap();
    assert!(!refreshed);
    assert_eq!(s.access_token, before.access_token);
    assert_eq!(s.expires_at, 500);
    assert_eq!(t.get_by_id("a").unwrap().access_token, before.access_token);
}

#[test]
fn expired_session_is_refreshed_and_stored() {
    let mut t = SessionTable::new();
    t.create(session("a", "u1", 50)).unwrap();
    let (r, refreshed) = resolve_in(&mut t, &KEY, "a", 100, &Ok(grant("acc2", Some("ref2"), Some(60))));
    let s = r.unwrap();
    assert!(refreshed);
    assert_eq!(s.expires_at, 160);
    let row = t.get_by_id("a").unwrap();
    assert_eq!(row.expires_at, 160);
    assert_eq!(row.access_token, s.access_token);
    assert_eq!(decrypt(&KEY, &row.refresh_token, &row.refresh_token_nonce).unwrap(), "ref2");
}

#[test]
fn failed_refresh_revokes_the_session() {
    let mut t = SessionTable::new();
    t.create(session("a", "u1", 100)).unwrap();
    t.create(session("b", "u2", 900)).unwrap();
    let (r, refreshed) = resolve_in(&mut t, &KEY, "a", 100, &Err("invalid_grant".to_string()));
    assert!(r.is_none());
    assert!(refreshed);
    assert!(t.get_by_id("a").is_none());
    assert_eq!(t.len(), 1);
}

#[test]
fn missing_session_resolves_to_nothing() {
    let mut t = SessionTable::new();
    let (r, refreshed) = resolve_in(&mut t, &KEY, "nope", 100, &Err("x".to_string()));
    assert!(r.is_none());
    assert!(!refreshed);
}

#[test]
fn resolution_steps() {
    assert!(matches!(after_lookup(None, 5), ResolveStep::Done(None)));
    assert!(matches!(after_lookup(Some(session("a", "u", 6)), 5), ResolveStep::Done(Some(_))));
    assert!(matches!(after_lookup(Some(session("a", "u", 5)), 5), ResolveStep::Refresh(_)));
    let stale = session("a", "u", 5);
    let (w, r) = after_refresh(&stale, Err(Error::Auth("no".to_string())));
    assert!(matches!(w, Settle::Delete(ref id) if id == "a"));
    assert!(r.is_none());
    let fresh = session("a", "u", 50);
    let (w, r) = after_refresh(&stale, Ok(fresh));
    assert!(matches!(w, Settle::Update(ref s) if s.expires_at == 50));
    assert_eq!(r.unwrap().expires_at, 50);
}

#[test]
fn racing_refreshes_leave_one_consistent_row() {
    let stale = session("a", "u1", 10);
    let first = refreshed_session(&KEY, &stale, &grant("acc1", Some("ref1"), Some(60)), 100).unwrap();
    let second = refreshed_session(&KEY, &stale, &grant("acc2", Some("ref2"), Some(90)), 100).unwrap();
    let mut t = SessionTable::new();
    t.create(session("a", "u1", 10)).unwrap();
    t.apply(&Settle::Update(second));
    t.apply(&Settle::Update(first));
    let row = t.get_by_id("a").unwrap();
    assert_eq!(decrypt(&KEY, &row.access_token, &row.access_token_nonce).unwrap(), "acc1");
    assert_eq!(decrypt(&KEY, &row.refresh_token, &row.refresh_token_nonce).unwrap(), "ref1");
    assert_eq!(row.expires_at, 160);
    t.apply(&Settle::Delete("a".to_string()));
    t.apply(&Settle::Update(session("a", "u1", 70)));
    assert!(t.get_by_id("a").is_none());
    assert_eq!(t.len(), 0);
}

#[test]
fn login_replaces_earlier_sessions_of_the_member() {
    let mut t = SessionTable::new();
    t.create(session("old1", "u1", 500)).unwrap();
    t.create(session("old2", "u1", 20)).unwrap();
    t.create(session("keep", "u2", 500)).unwrap();
    let cookie = start_session(&mut t, &KEY, "new".to_string(), "u1", &grant("acc", Some("ref"), Some(3600)), 1000)
        .unwrap();
    assert_eq!(cookie, "asklp_session=new; Path=/; HttpOnly; SameSite=Lax; Max-Age=3600");
    assert_eq!(t.len(), 2);
    assert!(t.get_by_id("old1").is_none());
    assert!(t.get_by_id("old2").is_none());
    let s = t.get_by_id("new").unwrap();
    assert_eq!(s.user_id, "u1");
    assert_eq!(s.expires_at, 4600);
    assert_eq!(decrypt(&KEY, &s.access_token, &s.access_token_nonce).unwrap(), "acc");
}

#[test]
fn login_without_refresh_token_changes_nothing() {
    let mut t = SessionTable::new();
    t.create(session("old1", "u1", 500)).unwrap();
    let r = start_session(&mut t, &KEY, "new".to_string(), "u1", &grant("acc", None, None), 1000);
    assert!(matches!(r, Err(Error::Auth(_))));
    assert_eq!(t.len(), 1);
    let r = start_session(&mut t, &KEY, "old1".to_string(), "u2", &grant("acc", Some("r"), None), 1000);
    assert!(matches!(r, Err(Error::Db(_))));
}
