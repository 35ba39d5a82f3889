use asklp::gate::checkpoint;
use asklp::gate::{cleared_cookie, gate, seconds_until, session_cookie, Gate, COOKIE_NAME};
use asklp::limiter::{admission, Admission, RateLimiterLayer};
use asklp::refresh::{seal_session, TokenGrant};
use asklp::resolver::resolve_in;
use asklp::session::User;
use asklp::store::SessionTable;
use governor::Quota;
use std::num::NonZeroU32;
use std::time::{Duration, Instant};

const KEY: [u8; 32] = [2u8; 32];

fn member() -> User {
    User {
        id: "42".to_string(),
        username: "ann".to_string(),
        discriminator: "0001".to_string(),
        avatar: "abc".to_string(),
        is_admin: false,
        joined_at: 0,
        daily_questions: 10,
        last_question_reset: None,
    }
}

fn identity(table: &mut SessionTable, cookie: Option<&str>, now: i64) -> Option<User> {
    let id = cookie?;
    let (session, _) = resolve_in(table, &KEY, id, now, &Err("revoked".to_string()));
    session.filter(|s| s.user_id == "42").map(|_| member())
}

fn table_with(id: &str, expires_at: i64) -> SessionTable {
    let mut t = SessionTable::new();
    let g = TokenGrant { access_token: "a".to_string(), refresh_token: Some("r".to_string()), expires_in: Some(0) };
    t.create(seal_session(&KEY, id.to_string(), "42".to_string(), &g, expires_at).unwrap()).unwrap();
    t
}

#[test]
fn no_cookie_on_a_protected_path_goes_to_login() {
    let mut t = table_with("s1", 500);
    let who = identity(&mut t, None, 100);
    assert!(matches!(gate(who, "/app"), Gate::RedirectToLogin));
    assert!(matches!(gate(None, "/app/question/new"), Gate::RedirectToLogin));
}

#[test]
fn valid_cookie_on_the_landing_page_goes_to_the_app() {
    let mut t = table_with("s1", 500);
    let who = identity(&mut t, Some("s1"), 100);
    assert!(matches!(gate(who, "/"), Gate::RedirectToApp));
}

#[test]
fn valid_cookie_on_a_protected_path_attaches_the_identity() {
    let mut t = table_with("s1", 500);
    let who = identity(&mut t, Some("s1"), 100);
    match gate(who, "/app/question/new") {
        Gate::Proceed(Some(u)) => assert_eq!(u.id, "42"),
        other => panic!("unexpected {:?}", other),
    }
}

#[test]
fn expired_unrefreshable_cookie_goes_to_login() {
    let mut t = table_with("s1", 50);
    let who = identity(&mut t, Some("s1"), 100);
    assert!(who.is_none());
    assert!(matches!(gate(who, "/app"), Gate::RedirectToLogin));
    assert_eq!(t.len(), 0);
}

#[test]
fn anonymous_requests_elsewhere_proceed() {
    assert!(matches!(gate(None, "/"), Gate::Proceed(None)));
    assert!(matches!(gate(None, "/static/site.css"), Gate::Proceed(None)));
    assert!(matches!(gate(None, "/ap"), Gate::Proceed(None)));
    assert!(matches!(gate(Some(member()), "/logout"), Gate::Proceed(Some(_))));
}

#[test]
fn session_cookie_text() {
    assert_eq!(COOKIE_NAME, "asklp_session");
    assert_eq!(
        session_cookie("abc-123", 4600, 1000),
        "asklp_session=abc-123; Path=/; HttpOnly; SameSite=Lax; Max-Age=3600"
    );
    assert_eq!(cleared_cookie(), "asklp_session=; Path=/; HttpOnly; SameSite=Lax; Max-Age=0");
    assert_eq!(seconds_until(10, 20), 0);
    assert_eq!(seconds_until(i64::MAX, i64::MIN), i64::MAX);
}

#[test]
fn admission_table() {
    assert_eq!(admission(false, true), Admission::MissingClient);
    assert_eq!(admission(true, true), Admission::Forward);
    assert_eq!(admission(true, false), Admission::TooManyRequests);
    assert_eq!(Admission::TooManyRequests.status(), Some(429));
    assert_eq!(Admission::MissingClient.status(), Some(400));
    assert_eq!(Admission::Forward.status(), None);
}

#[test]
fn rate_limiter_burst_refill_and_separate_clients() {
    let period = Duration::from_millis(200);
    let quota = Quota::with_period(period).unwrap().allow_burst(NonZeroU32::new(3).unwrap());
    let limiter = RateLimiterLayer::new(quota);
    let start = Instant::now();
    for _ in 0..3 {
        assert_eq!(limiter.check_client(Some("10.0.0.1")), Admission::Forward);
    }
    assert_eq!(limiter.check_client(Some("10.0.0.1")), Admission::TooManyRequests);
    assert!(start.elapsed() < period);
    assert_eq!(limiter.check_client(Some("10.0.0.2")), Admission::Forward);
    assert_eq!(limiter.check_client(None), Admission::MissingClient);
    while start.elapsed() < period + Duration::from_millis(20) {
        std::hint::spin_loop();
    }
    assert_eq!(limiter.check_client(Some("10.0.0.1")), Admission::Forward);
}

#[test]
fn checkpoint_decides_whole_requests() {
    let users = vec![member()];
    let refused: Result<TokenGrant, String> = Err("invalid_grant".to_string());
    let mut t = table_with("s1", 500);
    assert!(matches!(checkpoint(&mut t, &users, &KEY, None, "/app", 100, &refused), Gate::RedirectToLogin));
    assert!(matches!(checkpoint(&mut t, &users, &KEY, Some("s1"), "/", 100, &refused), Gate::RedirectToApp));
    match checkpoint(&mut t, &users, &KEY, Some("s1"), "/app/question/new", 100, &refused) {
        Gate::Proceed(Some(u)) => assert_eq!(u.id, "42"),
        other => panic!("unexpected {:?}", other),
    }
    assert!(matches!(checkpoint(&mut t, &users, &KEY, Some("nope"), "/app", 100, &refused), Gate::RedirectToLogin));
    assert!(matches!(checkpoint(&mut t, &vec![], &KEY, Some("s1"), "/app", 100, &refused), Gate::RedirectToLogin));
    assert!(matches!(checkpoint(&mut t, &users, &KEY, Some("s1"), "/app", 600, &refused), Gate::RedirectToLogin));
    assert_eq!(t.len(), 0);
}

#[test]
fn checkpoint_refreshes_an_expired_session() {
    let users = vec![member()];
    let mut t = table_with("s1", 50);
    let granted: Result<TokenGrant, String> =
        Ok(TokenGrant { access_token: "a2".to_string(), refresh_token: Some("r2".to_string()), expires_in: Some(60) });
    match checkpoint(&mut t, &users, &KEY, Some("s1"), "/app", 100, &granted) {
        Gate::Proceed(Some(u)) => assert_eq!(u.id, "42"),
        other => panic!("unexpected {:?}", other),
    }
    assert_eq!(t.get_by_id("s1").unwrap().expires_at, 160);
}
