use flow_auth::rate::API_LIMIT;
use flow_auth::session::{
    delete_session, get_session, get_session_at, open_session, post_session, AuthError, AuthInfo,
    SessionPool, User, EXPIRE_SECS,
};

fn user(name: &str, email: &str, password: &str) -> User {
    User {
        username: name.to_string(),
        email: email.to_string(),
        permanent_token: bcrypt::hash(password, 4).unwrap(),
        learnt_course: vec![],
    }
}

fn auth(name: &str, password: &str) -> AuthInfo {
    AuthInfo { username: name.to_string(), password: password.to_string() }
}

#[test]
fn login_then_authenticate_counts_one_request() {
    let mut pool = SessionPool::new();
    let alice = user("alice", "12345678@mail.sustech.edu.cn", "secret");
    let session = post_session(&mut pool, Some(&alice), &auth("alice", "secret")).unwrap();
    assert_eq!(session.username, "alice");
    assert_eq!(session.api_count, 0);
    assert_eq!(session.token.len(), 36);
    let again = get_session(&mut pool, &session.token).unwrap();
    assert_eq!(again.username, "alice");
    assert_eq!(again.api_count, 1);
    assert_eq!(again.token, session.token);
}

#[test]
fn unknown_token_is_not_login() {
    let mut pool = SessionPool::new();
    assert_eq!(get_session(&mut pool, "no-such-token"), Err(AuthError::NotLogin));
    assert_eq!(get_session_at(&mut pool, "", 0), Err(AuthError::NotLogin));
}

#[test]
fn wrong_password_and_missing_user_look_alike() {
    let mut pool = SessionPool::new();
    let alice = user("alice", "12345678@mail.sustech.edu.cn", "secret");
    assert_eq!(
        post_session(&mut pool, Some(&alice), &auth("alice", "guess")),
        Err(AuthError::WrongPassword)
    );
    assert_eq!(post_session(&mut pool, None, &auth("bob", "secret")), Err(AuthError::WrongPassword));
}

#[test]
fn session_expires_after_one_day() {
    let mut pool = SessionPool::new();
    let alice = user("alice", "a@x", "secret");
    let s = open_session(&mut pool, &alice, "tok".to_string(), 1_000).unwrap();
    assert_eq!(s.login_time, 1_000);
    let ok = get_session_at(&mut pool, "tok", 1_000 + EXPIRE_SECS - 1).unwrap();
    assert_eq!(ok.api_count, 1);
    assert_eq!(get_session_at(&mut pool, "tok", 1_000 + EXPIRE_SECS), Err(AuthError::Expired));
    // The expired session was removed.
    assert_eq!(get_session_at(&mut pool, "tok", 1_000), Err(AuthError::NotLogin));
}

#[test]
fn clock_going_back_keeps_session() {
    let mut pool = SessionPool::new();
    let alice = user("alice", "a@x", "secret");
    open_session(&mut pool, &alice, "tok".to_string(), 5_000).unwrap();
    assert!(get_session_at(&mut pool, "tok", -5_000).is_ok());
}

#[test]
fn two_logins_get_distinct_tokens() {
    let mut pool = SessionPool::new();
    let alice = user("alice", "a@x", "secret");
    let s1 = post_session(&mut pool, Some(&alice), &auth("alice", "secret")).unwrap();
    let s2 = post_session(&mut pool, Some(&alice), &auth("alice", "secret")).unwrap();
    assert_ne!(s1.token, s2.token);
    assert_eq!(get_session(&mut pool, &s1.token).unwrap().api_count, 1);
    // Both sessions share the user's counter.
    assert_eq!(get_session(&mut pool, &s2.token).unwrap().api_count, 2);
}

#[test]
fn live_token_is_not_reused() {
    let mut pool = SessionPool::new();
    let alice = user("alice", "a@x", "secret");
    open_session(&mut pool, &alice, "tok".to_string(), 0).unwrap();
    let bob = user("bob", "b@x", "pw");
    assert_eq!(open_session(&mut pool, &bob, "tok".to_string(), 1), Err(AuthError::Internal));
    assert_eq!(get_session_at(&mut pool, "tok", 2).unwrap().username, "alice");
}

#[test]
fn logout_twice_is_not_login() {
    let mut pool = SessionPool::new();
    let alice = user("alice", "a@x", "secret");
    let s = open_session(&mut pool, &alice, "tok".to_string(), 0).unwrap();
    assert_eq!(delete_session(&mut pool, "tok"), Ok(s));
    assert_eq!(delete_session(&mut pool, "tok"), Err(AuthError::NotLogin));
    assert_eq!(get_session_at(&mut pool, "tok", 1), Err(AuthError::NotLogin));
}

#[test]
fn quota_is_enforced_and_reset() {
    let mut pool = SessionPool::new();
    let alice = user("alice", "a@x", "secret");
    open_session(&mut pool, &alice, "tok".to_string(), 0).unwrap();
    for i in 0..API_LIMIT {
        let s = get_session_at(&mut pool, "tok", 10).unwrap();
        assert_eq!(s.api_count, i + 1);
    }
    assert_eq!(get_session_at(&mut pool, "tok", 10), Err(AuthError::TooFrequent));
    assert_eq!(get_session_at(&mut pool, "tok", 10), Err(AuthError::TooFrequent));
    pool.reset_counters();
    assert_eq!(get_session_at(&mut pool, "tok", 10).unwrap().api_count, 1);
}

#[test]
fn login_carries_existing_count() {
    let mut pool = SessionPool::new();
    let alice = user("alice", "a@x", "secret");
    open_session(&mut pool, &alice, "t1".to_string(), 0).unwrap();
    get_session_at(&mut pool, "t1", 1).unwrap();
    get_session_at(&mut pool, "t1", 2).unwrap();
    let s2 = open_session(&mut pool, &alice, "t2".to_string(), 3).unwrap();
    assert_eq!(s2.api_count, 2);
}

#[test]
fn auth_error_messages() {
    assert_eq!(AuthError::WrongPassword.message(), "wrong password");
    assert_eq!(AuthError::NotLogin.message(), "not login");
    assert_eq!(AuthError::Expired.message(), "expired");
    assert_eq!(AuthError::TooFrequent.message(), "too frequent");
    assert_eq!(AuthError::Internal.message(), "internal error");
}

#[test]
fn grant_checks_password_before_any_session() {
    let alice = user("alice", "a@x", "secret");
    let g = flow_auth::session::grant_login(Some(&alice), &auth("alice", "secret")).unwrap();
    assert_eq!(g.token.len(), 36);
    assert!(flow_auth::session::grant_login(Some(&alice), &auth("alice", "nope")).is_err());
    assert!(flow_auth::session::grant_login(None, &auth("alice", "secret")).is_err());
    let mut pool = SessionPool::new();
    let s = open_session(&mut pool, &alice, g.token.clone(), g.login_time).unwrap();
    assert_eq!(s.token, g.token);
    assert_eq!(s.email, "a@x");
}
