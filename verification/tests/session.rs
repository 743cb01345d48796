use tiplink_gateway::records::{DbFailure, User};
use tiplink_gateway::session::{
    check_session, check_session_at, make_session_token, session_live_at, session_token_expiry,
    SESSION_LIFETIME_SECS,
};
use tiplink_gateway::time::MAX_TIMESTAMP;

const ID: u128 = 0x67e5_5044_10b1_426f_9247_bb68_0e5f_e0c8;

fn user() -> User {
    User {
        user_id: ID,
        email: "a@b.c".to_string(),
        password_hash: "h".to_string(),
        username: "alice".to_string(),
        cookie: None,
    }
}

#[test]
fn token_has_expiry_and_uuid() {
    let t = make_session_token(1700086400, ID);
    assert_eq!(t, format!("{}:{}", 1700086400, uuid::Uuid::from_u128(ID)));
    assert_eq!(t, "1700086400:67e55044-10b1-426f-9247-bb680e5fe0c8");
}

#[test]
fn token_round_trip() {
    for e in [i64::MIN, -1, 0, 1700086400, i64::MAX] {
        assert_eq!(session_token_expiry(&make_session_token(e, ID)), Some(e));
    }
}

#[test]
fn malformed_tokens_have_no_expiry() {
    assert_eq!(session_token_expiry(""), None);
    assert_eq!(session_token_expiry("abc"), None);
    assert_eq!(session_token_expiry("12"), None);
    assert_eq!(session_token_expiry("1:2:3"), None);
    assert_eq!(session_token_expiry(":x"), None);
    assert_eq!(session_token_expiry("x:1"), None);
    assert_eq!(session_token_expiry("12:"), Some(12));
    assert_eq!(session_token_expiry("-5:abc"), Some(-5));
    assert_eq!(session_token_expiry("+7:z"), Some(7));
}

#[test]
fn session_live_until_expiry_inclusive() {
    let issued = 1700000000i64;
    let t = make_session_token(issued + SESSION_LIFETIME_SECS, ID);
    assert!(session_live_at(&t, issued));
    assert!(session_live_at(&t, issued + 86400));
    assert!(!session_live_at(&t, issued + 86401));
}

#[test]
fn check_session_at_outcomes() {
    let t = make_session_token(1000, ID);
    assert!(check_session_at(Ok(Some(user())), &t, 1000).is_some());
    assert!(check_session_at(Ok(Some(user())), &t, 1001).is_none());
    assert!(check_session_at(Ok(None), &t, 0).is_none());
    let failed = DbFailure { message: "down".to_string() };
    assert!(check_session_at(Err(failed), &t, 0).is_none());
    assert!(check_session_at(Ok(Some(user())), "garbage", 0).is_none());
}

#[test]
fn check_session_reads_the_clock() {
    let far = make_session_token(MAX_TIMESTAMP, ID);
    let found = check_session(Ok(Some(user())), &far);
    assert_eq!(found.map(|u| u.username), Some("alice".to_string()));
    let past = make_session_token(0, ID);
    assert!(check_session(Ok(Some(user())), &past).is_none());
}

#[test]
fn max_timestamp_is_chronos() {
    assert_eq!(chrono::DateTime::<chrono::Utc>::MAX_UTC.timestamp(), MAX_TIMESTAMP);
}
