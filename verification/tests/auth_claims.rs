use square::auth::{Claims, Error as AuthError, LoginStep, LOGIN_DURATION};
use square::common::{ErrorCode, IntoErrorResp};
use square::db::{Error as DbError, UserInfo, UserPassword};
use std::time::{SystemTime, UNIX_EPOCH};

fn info(id: i64) -> UserInfo {
    UserInfo { id, alias: "alice".into(), name: "Alice".into() }
}

fn db_err() -> DbError {
    DbError { message: "boom".into() }
}

#[test]
fn claims_at_adds_duration() {
    let c = Claims::at(5, 10, Some(100));
    assert_eq!(c.sub, 5);
    assert_eq!(c.exp, 110);
    assert!(c.info.is_none());
    assert_eq!(Claims::at(5, 10, None).exp, 0);
    assert_eq!(Claims::at(5, 10, Some(u64::MAX - 1)).exp, u64::MAX);
    assert_eq!(Claims::at(5, 0, Some(42)).exp, 42);
}

#[test]
fn claims_new_expires_after_duration() {
    let before = SystemTime::now().duration_since(UNIX_EPOCH).unwrap().as_secs();
    let c = Claims::new(7, 3600);
    let after = SystemTime::now().duration_since(UNIX_EPOCH).unwrap().as_secs();
    assert_eq!(c.sub, 7);
    assert!(c.info.is_none());
    assert!(c.exp >= before + 3600 && c.exp <= after + 3600);
}

#[test]
fn check_id_compares_subject() {
    let c = Claims::at(5, 10, Some(0));
    assert!(c.check_id(5));
    assert!(!c.check_id(6));
}

#[test]
fn login_steps() {
    assert_eq!(Claims::after_lookup(None), LoginStep::Finished { id: None, correct: false });
    assert_eq!(Claims::after_lookup(Some(4)), LoginStep::FetchSecret { id: 4 });
    let row = UserPassword::new(4, "pw".to_string(), None);
    assert_eq!(Claims::after_check(4, "pw", &row), (Some(4), true));
    assert_eq!(Claims::after_check(4, "px", &row), (Some(4), false));
}

#[test]
fn login_outcomes() {
    let ok = Claims::login(Ok((Some(4), true))).unwrap();
    assert_eq!(ok.sub, 4);
    assert!(ok.info.is_none());
    let now = SystemTime::now().duration_since(UNIX_EPOCH).unwrap().as_secs();
    assert!(ok.exp + 5 >= now + LOGIN_DURATION && ok.exp <= now + LOGIN_DURATION + 5);
    assert!(matches!(Claims::login(Ok((None, false))), Err(AuthError::Login("wrong alias"))));
    assert!(matches!(Claims::login(Ok((None, true))), Err(AuthError::Login("wrong alias"))));
    assert!(matches!(Claims::login(Ok((Some(4), false))), Err(AuthError::Login("wrong password"))));
    assert!(matches!(Claims::login(Err(db_err())), Err(AuthError::Internal("db check password"))));
}

#[test]
fn login_with_a_set_password() {
    let row = UserPassword::new(8, "correct horse".to_string(), None);
    let outcome = Claims::after_check(8, "correct horse", &row);
    assert_eq!(Claims::login(Ok(outcome)).unwrap().sub, 8);
}

#[test]
fn attach_info_outcomes() {
    let c = Claims::at(5, 10, Some(0));
    let with = c.clone().attach_info(Ok(Some(info(5)))).unwrap();
    assert_eq!(with.sub, 5);
    assert_eq!(with.exp, 10);
    assert_eq!(with.info.unwrap().alias, "alice");
    assert!(matches!(c.clone().attach_info(Ok(None)), Err(AuthError::Internal("user not found"))));
    assert!(matches!(c.attach_info(Err(db_err())), Err(AuthError::Internal("user_info get"))));
}

#[test]
fn auth_error_codes_and_messages() {
    let cases: Vec<(AuthError, u16, &str)> = vec![
        (AuthError::Internal("pool get conn"), 500, "auth internal error: pool get conn"),
        (AuthError::Login("wrong alias"), 403, "login failed: wrong alias"),
        (AuthError::Signing("InvalidKeyFormat".into()), 403, "signing failed: InvalidKeyFormat"),
        (AuthError::Authentication("ExpiredSignature".into()), 403, "invalid token: ExpiredSignature"),
        (AuthError::Authorization, 403, "no permision to resource"),
    ];
    for (err, status, msg) in cases {
        assert_eq!(err.error_code(), (status, ErrorCode::Auth));
        assert_eq!(err.to_string(), msg);
        let (s, c, m) = err.into_error_resp();
        assert_eq!((s, c, m.as_str()), (status, ErrorCode::Auth, msg));
    }
}
