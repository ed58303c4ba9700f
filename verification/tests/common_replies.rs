use square::auth::Error as AuthError;
use square::common::{ArgUserId, Error, ErrorCode, IntoErrorResp, JsonBody, JsonResponse, Payload};
use square::db::Error as DbError;

#[test]
fn error_code_numbers() {
    assert_eq!(ErrorCode::Auth.code(), 30000);
    assert_eq!(ErrorCode::UserNotFound.code(), 30001);
    assert_eq!(ErrorCode::Internal.code(), 30002);
    assert_eq!(ErrorCode::Database.code(), 30003);
    assert_eq!(ErrorCode::Unauthenticated.code(), 30004);
    assert_eq!(ErrorCode::Unauthorized.code(), 30005);
}

#[test]
fn service_error_codes_and_messages() {
    let cases: Vec<(Error, u16, ErrorCode, &str)> = vec![
        (Error::Auth(AuthError::Internal("x")), 500, ErrorCode::Auth, "auth error: auth internal error: x"),
        (Error::Auth(AuthError::Authorization), 403, ErrorCode::Auth, "auth error: no permision to resource"),
        (Error::UserNotFound(42), 404, ErrorCode::UserNotFound, "user 42 not found"),
        (Error::Db(DbError { message: "down".into() }), 500, ErrorCode::Database, "db error: down"),
        (Error::LoginRequired("/bob/hi".into()), 401, ErrorCode::Unauthenticated, "login required for /bob/hi"),
        (
            Error::NotPermitted { alias: "alice".into(), owned: Some("bob".into()), target: "/bob/hi".into() },
            403,
            ErrorCode::Unauthorized,
            "user alice cannot access bob/bob/hi",
        ),
        (
            Error::NotPermitted { alias: "alice".into(), owned: None, target: "/x".into() },
            403,
            ErrorCode::Unauthorized,
            "user alice cannot access /x",
        ),
    ];
    for (err, status, code, msg) in cases {
        assert_eq!(err.error_code(), (status, code));
        assert_eq!(err.to_string(), msg);
        let (s, c, m) = err.into_error_resp();
        assert_eq!((s, c, m.as_str()), (status, code, msg));
    }
}

#[test]
fn from_conversions() {
    assert!(matches!(Error::from(AuthError::Login("wrong alias")), Error::Auth(AuthError::Login("wrong alias"))));
    assert!(matches!(Error::from(DbError { message: "m".into() }), Error::Db(e) if e.message == "m"));
}

#[test]
fn error_reply_goes_on_the_wire_with_its_number() {
    let resp = JsonResponse::from_error(Error::UserNotFound(7));
    match resp.clone() {
        JsonResponse::Error { status, code, msg } => {
            assert_eq!(status, 404);
            assert_eq!(code, ErrorCode::UserNotFound);
            assert_eq!(msg, "user 7 not found");
        }
        _ => panic!("expected an error"),
    }
    match resp.to_json() {
        (404, JsonBody::Error { code: 30001, msg }) => assert_eq!(msg, "user 7 not found"),
        other => panic!("unexpected {:?}", other),
    }
}

#[test]
fn payload_reply_is_200() {
    match JsonResponse::from_payload(Payload::Success).to_json() {
        (200, JsonBody::Payload(Payload::Success)) => {}
        other => panic!("unexpected {:?}", other),
    }
    match JsonResponse::error(418, ErrorCode::Internal, "teapot".to_string()).to_json() {
        (418, JsonBody::Error { code: 30002, msg }) => assert_eq!(msg, "teapot"),
        other => panic!("unexpected {:?}", other),
    }
}

#[test]
fn arg_user_id_holds_id_or_alias() {
    assert!(matches!(ArgUserId::Id(3), ArgUserId::Id(3)));
    assert!(matches!(ArgUserId::Alias("a".into()), ArgUserId::Alias(s) if s == "a"));
}
