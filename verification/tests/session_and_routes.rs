use axum_sessions::async_session::Session;
use square::common::{ErrorCode, JsonResponse, Payload};
use square::db::{Error as DbError, UserInfo};
use square::rest::{index, new_index, new_index_reply, user_create, user_info, user_login, UserCreateInfo, UserLoginInfo};
use square::auth::Error as AuthError;
use square::session::{Error as SessionError, SessionData, UserLookup};

fn alice() -> UserInfo {
    UserInfo { id: 5, alias: "alice".into(), name: "Alice A.".into() }
}

fn expect_error(resp: JsonResponse, status: u16, code: ErrorCode, msg: &str) {
    match resp {
        JsonResponse::Error { status: s, code: c, msg: m } => {
            assert_eq!((s, c, m.as_str()), (status, code, msg));
        }
        other => panic!("expected an error, got {:?}", other),
    }
}

#[test]
fn session_error_messages() {
    let cases = [
        (SessionError::SessionSetup, "session not setup"),
        (SessionError::Presence("id"), "id not presence"),
        (SessionError::DbSetup, "db not setup"),
        (SessionError::DbExec, "db exec failed"),
        (SessionError::DbResult, "user not found"),
    ];
    for (err, msg) in cases {
        assert_eq!(err.to_string(), msg);
        assert_eq!(err.response(), (500, msg.to_string()));
    }
}

#[test]
fn stored_id_reads_the_id_entry() {
    let mut s = Session::new();
    assert!(matches!(SessionData::stored_id(&s), Err(SessionError::Presence("id"))));
    s.insert_raw("id", "42".to_string());
    assert!(matches!(SessionData::stored_id(&s), Ok(42)));
    s.insert_raw("id", "\"x\"".to_string());
    assert!(matches!(SessionData::stored_id(&s), Err(SessionError::Presence("id"))));
}

#[test]
fn session_user_from_lookup() {
    let mut s = Session::new();
    s.insert_raw("id", "5".to_string());
    assert!(matches!(SessionData::from(&s, 5, UserLookup::NoConnection), Err(SessionError::DbSetup)));
    assert!(matches!(SessionData::from(&s, 5, UserLookup::Failed), Err(SessionError::DbExec)));
    assert!(matches!(SessionData::from(&s, 5, UserLookup::Found(None)), Err(SessionError::DbResult)));
    assert!(matches!(
        SessionData::from(&s, 5, UserLookup::Found(Some(alice()))),
        Err(SessionError::Presence("alias"))
    ));
    s.insert_raw("alias", "alice".to_string());
    let data = SessionData::from(&s, 5, UserLookup::Found(Some(alice()))).unwrap();
    assert_eq!(data.id, 5);
    assert_eq!(data.alias, "alice");
    assert_eq!(data.info.unwrap().name, "Alice A.");
}

#[test]
fn id_entry_reads_the_number() {
    assert!(matches!(SessionData::id_entry(Some(42)), Ok(42)));
    assert!(matches!(SessionData::id_entry(None), Err(SessionError::Presence("id"))));
}

#[test]
fn with_alias_needs_alias() {
    assert!(matches!(SessionData::with_alias(1, alice(), None), Err(SessionError::Presence("alias"))));
    let d = SessionData::with_alias(1, alice(), Some("al".into())).unwrap();
    assert_eq!((d.id, d.alias.as_str()), (1, "al"));
}

#[test]
fn create_reply() {
    assert!(matches!(user_create(Ok(12)), JsonResponse::Reply(Payload::Created { id: 12 })));
    expect_error(user_create(Err(DbError { message: "dup".into() })), 500, ErrorCode::Database, "db error: dup");
}

#[test]
fn login_reply() {
    match user_login(Ok("tok".into())) {
        JsonResponse::Reply(Payload::Token { token }) => assert_eq!(token, "tok"),
        other => panic!("unexpected {:?}", other),
    }
    expect_error(
        user_login(Err(AuthError::Login("wrong password"))),
        403,
        ErrorCode::Auth,
        "auth error: login failed: wrong password",
    );
}

#[test]
fn info_reply() {
    match user_info(5, Ok(Some(alice()))) {
        JsonResponse::Reply(Payload::Profile { alias, nickname }) => {
            assert_eq!((alias.as_str(), nickname.as_str()), ("alice", "Alice A."));
        }
        other => panic!("unexpected {:?}", other),
    }
    expect_error(user_info(9, Ok(None)), 404, ErrorCode::UserNotFound, "user 9 not found");
    expect_error(user_info(9, Err(DbError { message: "x".into() })), 500, ErrorCode::Database, "db error: x");
}

#[test]
fn index_page() {
    assert_eq!(index(5, "hello"), "hello, author: 5");
    assert_eq!(index(0, ""), ", author: 0");
}

#[test]
fn posting_needs_the_owners_login() {
    expect_error(
        new_index(None, "alice".into(), "/alice/hi".into(), "hi".into(), "text".into()).unwrap_err(),
        401,
        ErrorCode::Unauthenticated,
        "login required for /alice/hi",
    );
    let bob = SessionData { id: 6, alias: "bob".into(), info: None };
    expect_error(
        new_index(Some(bob), "alice".into(), "/alice/hi".into(), "hi".into(), "text".into()).unwrap_err(),
        403,
        ErrorCode::Unauthorized,
        "user bob cannot access alice/alice/hi",
    );
    let me = SessionData { id: 5, alias: "alice".into(), info: Some(alice()) };
    let post = new_index(Some(me), "alice".into(), "/alice/hi".into(), "hi".into(), "text".into()).unwrap();
    assert_eq!(post.author_id, 5);
    assert_eq!(post.author_name, "Alice A.");
    assert_eq!(post.title, "hi");
    assert_eq!(post.content, "text");
}

#[test]
fn post_reply() {
    match new_index_reply(Ok("1b4e28ba-2fa1-11d2-883f-0016d3cca427".into())) {
        JsonResponse::Reply(Payload::Posted { id }) => assert_eq!(id, "1b4e28ba-2fa1-11d2-883f-0016d3cca427"),
        other => panic!("unexpected {:?}", other),
    }
    expect_error(new_index_reply(Err(DbError { message: "x".into() })), 500, ErrorCode::Database, "db error: x");
}

#[test]
fn create_info_to_row() {
    let info = UserCreateInfo {
        alias: "a".into(),
        name: "n".into(),
        password: "p".into(),
        email: Some("e@x".into()),
        description: Some("d".into()),
        avatar: None,
    };
    let row = info.user();
    assert_eq!(row.alias, "a");
    assert_eq!(row.name, "n");
    assert_eq!(row.description, Some("d".to_string()));
    assert_eq!(row.avatar, None);
    let login = UserLoginInfo { alias: "a".into(), password: "p".into() };
    assert_eq!(login.clone().alias, "a");
}
