//! What every route shares: the error codes, the service-wide error, how an
//! error becomes a status, a code and a message, and the JSON reply.
use vstd::prelude::*;

use crate::auth;
use crate::db;
use crate::text::{decimal, decimal_string};

verus! {

/// The id of a user.
pub type UserId = u64;

/// A user named by id or by alias.
#[derive(Debug, Clone)]
pub enum ArgUserId {
    Id(UserId),
    Alias(String),
}

/// HTTP 200.
pub const STATUS_OK: u16 = 200;
/// HTTP 401: the request needs a login.
pub const STATUS_UNAUTHORIZED: u16 = 401;
/// HTTP 403: the user may not do this.
pub const STATUS_FORBIDDEN: u16 = 403;
/// HTTP 404.
pub const STATUS_NOT_FOUND: u16 = 404;
/// HTTP 500.
pub const STATUS_INTERNAL_SERVER_ERROR: u16 = 500;

/// The service's own error codes, numbered from 30000 in this order.
#[derive(Debug, Clone, Copy, PartialEq, Eq, Structural)]
pub enum ErrorCode {
    Auth,
    UserNotFound,
    Internal,
    Database,
    /// Answered with 401.
    Unauthenticated,
    /// Answered with 403.
    Unauthorized,
}

impl ErrorCode {
    /// The number of the code in replies.
    pub open spec fn number(self) -> i32 {
        match self {
            ErrorCode::Auth => 30000,
            ErrorCode::UserNotFound => 30001,
            ErrorCode::Internal => 30002,
            ErrorCode::Database => 30003,
            ErrorCode::Unauthenticated => 30004,
            ErrorCode::Unauthorized => 30005,
        }
    }

    /// The number of the code in replies.
    pub fn code(self) -> (r: i32)
        ensures
            r == self.number(),
    {
        match self {
            ErrorCode::Auth => 30000,
            ErrorCode::UserNotFound => 30001,
            ErrorCode::Internal => 30002,
            ErrorCode::Database => 30003,
            ErrorCode::Unauthenticated => 30004,
            ErrorCode::Unauthorized => 30005,
        }
    }
}

/// An error that a route can answer with: a status, one of the service's
/// codes, and a message.
pub trait IntoErrorResp: Sized {
    /// The status and code this error is answered with.
    spec fn status_and_code(&self) -> (u16, ErrorCode);

    /// The message this error is answered with.
    spec fn message(&self) -> Seq<char>;

    /// The status and code this error is answered with.
    fn error_code(&self) -> (r: (u16, ErrorCode))
        ensures
            r == self.status_and_code(),
    ;

    /// The message this error is answered with.
    fn to_string(&self) -> (r: String)
        ensures
            r@ == self.message(),
    ;

    /// Status, code and message together.
    fn into_error_resp(self) -> (r: (u16, ErrorCode, String))
        ensures
            r.0 == self.status_and_code().0,
            r.1 == self.status_and_code().1,
            r.2@ == self.message(),
    {
        let (status, code) = self.error_code();
        let msg = self.to_string();
        (status, code, msg)
    }
}

/// The service-wide error.
#[derive(Debug)]
pub enum Error {
    Auth(auth::Error),
    UserNotFound(UserId),
    Db(db::Error),
    LoginRequired(String),
    NotPermitted { alias: String, owned: Option<String>, target: String },
}

/// The text of an optional string, empty when absent.
pub open spec fn text_or_empty(s: Option<String>) -> Seq<char> {
    match s {
        Some(t) => t@,
        None => Seq::empty(),
    }
}

impl IntoErrorResp for Error {
    open spec fn status_and_code(&self) -> (u16, ErrorCode) {
        match self {
            Error::Auth(err) => err.status_and_code(),
            Error::UserNotFound(_) => (STATUS_NOT_FOUND, ErrorCode::UserNotFound),
            Error::Db(_) => (STATUS_INTERNAL_SERVER_ERROR, ErrorCode::Database),
            Error::LoginRequired(_) => (STATUS_UNAUTHORIZED, ErrorCode::Unauthenticated),
            Error::NotPermitted { .. } => (STATUS_FORBIDDEN, ErrorCode::Unauthorized),
        }
    }

    open spec fn message(&self) -> Seq<char> {
        match self {
            Error::Auth(err) => "auth error: "@ + err.message(),
            Error::UserNotFound(id) => "user "@ + decimal(*id as nat) + " not found"@,
            Error::Db(err) => "db error: "@ + err.message@,
            Error::LoginRequired(target) => "login required for "@ + target@,
            Error::NotPermitted { alias, owned, target } => "user "@ + alias@ + " cannot access "@
                + text_or_empty(*owned) + target@,
        }
    }

    fn error_code(&self) -> (r: (u16, ErrorCode)) {
        match self {
            Error::Auth(err) => err.error_code(),
            Error::UserNotFound(_) => (STATUS_NOT_FOUND, ErrorCode::UserNotFound),
            Error::Db(_) => (STATUS_INTERNAL_SERVER_ERROR, ErrorCode::Database),
            Error::LoginRequired(_) => (STATUS_UNAUTHORIZED, ErrorCode::Unauthenticated),
            Error::NotPermitted { .. } => (STATUS_FORBIDDEN, ErrorCode::Unauthorized),
        }
    }

    fn to_string(&self) -> (r: String) {
        match self {
            Error::Auth(err) => {
                let mut r = "auth error: ".to_owned();
                r.append(err.to_string().as_str());
                r
            },
            Error::UserNotFound(id) => {
                let mut r = "user ".to_owned();
                r.append(decimal_string(*id).as_str());
                r.append(" not found");
                r
            },
            Error::Db(err) => {
                let mut r = "db error: ".to_owned();
                r.append(err.message.as_str());
                r
            },
            Error::LoginRequired(target) => {
                let mut r = "login required for ".to_owned();
                r.append(target.as_str());
                r
            },
            Error::NotPermitted { alias, owned, target } => {
                let mut r = "user ".to_owned();
                r.append(alias.as_str());
                r.append(" cannot access ");
                match owned {
                    Some(o) => r.append(o.as_str()),
                    None => {},
                }
                r.append(target.as_str());
                r
            },
        }
    }
}

impl From<auth::Error> for Error {
    fn from(err: auth::Error) -> (r: Self) {
        Error::Auth(err)
    }
}

impl vstd::std_specs::convert::FromSpecImpl<auth::Error> for Error {
    open spec fn obeys_from_spec() -> bool {
        true
    }

    open spec fn from_spec(err: auth::Error) -> Self {
        Error::Auth(err)
    }
}

impl From<db::Error> for Error {
    fn from(err: db::Error) -> (r: Self) {
        Error::Db(err)
    }
}

impl vstd::std_specs::convert::FromSpecImpl<db::Error> for Error {
    open spec fn obeys_from_spec() -> bool {
        true
    }

    open spec fn from_spec(err: db::Error) -> Self {
        Error::Db(err)
    }
}

/// The successful bodies of the routes.
#[derive(Debug, Clone)]
pub enum Payload {
    /// `{"id": id}` for a new user.
    Created { id: i64 },
    /// `{"token": token}` after a login.
    Token { token: String },
    /// `"success"`.
    Success,
    /// `{"alias": alias, "nickname": nickname}`.
    Profile { alias: String, nickname: String },
    /// `{"id": id}` for a new post, the id as text.
    Posted { id: String },
}

/// A route's answer: a body, or an error with status, code and message.
#[derive(Debug, Clone)]
pub enum JsonResponse {
    Reply(Payload),
    Error { status: u16, code: ErrorCode, msg: String },
}

/// What goes on the wire: the body, or `{"code": code, "msg": msg}`.
#[derive(Debug, Clone)]
pub enum JsonBody {
    Payload(Payload),
    Error { code: i32, msg: String },
}

impl JsonResponse {
    /// Whether this is the answer `err` is given: its status, code and
    /// message.
    pub open spec fn answers(self, err: Error) -> bool {
        self matches JsonResponse::Error { status, code, msg }
            && status == err.status_and_code().0
            && code == err.status_and_code().1
            && msg@ == err.message()
    }

    /// The status and body this answer is sent with.
    pub open spec fn wire(self) -> (u16, JsonBody) {
        match self {
            JsonResponse::Reply(p) => (STATUS_OK, JsonBody::Payload(p)),
            JsonResponse::Error { status, code, msg } => (
                status,
                JsonBody::Error { code: code.number(), msg },
            ),
        }
    }

    /// A successful answer with `payload`.
    pub fn from_payload(payload: Payload) -> (r: Self)
        ensures
            r == JsonResponse::Reply(payload),
    {
        JsonResponse::Reply(payload)
    }

    /// The answer to `err`.
    pub fn from_error(err: Error) -> (r: Self)
        ensures
            r.answers(err),
    {
        let (status, code, msg) = err.into_error_resp();
        JsonResponse::Error { status, code, msg }
    }

    /// An error answer with the given parts.
    pub fn error(status: u16, code: ErrorCode, msg: String) -> (r: Self)
        ensures
            r == (JsonResponse::Error { status, code, msg }),
    {
        JsonResponse::Error { status, code, msg }
    }

    /// The status and body to send: 200 and the payload, or the error's
    /// status and `{"code", "msg"}` with the code's number.
    pub fn to_json(self) -> (r: (u16, JsonBody))
        ensures
            r == self.wire(),
    {
        match self {
            JsonResponse::Reply(p) => (STATUS_OK, JsonBody::Payload(p)),
            JsonResponse::Error { status, code, msg } => (
                status,
                JsonBody::Error { code: code.code(), msg },
            ),
        }
    }
}

/// An error sent to the client carries the status and code that
/// `error_code` gives and the message that `to_string` gives, the code as
/// its number.
pub proof fn law_error_reply_carries_status_code_and_message(err: Error, resp: JsonResponse)
    requires
        resp.answers(err),
    ensures
        resp.wire().0 == err.status_and_code().0,
        resp.wire().1 matches JsonBody::Error { code, msg } && code
            == err.status_and_code().1.number() && msg@ == err.message(),
{
}

/// A successful answer goes on the wire as status 200 with its payload
/// unchanged, whatever the payload.
pub proof fn law_reply_goes_out_unchanged_with_200(p: Payload)
    ensures
        JsonResponse::Reply(p).wire().0 == 200,
        JsonResponse::Reply(p).wire().1 == JsonBody::Payload(p),
{
}

/// Wrapping an authentication error in the service error keeps its status
/// and code: 403 and `Auth` for every authentication error but an internal
/// one, which stays 500 and `Auth`.
pub proof fn law_wrapped_auth_error_keeps_status_and_code(e: auth::Error)
    ensures
        Error::Auth(e).status_and_code() == e.status_and_code(),
        Error::Auth(e).status_and_code().1 == ErrorCode::Auth,
        !(e is Internal) ==> Error::Auth(e).status_and_code().0 == 403,
        e is Internal ==> Error::Auth(e).status_and_code().0 == 500,
{
}

} // verus!
