//! The decisions of the HTTP routes: what each answers, given what the
//! database and the session gave it.
use vstd::prelude::*;

use crate::auth::{self, Claims};
use crate::common::{Error, JsonResponse, Payload};
use crate::db::{self, PostCreate, UserCreate, UserInfo};
use crate::session::{MutSessionData, SessionData};
use crate::text::{decimal, decimal_string};

verus! {

/// The body of `POST /users/create`.
#[derive(Debug, Clone)]
pub struct UserCreateInfo {
    pub alias: String,
    pub name: String,
    pub password: String,
    pub email: Option<String>,
    pub description: Option<String>,
    pub avatar: Option<String>,
}

/// The body of `POST /users/login`.
#[derive(Debug, Clone)]
pub struct UserLoginInfo {
    pub alias: String,
    pub password: String,
}

impl UserCreateInfo {
    /// The `users` row for this request: alias, name, description and
    /// avatar (the e-mail is not stored).
    pub fn user(&self) -> (r: UserCreate)
        ensures
            r.alias == self.alias,
            r.name == self.name,
            r.description == self.description,
            r.avatar == self.avatar,
    {
        UserCreate {
            alias: self.alias.clone(),
            name: self.name.clone(),
            description: self.description.clone(),
            avatar: self.avatar.clone(),
        }
    }
}

/// The answer of `POST /users/create`, from the outcome of the transaction
/// that inserts the user and the password: the new id, or the database
/// error.
pub fn user_create(outcome: Result<i64, db::Error>) -> (r: JsonResponse)
    ensures
        match outcome {
            Ok(id) => r == JsonResponse::Reply(Payload::Created { id }),
            Err(e) => r.answers(Error::Db(e)),
        },
{
    match outcome {
        Ok(id) => JsonResponse::from_payload(Payload::Created { id }),
        Err(e) => JsonResponse::from_error(Error::Db(e)),
    }
}

/// The answer of `POST /users/login`, from the token issued for the login
/// or the reason there is none.
pub fn user_login(outcome: Result<String, auth::Error>) -> (r: JsonResponse)
    ensures
        match outcome {
            Ok(token) => r == JsonResponse::Reply(Payload::Token { token }),
            Err(e) => r.answers(Error::Auth(e)),
        },
{
    match outcome {
        Ok(token) => JsonResponse::from_payload(Payload::Token { token }),
        Err(e) => JsonResponse::from_error(Error::Auth(e)),
    }
}

/// `GET /users/refresh`: with the user's record in the claims, the session
/// is written for that user (its id in decimal under `id`, its alias under
/// `alias`) and the answer is `"success"`; without it the user is not found
/// and nothing is written. The writable session is handed back with the
/// answer, holding the lock until the caller drops it.
pub fn user_refresh(
    claims: Claims,
    session: axum_sessions::extractors::WritableSession,
) -> (r: (JsonResponse, Option<MutSessionData>))
    ensures
        match claims.info {
            Some(d) => {
                &&& r.0 == JsonResponse::Reply(Payload::Success)
                &&& r.1 matches Some(w)
                &&& w.cached().id == d.id as u64
                &&& w.cached().alias@ == d.alias@
                &&& w.written() == Map::<Seq<char>, Seq<char>>::empty().insert(
                    "id"@,
                    decimal((d.id as u64) as nat),
                ).insert("alias"@, d.alias@)
            },
            None => r.0.answers(Error::UserNotFound(claims.sub)) && r.1 is None,
        },
{
    match claims.info {
        Some(data) => {
            let mut writer = MutSessionData::from(data, session);
            writer.save();
            (JsonResponse::from_payload(Payload::Success), Some(writer))
        },
        None => (JsonResponse::from_error(Error::UserNotFound(claims.sub)), None),
    }
}

/// The answer of `GET /users/{id}/info`, from the lookup of user `id`: its
/// alias and name as nickname, or why not.
pub fn user_info(id: u64, outcome: Result<Option<UserInfo>, db::Error>) -> (r: JsonResponse)
    ensures
        match outcome {
            Ok(Some(u)) => r == JsonResponse::Reply(
                Payload::Profile { alias: u.alias, nickname: u.name },
            ),
            Ok(None) => r.answers(Error::UserNotFound(id)),
            Err(e) => r.answers(Error::Db(e)),
        },
{
    match outcome {
        Ok(Some(u)) => JsonResponse::from_payload(
            Payload::Profile { alias: u.alias, nickname: u.name },
        ),
        Ok(None) => JsonResponse::from_error(Error::UserNotFound(id)),
        Err(e) => JsonResponse::from_error(Error::Db(e)),
    }
}

/// The page of `GET /{id}/{title}`: the title, then `, author: ` and the id.
pub fn index(id: u64, title: &str) -> (r: String)
    ensures
        r@ == title@ + ", author: "@ + decimal(id as nat),
{
    let mut r = title.to_owned();
    r.append(", author: ");
    r.append(decimal_string(id).as_str());
    r
}

/// Whether `session` is a login of the owner of `alias`.
pub open spec fn owns(session: Option<SessionData>, alias: Seq<char>) -> bool {
    session matches Some(s) && s.alias@ == alias
}

/// `POST /{alias}/{title}`, before the database: the post to insert when the
/// session is a login of the owner of `alias`; else the answer: a login is
/// required for `target` (the requested path), or the user may not post
/// there.
pub fn new_index(
    session: Option<SessionData>,
    alias: String,
    target: String,
    title: String,
    content: String,
) -> (r: Result<PostCreate, JsonResponse>)
    requires
        session matches Some(s) ==> (s.alias@ == alias@ ==> s.info is Some),
    ensures
        r is Ok <==> owns(session, alias@),
        match session {
            None => r matches Err(resp) && resp.answers(Error::LoginRequired(target)),
            Some(s) => if s.alias@ != alias@ {
                r matches Err(resp) && resp.answers(
                    Error::NotPermitted { alias: s.alias, owned: Some(alias), target },
                )
            } else {
                r == Ok::<PostCreate, JsonResponse>(
                    PostCreate {
                        author_id: s.id as i64,
                        author_name: s.info->Some_0.name,
                        title,
                        content,
                    },
                )
            },
        },
{
    let user = match session {
        Some(user) => user,
        None => {
            return Err(JsonResponse::from_error(Error::LoginRequired(target)));
        },
    };
    if !(user.alias == alias) {
        return Err(
            JsonResponse::from_error(
                Error::NotPermitted { alias: user.alias.clone(), owned: Some(alias), target },
            ),
        );
    }
    let author_name = match user.info {
        Some(info) => info.name,
        None => {
            proof {
                assert(false);
            }
            String::new()
        },
    };
    Ok(PostCreate { author_id: user.id as i64, author_name, title, content })
}

/// The answer of `POST /{alias}/{title}` after the insert: the new post's
/// id, or the database error.
pub fn new_index_reply(outcome: Result<String, db::Error>) -> (r: JsonResponse)
    ensures
        match outcome {
            Ok(id) => r == JsonResponse::Reply(Payload::Posted { id }),
            Err(e) => r.answers(Error::Db(e)),
        },
{
    match outcome {
        Ok(id) => JsonResponse::from_payload(Payload::Posted { id }),
        Err(e) => JsonResponse::from_error(Error::Db(e)),
    }
}

} // verus!
