//! Login claims: who a token speaks for and until when, the login decision,
//! and the errors of authentication.
use vstd::prelude::*;

use crate::common::{ErrorCode, IntoErrorResp, UserId, STATUS_FORBIDDEN, STATUS_INTERNAL_SERVER_ERROR};
use crate::db::{self, UserInfo, UserPassword};
use crate::text::joined;

verus! {

/// How long a login lasts, in seconds.
pub const LOGIN_DURATION: u64 = 3600;

/// The errors of authentication. The signing and token variants hold the
/// debug text of the token library's error.
#[derive(Debug, Clone)]
pub enum Error {
    Internal(&'static str),
    Login(&'static str),
    Signing(String),
    Authentication(String),
    Authorization,
}

impl IntoErrorResp for Error {
    open spec fn status_and_code(&self) -> (u16, ErrorCode) {
        match self {
            Error::Internal(_) => (STATUS_INTERNAL_SERVER_ERROR, ErrorCode::Auth),
            _ => (STATUS_FORBIDDEN, ErrorCode::Auth),
        }
    }

    open spec fn message(&self) -> Seq<char> {
        match self {
            Error::Internal(what) => "auth internal error: "@ + what@,
            Error::Login(why) => "login failed: "@ + why@,
            Error::Signing(err) => "signing failed: "@ + err@,
            Error::Authentication(kind) => "invalid token: "@ + kind@,
            Error::Authorization => "no permision to resource"@,
        }
    }

    fn error_code(&self) -> (r: (u16, ErrorCode)) {
        match self {
            Error::Internal(_) => (STATUS_INTERNAL_SERVER_ERROR, ErrorCode::Auth),
            _ => (STATUS_FORBIDDEN, ErrorCode::Auth),
        }
    }

    fn to_string(&self) -> (r: String) {
        match self {
            Error::Internal(what) => joined("auth internal error: ", what),
            Error::Login(why) => joined("login failed: ", why),
            Error::Signing(err) => joined("signing failed: ", err.as_str()),
            Error::Authentication(kind) => joined("invalid token: ", kind.as_str()),
            Error::Authorization => "no permision to resource".to_owned(),
        }
    }
}

#[verifier::external_type_specification]
#[verifier::external_body]
pub struct ExSystemTime(std::time::SystemTime);

#[verifier::external_type_specification]
#[verifier::external_body]
pub struct ExSystemTimeError(std::time::SystemTimeError);

/// Calls `std::time::SystemTime::now`: the clock's reading, of which
/// nothing is stated.
#[verifier::external_body]
fn system_now() -> std::time::SystemTime {
    std::time::SystemTime::now()
}

/// Calls `SystemTime::duration_since` with `UNIX_EPOCH`: the time since the
/// epoch, or an error for a time before it. Nothing is stated of it.
#[verifier::external_body]
fn since_epoch(t: &std::time::SystemTime) -> std::result::Result<
    std::time::Duration,
    std::time::SystemTimeError,
> {
    t.duration_since(std::time::SystemTime::UNIX_EPOCH)
}

/// Calls `Duration::as_secs`: the whole seconds of `d`, of which nothing is
/// stated.
#[verifier::external_body]
fn whole_seconds(d: &std::time::Duration) -> u64 {
    d.as_secs()
}

/// The expiry of a claim made `duration` seconds long at `now` (seconds
/// since the epoch, none when the clock reads before the epoch): `now +
/// duration`, kept at `u64::MAX` where it would pass it, and 0 without a
/// reading.
pub open spec fn expiry(now: Option<u64>, duration: u64) -> u64 {
    match now {
        Some(t) => if t + duration <= u64::MAX {
            (t + duration) as u64
        } else {
            u64::MAX
        },
        None => 0,
    }
}

/// What a login token speaks for: the user `sub`, until `exp` (seconds since
/// the epoch); `info` is filled in when a request is authenticated and is
/// not part of the token.
#[derive(Debug, Clone)]
pub struct Claims {
    pub sub: UserId,
    pub exp: u64,
    pub info: Option<UserInfo>,
}

/// Where the login transaction goes next.
#[derive(Debug, Clone, Copy, PartialEq, Eq, Structural)]
pub enum LoginStep {
    /// Fetch the `secrets` row of user `id` and check the password.
    FetchSecret { id: UserId },
    /// Done: the user found under the alias, if any, and whether the
    /// password matched.
    Finished { id: Option<UserId>, correct: bool },
}

/// Whether a login transaction's outcome lets the user in.
pub open spec fn login_admits(outcome: Result<(Option<UserId>, bool), db::Error>) -> bool {
    outcome matches Ok((Some(_), true))
}

impl Claims {
    /// Whether these claims are the fresh claims for `id` lasting `duration`
    /// seconds, made at some reading of the clock.
    pub open spec fn fresh_for(self, id: UserId, duration: u64) -> bool {
        &&& self.sub == id
        &&& self.info is None
        &&& exists|now: Option<u64>| self.exp == expiry(now, duration)
    }

    /// The claims for `id` lasting `duration` seconds from `now`.
    pub fn at(id: UserId, duration: u64, now: Option<u64>) -> (r: Self)
        ensures
            r.sub == id,
            r.exp == expiry(now, duration),
            r.info is None,
    {
        let exp = match now {
            Some(t) => t.saturating_add(duration),
            None => 0,
        };
        Claims { sub: id, exp, info: None }
    }

    /// The claims for `id` lasting `duration` seconds from now.
    pub fn new(id: UserId, duration: u64) -> (r: Self)
        ensures
            r.fresh_for(id, duration),
    {
        let now = match since_epoch(&system_now()) {
            Ok(d) => Some(whole_seconds(&d)),
            Err(_) => None,
        };
        let r = Self::at(id, duration, now);
        assert(r.exp == expiry(now, duration));
        r
    }

    /// Whether these claims speak for `id`.
    pub fn check_id(&self, id: UserId) -> (r: bool)
        ensures
            r == (self.sub == id),
    {
        self.sub == id
    }

    /// First step of a login, once the alias has been looked up: with no
    /// user under it the login is over, else the user's secret is fetched.
    pub fn after_lookup(found: Option<UserId>) -> (r: LoginStep)
        ensures
            r == match found {
                Some(id) => LoginStep::FetchSecret { id },
                None => LoginStep::Finished { id: None, correct: false },
            },
    {
        match found {
            Some(id) => LoginStep::FetchSecret { id },
            None => LoginStep::Finished { id: None, correct: false },
        }
    }

    /// Second step of a login: user `id` with its stored secret; the
    /// password is checked against it. The result is what the transaction
    /// found: the user, and whether the password matched.
    pub fn after_check(id: UserId, password: &str, secret: &UserPassword) -> (r: (Option<UserId>, bool))
        ensures
            r == (Some(id), secret.accepts(password@)),
    {
        (Some(id), secret.check(password))
    }

    /// The answer to a login, from the outcome of its transaction (the user
    /// found under the alias and whether the password matched, or the
    /// database failure): claims for the user lasting an hour, or why not.
    pub fn login(outcome: Result<(Option<UserId>, bool), db::Error>) -> (r: Result<Self, Error>)
        ensures
            r is Ok <==> login_admits(outcome),
            match outcome {
                Ok((Some(id), true)) => r matches Ok(c) && c.fresh_for(id, LOGIN_DURATION),
                Ok((None, _)) => r == Err::<Self, Error>(Error::Login("wrong alias")),
                Ok((Some(_), false)) => r == Err::<Self, Error>(Error::Login("wrong password")),
                Err(_) => r == Err::<Self, Error>(Error::Internal("db check password")),
            },
    {
        match outcome {
            Ok((Some(id), true)) => Ok(Self::new(id, LOGIN_DURATION)),
            Ok((None, _)) => Err(Error::Login("wrong alias")),
            Ok((_, false)) => Err(Error::Login("wrong password")),
            Err(_) => Err(Error::Internal("db check password")),
        }
    }

    /// The claims of an authenticated request, once the user they speak for
    /// has been looked up: with the user's record attached, or why not.
    pub fn attach_info(self, lookup: Result<Option<UserInfo>, db::Error>) -> (r: Result<Self, Error>)
        ensures
            match lookup {
                Ok(Some(info)) => r == Ok::<Self, Error>(Claims { info: Some(info), ..self }),
                Ok(None) => r == Err::<Self, Error>(Error::Internal("user not found")),
                Err(_) => r == Err::<Self, Error>(Error::Internal("user_info get")),
            },
    {
        match lookup {
            Ok(Some(info)) => Ok(Claims { info: Some(info), ..self }),
            Ok(None) => Err(Error::Internal("user not found")),
            Err(_) => Err(Error::Internal("user_info get")),
        }
    }
}

/// A login with a user found under the alias lets the user in exactly when
/// the stored secret accepts the password.
pub proof fn law_login_admits_exactly_accepted_passwords(
    id: UserId,
    password: Seq<char>,
    secret: UserPassword,
)
    ensures
        login_admits(Ok((Some(id), secret.accepts(password)))) == secret.accepts(password),
{
}

/// A user whose password was set with `UserPassword::new` gets in with that
/// password, whatever row was stored before and whatever salt was drawn.
pub proof fn law_password_set_then_login_admits(
    user: UserId,
    id: i64,
    password: Seq<char>,
    stored: Option<UserPassword>,
    row: UserPassword,
)
    requires
        row.made_from(id, password, stored),
    ensures
        login_admits(Ok((Some(user), row.accepts(password)))),
{
    db::law_new_password_is_accepted(row, id, password, stored);
}

/// Claims made for a user pass `check_id` for that user and for no other.
pub proof fn law_fresh_claims_speak_for_their_user(
    claims: Claims,
    id: UserId,
    other: UserId,
    duration: u64,
)
    requires
        claims.fresh_for(id, duration),
    ensures
        claims.sub == id,
        other != id ==> claims.sub != other,
{
}

/// Claims made at clock reading `t` for `d` seconds expire exactly `d`
/// seconds after `t` (at `u64::MAX` where that would pass it); without a
/// reading they expire at 0. Two durations made at one reading expire the
/// same distance apart as the durations are.
pub proof fn law_claims_expire_duration_after_reading(t: u64, d: u64, e: u64)
    ensures
        t + d <= u64::MAX ==> expiry(Some(t), d) == t + d,
        t + d > u64::MAX ==> expiry(Some(t), d) == u64::MAX,
        expiry(None, d) == 0,
        t + d <= u64::MAX && t + e <= u64::MAX ==> expiry(Some(t), d) - expiry(Some(t), e) == d - e,
        d <= e ==> expiry(Some(t), d) <= expiry(Some(t), e),
{
}

/// Every authentication error is answered with the code `Auth`: status 500
/// for an internal error and 403 for every other one.
pub proof fn law_auth_errors_are_403_unless_internal(e: Error)
    ensures
        e.status_and_code().1 == ErrorCode::Auth,
        e is Internal ==> e.status_and_code().0 == 500,
        !(e is Internal) ==> e.status_and_code().0 == 403,
{
}

} // verus!
