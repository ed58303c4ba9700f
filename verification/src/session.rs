//! Cookie sessions: the user a session belongs to, how it is read back, and
//! a writable session whose cached user is kept in step with what is
//! written to it.
use vstd::prelude::*;

use crate::common::STATUS_INTERNAL_SERVER_ERROR;
use crate::db::UserInfo;
use crate::text::{joined, decimal, decimal_string};

verus! {

/// Why the user of a session could not be had.
#[derive(Debug, Clone, Copy)]
pub enum Error {
    SessionSetup,
    Presence(&'static str),
    DbSetup,
    DbExec,
    DbResult,
}

impl Error {
    /// The message of the error.
    pub open spec fn message(self) -> Seq<char> {
        match self {
            Error::SessionSetup => "session not setup"@,
            Error::Presence(what) => what@ + " not presence"@,
            Error::DbSetup => "db not setup"@,
            Error::DbExec => "db exec failed"@,
            Error::DbResult => "user not found"@,
        }
    }

    /// The message of the error.
    pub fn to_string(&self) -> (r: String)
        ensures
            r@ == self.message(),
    {
        match self {
            Error::SessionSetup => "session not setup".to_owned(),
            Error::Presence(what) => joined(what, " not presence"),
            Error::DbSetup => "db not setup".to_owned(),
            Error::DbExec => "db exec failed".to_owned(),
            Error::DbResult => "user not found".to_owned(),
        }
    }

    /// The answer to a request that fails so: status 500 and the message.
    pub fn response(&self) -> (r: (u16, String))
        ensures
            r.0 == STATUS_INTERNAL_SERVER_ERROR,
            r.1@ == self.message(),
    {
        (STATUS_INTERNAL_SERVER_ERROR, self.to_string())
    }
}

/// The user a session belongs to.
#[derive(Debug, Clone)]
pub struct SessionData {
    pub id: u64,
    pub alias: String,
    pub info: Option<UserInfo>,
}

/// What looking up a session's user in the database gave.
#[derive(Debug, Clone)]
pub enum UserLookup {
    /// No connection could be had.
    NoConnection,
    /// The query failed.
    Failed,
    /// The query ran: the user, if there is one with that id.
    Found(Option<UserInfo>),
}

#[verifier::external_type_specification]
#[verifier::external_body]
pub struct ExSession(axum_sessions::async_session::Session);

#[verifier::external_type_specification]
#[verifier::external_body]
pub struct ExWritableSession(axum_sessions::extractors::WritableSession);

/// Whether reading `key` from `session` as a JSON number gave `value`. It
/// is a relation, not a function of the session: the entries sit behind a
/// lock that other handles of the same session share, so two reads of one
/// key may give different values.
pub uninterp spec fn session_gave_number(
    session: axum_sessions::async_session::Session,
    key: Seq<char>,
    value: Option<u64>,
) -> bool;

/// Whether reading `key` from `session` as text gave `value`; a relation
/// for the reason given at `session_gave_number`.
pub uninterp spec fn session_gave_text(
    session: axum_sessions::async_session::Session,
    key: Seq<char>,
    value: Option<Seq<char>>,
) -> bool;

/// The text of an optional string.
pub open spec fn opt_text(s: Option<String>) -> Option<Seq<char>> {
    match s {
        Some(t) => Some(t@),
        None => None,
    }
}

/// Calls `Session::get::<u64>`: the value under `key` read as a JSON number.
/// Trusted: the result is what this read of `key` gave; which value that is
/// is not stated, for the reason given at `session_gave_number`.
#[verifier::external_body]
fn session_get_u64(session: &axum_sessions::async_session::Session, key: &str) -> (r: Option<u64>)
    ensures
        session_gave_number(*session, key@, r),
{
    session.get::<u64>(key)
}

/// Calls `Session::get_raw`: the text under `key`. Trusted: the result is
/// what this read of `key` gave; which value is not stated, for the reason
/// given at `session_gave_number`.
#[verifier::external_body]
fn session_get_raw(session: &axum_sessions::async_session::Session, key: &str) -> (r: Option<String>)
    ensures
        session_gave_text(*session, key@, opt_text(r)),
{
    session.get_raw(key)
}

impl SessionData {
    /// The user a session names by its `alias` entry, once the user's record
    /// was found: missing alias is an error.
    pub fn with_alias(id: u64, info: UserInfo, alias: Option<String>) -> (r: Result<Self, Error>)
        ensures
            r == Self::with_alias_spec(id, info, alias),
    {
        match alias {
            Some(a) => Ok(SessionData { id, alias: a, info: Some(info) }),
            None => Err(Error::Presence("alias")),
        }
    }

    /// The id a session names, from what its `id` entry read as: the number
    /// when it read as one, else the entry is missing.
    pub fn id_entry(read: Option<u64>) -> (r: Result<u64, Error>)
        ensures
            r == Self::id_entry_spec(read),
    {
        match read {
            Some(id) => Ok(id),
            None => Err(Error::Presence("id")),
        }
    }

    /// The id a session names when its `id` entry read as `read`.
    pub open spec fn id_entry_spec(read: Option<u64>) -> Result<u64, Error> {
        match read {
            Some(id) => Ok(id),
            None => Err(Error::Presence("id")),
        }
    }

    /// First step of reading a session's user: the id it stores under `id`,
    /// read as a number.
    pub fn stored_id(session: &axum_sessions::async_session::Session) -> (r: Result<u64, Error>)
        ensures
            r is Err ==> r == Err::<u64, Error>(Error::Presence("id")),
            exists|read: Option<u64>|
                #![trigger session_gave_number(*session, "id"@, read)]
                session_gave_number(*session, "id"@, read) && r == Self::id_entry_spec(read),
    {
        let read = session_get_u64(session, "id");
        Self::id_entry(read)
    }

    /// Second step: the user `id` as the database lookup found it, and the
    /// alias the session stores.
    pub fn from(
        session: &axum_sessions::async_session::Session,
        id: u64,
        lookup: UserLookup,
    ) -> (r: Result<Self, Error>)
        ensures
            match lookup {
                UserLookup::NoConnection => r == Err::<Self, Error>(Error::DbSetup),
                UserLookup::Failed => r == Err::<Self, Error>(Error::DbExec),
                UserLookup::Found(None) => r == Err::<Self, Error>(Error::DbResult),
                UserLookup::Found(Some(info)) => exists|alias: Option<String>|
                    #![trigger session_gave_text(*session, "alias"@, opt_text(alias))]
                    session_gave_text(*session, "alias"@, opt_text(alias))
                        && r == Self::with_alias_spec(id, info, alias),
            },
    {
        match lookup {
            UserLookup::NoConnection => Err(Error::DbSetup),
            UserLookup::Failed => Err(Error::DbExec),
            UserLookup::Found(None) => Err(Error::DbResult),
            UserLookup::Found(Some(info)) => {
                let alias = session_get_raw(session, "alias");
                Self::with_alias(id, info, alias)
            },
        }
    }

    /// The user a session names by `alias`: user `id` with record `info`, or
    /// the missing alias.
    pub open spec fn with_alias_spec(id: u64, info: UserInfo, alias: Option<String>) -> Result<Self, Error> {
        match alias {
            Some(a) => Ok(SessionData { id, alias: a, info: Some(info) }),
            None => Err(Error::Presence("alias")),
        }
    }
}

/// A writable session with its user cached. `written` is the record of the
/// entries this handle has stored in the session through `store`, the last
/// value for each key; `store` is the only code that changes it.
pub struct MutSessionData {
    cache: SessionData,
    writer: axum_sessions::extractors::WritableSession,
    written: Ghost<Map<Seq<char>, Seq<char>>>,
}

impl MutSessionData {
    /// The cached user.
    pub closed spec fn cached(self) -> SessionData {
        self.cache
    }

    /// The entries this handle has stored in the session, by key: the last
    /// value `store` was handed for each key.
    pub closed spec fn written(self) -> Map<Seq<char>, Seq<char>> {
        self.written@
    }

    /// Calls `Session::insert_raw` through the writable session: stores
    /// `value` under `key` (async-session inserts the value under the key
    /// unless it is already there). Trusted: the record of written entries
    /// gains `key` with `value`, and the cached user is unchanged. What other
    /// handles of the same session see is not stated.
    #[verifier::external_body]
    fn store(&mut self, key: &str, value: String)
        ensures
            final(self).written() == old(self).written().insert(key@, value@),
            final(self).cached() == old(self).cached(),
    {
        self.writer.insert_raw(key, value)
    }

    /// The id of the cached user.
    pub fn id(&self) -> (r: u64)
        ensures
            r == self.cached().id,
    {
        self.cache.id
    }

    /// The alias of the cached user.
    pub fn alias(&self) -> (r: &str)
        ensures
            r@ == self.cached().alias@,
    {
        self.cache.alias.as_str()
    }

    /// Stores `id` (in decimal) under `id` and caches it.
    pub fn set_id(&mut self, id: u64)
        ensures
            final(self).cached() == (SessionData { id, ..old(self).cached() }),
            final(self).written() == old(self).written().insert("id"@, decimal(id as nat)),
    {
        let value = decimal_string(id);
        self.store("id", value);
        self.cache.id = id;
    }

    /// Stores `alias` under `alias` and caches it.
    pub fn set_alias(&mut self, alias: &str)
        ensures
            final(self).cached().id == old(self).cached().id,
            final(self).cached().info == old(self).cached().info,
            final(self).cached().alias@ == alias@,
            final(self).written() == old(self).written().insert("alias"@, alias@),
    {
        self.store("alias", alias.to_owned());
        self.cache.alias = alias.to_owned();
    }

    /// Stores the cached id (in decimal) and alias in the session.
    pub fn save(&mut self)
        ensures
            final(self).cached() == old(self).cached(),
            final(self).written() == old(self).written().insert(
                "id"@,
                decimal(old(self).cached().id as nat),
            ).insert("alias"@, old(self).cached().alias@),
    {
        let id_text = decimal_string(self.cache.id);
        self.store("id", id_text);
        let alias_text = self.cache.alias.clone();
        self.store("alias", alias_text);
    }

    /// A writable session whose user is `cache`, nothing written yet.
    pub fn with_cache(cache: SessionData, writer: axum_sessions::extractors::WritableSession) -> (r: Self)
        ensures
            r.cached() == cache,
            r.written() == Map::<Seq<char>, Seq<char>>::empty(),
    {
        MutSessionData { cache, writer, written: Ghost(Map::empty()) }
    }

    /// A writable session for user `data`, nothing written yet.
    pub fn from(data: UserInfo, writer: axum_sessions::extractors::WritableSession) -> (r: Self)
        ensures
            r.cached().id == data.id as u64,
            r.cached().alias@ == data.alias@,
            r.cached().info == Some(data),
            r.written() == Map::<Seq<char>, Seq<char>>::empty(),
    {
        let id = data.id as u64;
        let alias = data.alias.clone();
        MutSessionData {
            cache: SessionData { id, alias, info: Some(data) },
            writer,
            written: Ghost(Map::empty()),
        }
    }
}

/// After `save`, the session holds the cached user: its id in decimal under
/// `id` and its alias under `alias`.
pub proof fn law_saved_session_holds_cached_user(before: MutSessionData, after: MutSessionData)
    requires
        after.cached() == before.cached(),
        after.written() == before.written().insert("id"@, decimal(before.cached().id as nat)).insert(
            "alias"@,
            before.cached().alias@,
        ),
    ensures
        after.written().contains_key("id"@),
        after.written()["id"@] == decimal(after.cached().id as nat),
        after.written()["alias"@] == after.cached().alias@,
{
    assert("id"@ != "alias"@) by {
        reveal_strlit("id");
        reveal_strlit("alias");
        assert("id"@.len() != "alias"@.len());
    }
}

/// A session whose `id` entry reads as a number names that number as its
/// user's id, whatever the number; only a missing (or unreadable) entry is
/// an error, and then it is the missing `id`.
pub proof fn law_session_id_is_the_stored_number(n: u64)
    ensures
        SessionData::id_entry_spec(Some(n)) == Ok::<u64, Error>(n),
        SessionData::id_entry_spec(None) == Err::<u64, Error>(Error::Presence("id")),
{
}

} // verus!
