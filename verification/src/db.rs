//! The rows the service stores, and the password rules: a password is kept
//! as the SHA-256 digest of `password$salt`, printed in lower-case hex.
use vstd::prelude::*;
use vstd::utf8::encode_utf8;

use crate::text::{all_lower_hex, lower_hex, push_char};

verus! {

/// A user's id as the `users` table stores it.
#[derive(Debug, Clone, Copy, PartialEq, Eq, Structural)]
pub struct User {
    pub id: i64,
}

/// The columns of a new `users` row.
#[derive(Debug, Clone)]
pub struct UserCreate {
    pub alias: String,
    pub name: String,
    pub description: Option<String>,
    pub avatar: Option<String>,
}

/// A `secrets` row: the current password digest of user `id` and the salt it
/// was taken with.
#[derive(Debug, Clone)]
pub struct UserPassword {
    pub id: i64,
    pub current: String,
    pub salt: String,
}

/// What the service reads of a user: id, alias and display name.
#[derive(Debug, Clone)]
pub struct UserInfo {
    pub id: i64,
    pub alias: String,
    pub name: String,
}

/// The columns of a new `posts` row.
#[derive(Debug, Clone)]
pub struct PostCreate {
    pub author_id: i64,
    pub author_name: String,
    pub title: String,
    pub content: String,
}

/// A failed database operation, by the text the database layer reports.
#[derive(Debug, Clone)]
pub struct Error {
    pub message: String,
}

/// The SHA-256 digest of `data`, as `sha2::Sha256::digest` computes it.
pub uninterp spec fn sha256_digest(data: Seq<u8>) -> Seq<u8>;

/// Calls `sha2::Sha256::digest`. Trusted: the result is the digest of the
/// input bytes and is 32 bytes long (its type is a 32-byte array).
#[verifier::external_body]
fn sha256(data: &[u8]) -> (r: Vec<u8>)
    ensures
        r@ == sha256_digest(data@),
        r@.len() == 32,
{
    <sha2::Sha256 as sha2::Digest>::digest(data).to_vec()
}

/// Calls `rand::random` for sixteen bytes from the thread-local generator.
/// Nothing is stated of the bytes: they come by chance.
#[verifier::external_body]
fn random_salt_bytes() -> [u8; 16] {
    rand::random::<[u8; 16]>()
}

/// The text whose digest is stored: the password, a `$`, then the salt.
pub open spec fn salted(password: Seq<char>, salt: Seq<char>) -> Seq<char> {
    password.push('$') + salt
}

/// The lower-case hex SHA-256 digest of some bytes.
pub open spec fn hex_digest(bytes: Seq<u8>) -> Seq<char> {
    lower_hex(sha256_digest(bytes))
}

/// The digest stored for `password` under `salt`.
pub open spec fn password_digest(password: Seq<char>, salt: Seq<char>) -> Seq<char> {
    hex_digest(encode_utf8(salted(password, salt)))
}

impl UserPassword {
    /// Whether `password` is the one this row was made for.
    pub open spec fn accepts(self, password: Seq<char>) -> bool {
        password_digest(password, self.salt@) == self.current@
    }

    /// What `new` may return for user `id`, `password` and the row already
    /// stored for the user: the salt is the stored row's `current` field when
    /// there is one, else a fresh random salt; `current` is the digest of the
    /// password under that salt.
    pub open spec fn made_from(
        self,
        id: i64,
        password: Seq<char>,
        stored: Option<UserPassword>,
    ) -> bool {
        &&& self.id == id
        &&& match stored {
            Some(row) => self.salt@ == row.current@,
            None => is_random_salt(self.salt@),
        }
        &&& self.current@ == password_digest(password, self.salt@)
    }

    /// The lower-case hex SHA-256 digest of `x`.
    pub fn hash(x: &[u8]) -> (r: String)
        ensures
            r@ == hex_digest(x@),
            r@.len() == 64,
            all_lower_hex(r@),
    {
        let digest = sha256(x);
        proof {
            crate::text::lemma_lower_hex_len(digest@);
            crate::text::lemma_lower_hex_digits(digest@);
        }
        crate::text::lower_hex_string(digest.as_slice())
    }

    /// A fresh salt: the hex digest of sixteen random bytes, 64 lower-case
    /// hex digits.
    pub fn gen_salt() -> (r: String)
        ensures
            is_random_salt(r@),
            r@.len() == 64,
            all_lower_hex(r@),
    {
        let bytes = random_salt_bytes();
        let r = Self::hash(vstd::array::array_as_slice(&bytes));
        assert(bytes@.len() == 16);
        r
    }

    /// The text `password$salt`.
    pub fn salted(password: &str, salt: &str) -> (r: String)
        ensures
            r@ == salted(password@, salt@),
    {
        let mut r = password.to_owned();
        push_char(&mut r, '$');
        r.append(salt);
        r
    }

    /// The `secrets` row that sets `password` for user `id`. `stored` is the
    /// row the table already holds for the user, if any: its `current`
    /// field is taken as the salt; without one a fresh salt is drawn.
    pub fn new(id: i64, password: String, stored: Option<UserPassword>) -> (r: Self)
        ensures
            r.made_from(id, password@, stored),
    {
        let salt = match stored {
            Some(row) => row.current,
            None => Self::gen_salt(),
        };
        let text = Self::salted(password.as_str(), salt.as_str());
        let current = Self::hash(text.as_str().as_bytes());
        UserPassword { id, salt, current }
    }

    /// Whether `password` matches this row: the digest of `password$salt`
    /// equals the stored digest.
    pub fn check(&self, password: &str) -> (r: bool)
        ensures
            r == self.accepts(password@),
    {
        let text = Self::salted(password, self.salt.as_str());
        let digest = Self::hash(text.as_str().as_bytes());
        digest == self.current
    }
}

/// A salt that `gen_salt` can give: 64 lower-case hex digits, the hex
/// digest of some sixteen bytes.
pub open spec fn is_random_salt(salt: Seq<char>) -> bool {
    &&& salt.len() == 64
    &&& all_lower_hex(salt)
    &&& exists|bytes: Seq<u8>| bytes.len() == 16 && salt == #[trigger] hex_digest(bytes)
}

impl Error {
    /// The text of the failure.
    pub fn to_string(&self) -> (r: String)
        ensures
            r@ == self.message@,
    {
        self.message.clone()
    }
}

/// A password set with `UserPassword::new` is accepted by `check` with the
/// same password, whatever row was stored before and whatever salt was drawn.
pub proof fn law_new_password_is_accepted(
    row: UserPassword,
    id: i64,
    password: Seq<char>,
    stored: Option<UserPassword>,
)
    requires
        row.made_from(id, password, stored),
    ensures
        row.accepts(password),
{
}

/// Setting a password over a stored row takes the stored row's `current`
/// field as the new salt, whatever that field holds, keeps the user id, and
/// stores the digest of `password$` followed by that field.
pub proof fn law_new_password_salts_with_stored_digest(
    row: UserPassword,
    id: i64,
    password: Seq<char>,
    stored: UserPassword,
)
    requires
        row.made_from(id, password, Some(stored)),
    ensures
        row.id == id,
        row.salt@ == stored.current@,
        row.current@ == hex_digest(encode_utf8(password.push('$') + stored.current@)),
{
}

/// Setting a password with no stored row draws a salt of 64 lower-case hex
/// digits.
pub proof fn law_new_password_without_row_draws_hex_salt(
    row: UserPassword,
    id: i64,
    password: Seq<char>,
)
    requires
        row.made_from(id, password, None),
    ensures
        row.id == id,
        row.salt@.len() == 64,
        all_lower_hex(row.salt@),
        row.current@ == hex_digest(encode_utf8(password.push('$') + row.salt@)),
{
}

} // verus!
