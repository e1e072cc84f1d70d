//! Users: their password hashes (Argon2), their passkey ids (UUIDs) and the
//! parameters their rows are written with.

use vstd::prelude::*;
use crate::sql::{SqlValue, SqlValueView, params_view};
use crate::json::hex_char;

verus! {

/// The PHC string that Argon2 (default parameters) makes of a password and a
/// salt (B64 text), or `None` when they cannot be hashed.
pub uninterp spec fn argon2_hash(password: Seq<u8>, salt: Seq<char>) -> Option<Seq<char>>;

/// Whether Argon2 (default parameters) finds that a password matches a PHC
/// string, or `None` when the string is not a password hash.
pub uninterp spec fn argon2_verify(hash: Seq<char>, password: Seq<u8>) -> Option<bool>;

/// Hashing or checking a password failed.
#[derive(Debug, PartialEq, Eq)]
pub struct HashError;

/// A character of the standard Base64 alphabet.
pub open spec fn is_b64_char(c: char) -> bool {
    ('A' <= c && c <= 'Z') || ('a' <= c && c <= 'z') || ('0' <= c && c <= '9') || c == '+' || c == '/'
}

/// The unpadded standard Base64 text of sixteen bytes, as `SaltString`
/// writes it: 22 characters of the alphabet, the last of which carries only
/// two bits of data (so it is one of `A`, `Q`, `g`, `w`).
pub open spec fn is_salt_of_16_bytes(s: Seq<char>) -> bool {
    &&& s.len() == 22
    &&& forall|i: int| 0 <= i < s.len() ==> is_b64_char(#[trigger] s[i])
    &&& (s.last() == 'A' || s.last() == 'Q' || s.last() == 'g' || s.last() == 'w')
}

/// `SaltString::generate(&mut OsRng)`: a fresh random salt. Which one is left
/// open; what holds of every one is that it is the B64 text of
/// `Salt::RECOMMENDED_LENGTH` (16) random bytes.
#[verifier::external_body]
fn generate_salt() -> (r: String)
    ensures
        is_salt_of_16_bytes(r@),
{
    argon2::password_hash::SaltString::generate(&mut argon2::password_hash::rand_core::OsRng).as_str().to_string()
}

/// How a PHC string of the default Argon2 algorithm (Argon2id) begins.
pub open spec fn argon2id_tag() -> Seq<char> {
    "$argon2id$"@
}

/// `Argon2::default().hash_password(password, salt)` written as its PHC
/// string. Beside the name, the contract states what hashing is for: the
/// hash it makes accepts the password it was made from; and, for a salt of
/// sixteen bytes (which `Salt::from_b64` and the B64 decoding accept, and
/// which is at least `MIN_SALT_LEN` long), the one check left that can fail:
/// the password may be at most `MAX_PWD_LEN` (`0xFFFFFFFF`) bytes long. The
/// PHC string begins with `$` and the algorithm's name, `argon2id`, and `$`.
#[verifier::external_body]
fn hash_password(password: &[u8], salt: &str) -> (r: Result<String, HashError>)
    ensures
        is_salt_of_16_bytes(salt@) ==> (r is Ok <==> password@.len() <= 0xFFFFFFFF),
        r matches Ok(h) ==> argon2id_tag().is_prefix_of(h@),
        match r {
            Ok(h) => argon2_hash(password@, salt@) == Some(h@) && argon2_verify(h@, password@) == Some(true),
            Err(_) => argon2_hash(password@, salt@) is None,
        },
{
    let salt = argon2::password_hash::Salt::from_b64(salt).map_err(|_| HashError)?;
    argon2::PasswordHasher::hash_password(&argon2::Argon2::default(), password, salt)
        .map(|h| h.to_string()).map_err(|_| HashError)
}

/// `PasswordHash::new(hash)` then `Argon2::default().verify_password(password, ..)`,
/// a failed verification being `false`.
#[verifier::external_body]
fn verify_password(hash: &str, password: &[u8]) -> (r: Result<bool, HashError>)
    ensures
        match r {
            Ok(b) => argon2_verify(hash@, password@) == Some(b),
            Err(_) => argon2_verify(hash@, password@) is None,
        },
{
    let parsed = argon2::PasswordHash::new(hash).map_err(|_| HashError)?;
    Ok(argon2::PasswordVerifier::verify_password(&argon2::Argon2::default(), password, &parsed).is_ok())
}

/// `Uuid::new_v4().as_u128()`: a random UUID; what holds of every one is that
/// its version field reads 4.
#[verifier::external_body]
pub(crate) fn new_uuid_v4() -> (r: u128)
    ensures
        (r / 0x10000000000000000000) % 16 == 4,
{
    uuid::Uuid::new_v4().as_u128()
}

/// The `n` low hexadecimal digits of `v`, most significant first.
pub open spec fn hex_fixed(v: nat, n: nat) -> Seq<char>
    decreases n,
{
    if n == 0 { Seq::empty() } else { hex_fixed(v / 16, (n - 1) as nat).push(hex_char(v % 16)) }
}

/// How `uuid` writes a UUID: its 32 lower-case hex digits in groups of 8, 4,
/// 4, 4 and 12, joined by `-`.
pub open spec fn uuid_hyphenated(u: u128) -> Seq<char> {
    let d = hex_fixed(u as nat, 32);
    d.subrange(0, 8) + seq!['-'] + d.subrange(8, 12) + seq!['-'] + d.subrange(12, 16) + seq!['-']
        + d.subrange(16, 20) + seq!['-'] + d.subrange(20, 32)
}

pub proof fn lemma_hex_fixed_len(v: nat, n: nat)
    ensures
        hex_fixed(v, n).len() == n,
    decreases n,
{
    if n > 0 {
        lemma_hex_fixed_len(v / 16, (n - 1) as nat);
    }
}

/// The `n` low hexadecimal digits of `v`.
fn hex_digits(v: u128, n: u32) -> (r: String)
    ensures
        r@ == hex_fixed(v as nat, n as nat),
    decreases n,
{
    if n == 0 {
        String::new()
    } else {
        let mut s = hex_digits(v / 16, n - 1);
        let d = (v % 16) as u32;
        s.append(crate::json::hex_str(d));
        s
    }
}

/// The text of a UUID as `uuid` writes it (`Uuid::from_u128(u).to_string()`):
/// hyphenated, lower-case.
pub fn uuid_to_string(u: u128) -> (r: String)
    ensures
        r@ == uuid_hyphenated(u),
{
    let d = hex_digits(u, 32);
    proof { lemma_hex_fixed_len(u as nat, 32); reveal_strlit("-"); }
    let t = d.as_str();
    let mut out = String::from_str(t.substring_char(0, 8));
    out.append("-");
    out.append(t.substring_char(8, 12));
    out.append("-");
    out.append(t.substring_char(12, 16));
    out.append("-");
    out.append(t.substring_char(16, 20));
    out.append("-");
    out.append(t.substring_char(20, 32));
    assert(out@ =~= uuid_hyphenated(u));
    out
}

/// What checking `password` against a user with this temporary flag and
/// stored hash gives: temporary users never pass; others pass when Argon2
/// accepts the password, and the check fails (`None`) when the stored hash
/// cannot be read.
pub open spec fn confirms(is_temp: bool, hash: Seq<char>, password: Seq<char>) -> Option<bool> {
    if is_temp {
        Some(false)
    } else {
        argon2_verify(hash, vstd::utf8::encode_utf8(password))
    }
}

/// What `Uuid::from_str` makes of a text (any of the forms `uuid` reads),
/// as a 128-bit number, or `None` when it is not a UUID.
pub uninterp spec fn uuid_parse(s: Seq<char>) -> Option<u128>;

/// `Uuid::from_str(s)` as a number.
#[verifier::external_body]
pub(crate) fn parse_uuid(s: &str) -> (r: Option<u128>)
    ensures
        r == uuid_parse(s@),
{
    <uuid::Uuid as std::str::FromStr>::from_str(s).ok().map(|u| u.as_u128())
}

/// The passkey id stored in a user row's `uuid` column: none when the column
/// is NULL (or not text) or does not hold a UUID.
pub fn uuid_from_column(column: Option<String>) -> (r: Option<u128>)
    ensures
        r == match column {
            Some(t) => uuid_parse(t@),
            None => None,
        },
{
    match column {
        Some(t) => parse_uuid(t.as_str()),
        None => None,
    }
}

/// A user account.
#[derive(Debug)]
pub struct User {
    pub user_id: u64,
    pub email: String,
    password: String,
    /// A passkey account whose registration has not finished yet.
    pub is_temp: bool,
    /// The id a passkey knows the user by.
    pub uuid: Option<u128>,
}

/// A user as data.
pub struct UserView {
    pub user_id: u64,
    pub email: Seq<char>,
    /// The stored password hash (empty for passkey accounts).
    pub hash: Seq<char>,
    pub is_temp: bool,
    pub uuid: Option<u128>,
}

impl View for User {
    type V = UserView;

    closed spec fn view(&self) -> UserView {
        UserView {
            user_id: self.user_id,
            email: self.email@,
            hash: self.password@,
            is_temp: self.is_temp,
            uuid: self.uuid,
        }
    }
}

/// The parameter that stores a passkey id: its hyphenated text, or NULL.
pub open spec fn uuid_param_view(uuid: Option<u128>) -> SqlValueView {
    match uuid {
        Some(u) => SqlValueView::Text(uuid_hyphenated(u)),
        None => SqlValueView::Null,
    }
}

impl User {
    /// A user as stored: id, e-mail, password hash, whether temporary, passkey id.
    pub fn from_parts(user_id: u64, email: String, password_hash: String, is_temp: bool, uuid: Option<u128>) -> (r: User)
        ensures
            r@ == (UserView { user_id, email: email@, hash: password_hash@, is_temp, uuid }),
    {
        User { user_id, email, password: password_hash, is_temp, uuid }
    }

    /// The stored password hash.
    pub fn password_hash(&self) -> (r: &str)
        ensures
            r@ == self@.hash,
    {
        self.password.as_str()
    }

    /// Creates a new user and hashes the password with a fresh salt. This
    /// succeeds unless the password is longer than Argon2 takes (`0xFFFFFFFF`
    /// bytes). The new user has no id yet (0), is not temporary, gets a random
    /// (version 4) passkey id, and confirms the password it was created with.
    pub fn new(email: String, password: String) -> (r: Result<User, HashError>)
        ensures
            r is Ok <==> vstd::utf8::encode_utf8(password@).len() <= 0xFFFFFFFF,
            r matches Ok(u) ==> u@.user_id == 0 && u@.email == email@ && !u@.is_temp && u@.uuid is Some
                && (u@.uuid->0 / 0x10000000000000000000) % 16 == 4
                && (exists|salt: Seq<char>| argon2_hash(vstd::utf8::encode_utf8(password@), salt) == Some(u@.hash))
                && confirms(u@.is_temp, u@.hash, password@) == Some(true)
                && argon2id_tag().is_prefix_of(u@.hash)
                && (!argon2id_tag().is_prefix_of(password@) ==> u@.hash != password@),
    {
        let salt = generate_salt();
        let hash = hash_password(password.as_str().as_bytes(), salt.as_str())?;
        let uuid = new_uuid_v4();
        Ok(User { user_id: 0, email, password: hash, is_temp: false, uuid: Some(uuid) })
    }

    /// The user a registration form creates (`User::new` on its e-mail
    /// address and password).
    pub fn from_body(body: crate::auth::UserBody) -> (r: Result<User, HashError>)
        ensures
            r is Ok <==> vstd::utf8::encode_utf8(body.password@).len() <= 0xFFFFFFFF,
            r matches Ok(u) ==> u@.user_id == 0 && u@.email == body.email@ && !u@.is_temp && u@.uuid is Some
                && (u@.uuid->0 / 0x10000000000000000000) % 16 == 4
                && (exists|salt: Seq<char>| argon2_hash(vstd::utf8::encode_utf8(body.password@), salt) == Some(u@.hash))
                && confirms(u@.is_temp, u@.hash, body.password@) == Some(true)
                && argon2id_tag().is_prefix_of(u@.hash)
                && (!argon2id_tag().is_prefix_of(body.password@) ==> u@.hash != body.password@),
    {
        User::new(body.email, body.password)
    }

    /// Passkey users are temporary until their registration finishes, and
    /// have no password; they need a unique id for authentication.
    pub fn new_webauthn(email: &str, uuid: u128) -> (r: User)
        ensures
            r@ == (UserView { user_id: 0, email: email@, hash: Seq::empty(), is_temp: true, uuid: Some(uuid) }),
    {
        User { user_id: 0, email: String::from_str(email), password: String::new(), is_temp: true, uuid: Some(uuid) }
    }

    /// Marks a passkey user's registration as finished: the user is no
    /// longer temporary; nothing else changes.
    pub fn complete_registration(&mut self)
        ensures
            final(self)@ == (UserView { is_temp: false, ..old(self)@ }),
    {
        self.is_temp = false;
    }

    /// Checks a password: temporary users never pass; for others Argon2
    /// decides, and an unreadable stored hash is an error.
    pub fn confirm_password(&self, password: &str) -> (r: Result<bool, HashError>)
        ensures
            match confirms(self@.is_temp, self@.hash, password@) {
                Some(b) => r == Ok::<bool, HashError>(b),
                None => r is Err,
            },
    {
        if self.is_temp {
            return Ok(false);
        }
        verify_password(self.password.as_str(), password.as_bytes())
    }

    /// The passkey id as stored: its hyphenated text, or NULL.
    fn uuid_param(&self) -> (r: SqlValue)
        ensures
            r@ == uuid_param_view(self@.uuid),
    {
        match self.uuid {
            Some(u) => SqlValue::Text(uuid_to_string(u)),
            None => SqlValue::Null,
        }
    }

    /// The parameters of `INSERT INTO users (email, password, is_temp, uuid)`.
    pub fn insert_params(&self) -> (r: Vec<SqlValue>)
        ensures
            params_view(r@) == seq![
                SqlValueView::Text(self@.email),
                SqlValueView::Text(self@.hash),
                SqlValueView::Bool(self@.is_temp),
                uuid_param_view(self@.uuid),
            ],
    {
        let mut r = Vec::new();
        r.push(SqlValue::Text(self.email.clone()));
        r.push(SqlValue::Text(self.password.clone()));
        r.push(SqlValue::Bool(self.is_temp));
        r.push(self.uuid_param());
        assert(params_view(r@) =~= seq![
            SqlValueView::Text(self@.email),
            SqlValueView::Text(self@.hash),
            SqlValueView::Bool(self@.is_temp),
            uuid_param_view(self@.uuid),
        ]);
        r
    }

    /// The parameters of `UPDATE users SET email, password, is_temp, uuid WHERE user_id`.
    pub fn update_params(&self) -> (r: Vec<SqlValue>)
        ensures
            params_view(r@) == seq![
                SqlValueView::Text(self@.email),
                SqlValueView::Text(self@.hash),
                SqlValueView::Bool(self@.is_temp),
                uuid_param_view(self@.uuid),
                SqlValueView::UInt(self@.user_id),
            ],
    {
        let mut r = self.insert_params();
        let ghost before = params_view(r@);
        r.push(SqlValue::UInt(self.user_id));
        assert(params_view(r@) =~= before.push(SqlValueView::UInt(self.user_id)));
        assert(params_view(r@) =~= seq![
            SqlValueView::Text(self@.email),
            SqlValueView::Text(self@.hash),
            SqlValueView::Bool(self@.is_temp),
            uuid_param_view(self@.uuid),
            SqlValueView::UInt(self@.user_id),
        ]);
        r
    }
}

} // verus!
