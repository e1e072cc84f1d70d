//! Sessions: the claims a signed session cookie carries, the checks on a
//! registration form, the short-lived cookie that carries a user id between
//! the two halves of a passkey ceremony, and the guards in front of the API.

use vstd::prelude::*;
use crate::text::{decimal, parse_u64, parse_u64_spec, u64_to_string, is_digit, lemma_decimal, lemma_parse_decimal};
use crate::cookie_tools::{is_whitespace, plain_cookie_text, lemma_cookie_round_trip};
use crate::json::{claims_json, write_claims_json};
use crate::headers::{header_str, first_header_text, header_values, values_named};
use crate::cookie_tools::{
    cookie_value, cookie_from_headers, cookie_in_header_values, first_cookie_value, split_cookies,
    set_cookie_text, cookie_date, cookie_expiring, cookie_expiring_plain, cookie_with_max_age,
    now_unix, SameSite, MAX_COOKIE_TIME, MIN_COOKIE_TIME,
};

verus! {

/// An HTTP status that the service answers with.
#[derive(Debug, Clone, Copy, PartialEq, Eq, Structural)]
pub enum Status {
    /// 200 OK.
    Success,
    Created,
    BadRequest,
    Unauthorized,
    Forbidden,
    NotFound,
    InternalServerError,
}

impl Status {
    /// The numeric status code.
    pub fn code(&self) -> (r: u16)
        ensures
            r == match self {
                Status::Success => 200u16,
                Status::Created => 201u16,
                Status::BadRequest => 400u16,
                Status::Unauthorized => 401u16,
                Status::Forbidden => 403u16,
                Status::NotFound => 404u16,
                Status::InternalServerError => 500u16,
            },
    {
        match self {
            Status::Success => 200,
            Status::Created => 201,
            Status::BadRequest => 400,
            Status::Unauthorized => 401,
            Status::Forbidden => 403,
            Status::NotFound => 404,
            Status::InternalServerError => 500,
        }
    }
}

/// The name of the session cookie.
pub open spec fn session_cookie_name() -> Seq<char> {
    "jwt"@
}

/// Seven days, in seconds: how long a session cookie lives.
pub open spec fn session_lifetime() -> int {
    604800
}

/// The expiry every session token carries (far in the future; the cookie's
/// own expiry is what ends a session).
pub open spec fn token_expiry() -> u64 {
    1000000000000
}

/// The claims of a session token: whose session it is, when the token
/// expires, and who issued it.
#[derive(Debug)]
pub struct Claims {
    pub sub: u64,
    exp: u64,
    iss: String,
}

impl View for Claims {
    type V = (u64, u64, Seq<char>);

    closed spec fn view(&self) -> Self::V {
        (self.sub, self.exp, self.iss@)
    }
}

/// What a session token signs: the HS256 JSON Web Token (with `jsonwebtoken`'s
/// default header) of the given payload under the given secret.
pub uninterp spec fn jwt_hs256(payload: Seq<char>, secret: Seq<u8>) -> Seq<char>;

/// Why a session cookie could not be made.
#[derive(Debug, PartialEq, Eq)]
pub enum TokenError {
    /// The token could not be signed.
    Encoding,
    /// The clock reads a time whose week-later expiry no cookie can name.
    Time,
}

/// A character of a signed token: the URL-safe base64 alphabet, or the `.`
/// that separates its parts.
pub open spec fn is_token_char(c: char) -> bool {
    ('A' <= c && c <= 'Z') || ('a' <= c && c <= 'z') || ('0' <= c && c <= '9') || c == '-' || c == '_' || c == '.'
}

/// What `jsonwebtoken::decode` with `DecodingKey::from_secret(secret)` and
/// `Validation::new(Algorithm::HS256)` finds in a token before it looks at
/// the clock: when the token is `header.claims.signature` with an HS256
/// header and a signature that is the HMAC-SHA256 of `header.claims` under
/// `secret`, the JSON text of its claims part (URL-safe base64 decoded,
/// without surrounding white space); `None` when it is not so signed or its
/// claims part is not JSON.
pub uninterp spec fn jwt_hs256_claims(token: Seq<char>, secret: Seq<u8>) -> Option<Seq<char>>;

/// A claims object as `claims_json` writes it.
pub open spec fn is_claims_text(payload: Seq<char>) -> bool {
    exists|sub: u64, exp: u64, iss: Seq<char>| payload == claims_json(sub, exp, iss)
}

/// `jsonwebtoken::encode` with the default header (HS256) and
/// `EncodingKey::from_secret(secret)`, the payload being the given JSON text
/// (handed over as a `serde_json` raw value, so written as it is). Beside the
/// name, the contract states what `jsonwebtoken` does:
/// - the token's parts are URL-safe base64 (no padding) joined by `.`;
/// - for a claims object as `claims_json` writes it (well-formed JSON, which
///   `RawValue::from_string` takes), encoding does not fail: the key's family
///   (HMAC) matches the default header's algorithm, writing the header and a
///   raw value as JSON cannot fail, and HMAC signing cannot fail;
/// - such a token carries that object as its claims, signed under `secret`,
///   so that decoding it under the same secret finds the object again.
#[verifier::external_body]
fn jwt_encode_hs256(payload: &str, secret: &[u8]) -> (r: Result<String, TokenError>)
    ensures
        r matches Ok(t) ==> t@ == jwt_hs256(payload@, secret@),
        r matches Ok(t) ==> forall|j: int| 0 <= j < t@.len() ==> is_token_char(#[trigger] t@[j]),
        is_claims_text(payload@) ==> r is Ok,
        r matches Ok(t) ==> (is_claims_text(payload@) ==> jwt_hs256_claims(t@, secret@) == Some(payload@)),
{
    let raw = serde_json::value::RawValue::from_string(payload.to_string()).map_err(|_| TokenError::Encoding)?;
    jsonwebtoken::encode(&jsonwebtoken::Header::default(), &raw, &jsonwebtoken::EncodingKey::from_secret(secret))
        .map_err(|_| TokenError::Encoding)
}

/// The session token of these claims: their JSON object, signed with `secret`.
pub open spec fn session_token(c: (u64, u64, Seq<char>), secret: Seq<u8>) -> Seq<char> {
    jwt_hs256(claims_json(c.0, c.1, c.2), secret)
}

/// The `Set-Cookie` value of a session cookie holding `token`, made at `now`:
/// path `/`, HTTP only, `SameSite=Strict`, expiring a week later.
pub open spec fn session_cookie_text(token: Seq<char>, now: i64) -> Seq<char> {
    set_cookie_text(session_cookie_name(), token, true, Some(SameSite::Strict), Some("/"@), None, None,
        Some(cookie_date((now + session_lifetime()) as i64)))
}

/// Whether a week after `now` is an instant a cookie can name.
pub open spec fn session_expiry_ok(now: i64) -> bool {
    MIN_COOKIE_TIME <= now + session_lifetime() <= MAX_COOKIE_TIME
}

/// The session cookie holding `token`, made at `now`; `None` when a week
/// after `now` is not an instant a cookie can name.
pub fn session_cookie(token: &str, now: i64) -> (r: Option<String>)
    ensures
        match r {
            Some(c) => session_expiry_ok(now) && c@ == session_cookie_text(token@, now),
            None => !session_expiry_ok(now),
        },
{
    if now < MIN_COOKIE_TIME - 604800 || now > MAX_COOKIE_TIME - 604800 {
        return None;
    }
    proof { reveal_strlit("jwt"); }
    Some(cookie_expiring("jwt", token, "/", true, SameSite::Strict, now + 604800))
}

impl Claims {
    /// The claims of a new session for `user_id`.
    pub fn new(user_id: u64) -> (r: Claims)
        ensures
            r@ == (user_id, token_expiry(), "listo_rs"@),
    {
        Claims { sub: user_id, exp: 1000000000000, iss: String::from_str("listo_rs") }
    }

    /// Claims read back from a token.
    pub fn from_parts(sub: u64, exp: u64, iss: String) -> (r: Claims)
        ensures
            r@ == (sub, exp, iss@),
    {
        Claims { sub, exp, iss }
    }

    /// When the token expires (seconds since the epoch).
    pub fn exp(&self) -> (r: u64)
        ensures
            r == self@.1,
    {
        self.exp
    }

    /// Who issued the token.
    pub fn iss(&self) -> (r: &str)
        ensures
            r@ == self@.2,
    {
        self.iss.as_str()
    }

    /// The JSON object that a token of these claims signs.
    pub fn to_json(&self) -> (r: String)
        ensures
            r@ == claims_json(self@.0, self@.1, self@.2),
    {
        write_claims_json(self.sub, self.exp, self.iss.as_str())
    }

    /// The session cookie for these claims made at `now`: a token of them
    /// signed with `secret`, in a cookie that expires a week after `now`.
    /// Signing never fails; the cookie is refused (`Time`) exactly when a week
    /// after `now` is not an instant a cookie can name. The token consists of
    /// plain cookie text, and decoding it under `secret` finds these claims.
    pub fn cookie_at(&self, secret: &[u8], now: i64) -> (r: Result<String, TokenError>)
        ensures
            r is Ok <==> session_expiry_ok(now),
            r matches Ok(c) ==> c@ == session_cookie_text(session_token(self@, secret@), now),
            r matches Err(e) ==> e == TokenError::Time,
            plain_cookie_text(session_token(self@, secret@)),
            jwt_hs256_claims(session_token(self@, secret@), secret@) == Some(claims_json(self@.0, self@.1, self@.2)),
    {
        let payload = self.to_json();
        assert(is_claims_text(payload@)) by {
            assert(payload@ == claims_json(self.sub, self.exp, self.iss@));
        }
        let token = match jwt_encode_hs256(payload.as_str(), secret) {
            Ok(t) => t,
            Err(e) => {
                assert(false);
                return Err(e);
            },
        };
        assert forall|j: int| 0 <= j < token@.len() implies #[trigger] token@[j] != ';' && !is_whitespace(token@[j]) by {
            assert(is_token_char(token@[j]));
        }
        match session_cookie(token.as_str(), now) {
            Some(c) => Ok(c),
            None => Err(TokenError::Time),
        }
    }

    /// The session cookie for these claims: a token of them signed with
    /// `secret`, in a cookie that expires a week from now (`cookie_at` at the
    /// time the clock reads). What the clock read is not known, so the expiry
    /// is stated only as some instant, and the one error, `Time`, comes from
    /// the clock alone: signing never fails.
    pub fn to_cookie(&self, secret: &[u8]) -> (r: Result<String, TokenError>)
        ensures
            r matches Ok(c) ==> exists|now: i64| session_expiry_ok(now)
                && c@ == session_cookie_text(session_token(self@, secret@), now),
            r matches Err(e) ==> e == TokenError::Time,
            plain_cookie_text(session_token(self@, secret@)),
            jwt_hs256_claims(session_token(self@, secret@), secret@) == Some(claims_json(self@.0, self@.1, self@.2)),
    {
        let now = now_unix();
        self.cookie_at(secret, now)
    }

    /// The value of the session cookie in a request's `Cookie` headers, looking
    /// through all of them (the token itself; checking it is up to the caller).
    pub fn cookie_from_headers(headers: &http::HeaderMap) -> (r: Option<String>)
        ensures
            match r {
                Some(v) => cookie_in_header_values(values_named(header_values(*headers), "Cookie"@), session_cookie_name()) == Some(v@),
                None => cookie_in_header_values(values_named(header_values(*headers), "Cookie"@), session_cookie_name()) is None,
            },
    {
        proof { reveal_strlit("jwt"); }
        cookie_from_headers(headers, "jwt")
    }
}

/// The name of the cookie that carries a user id between the two requests of
/// a passkey ceremony.
pub open spec fn temp_user_id_name() -> Seq<char> {
    "temp_user_id"@
}

/// The `Set-Cookie` value that carries `user_id` for five minutes, to the
/// authentication API only.
pub open spec fn temp_user_id_cookie_text(user_id: u64) -> Seq<char> {
    set_cookie_text(temp_user_id_name(), decimal(user_id as nat), false, None, Some("/api/v1/auth/"@), None, Some(300), None)
}

/// Creates a cookie that stores the user id for access between webauthn
/// requests, so the server can check that challenges are the same.
pub fn create_temp_user_id_cookie(user_id: u64) -> (r: String)
    ensures
        r@ == temp_user_id_cookie_text(user_id),
{
    let id = u64_to_string(user_id);
    proof { reveal_strlit("temp_user_id"); }
    cookie_with_max_age("temp_user_id", id.as_str(), "/api/v1/auth/", 300)
}

/// The user id that a `Cookie` header value carries: the first well-formed
/// `temp_user_id` cookie, read as a number.
pub open spec fn user_id_from_cookie_text(h: Seq<char>) -> Option<u64> {
    match first_cookie_value(split_cookies(h), temp_user_id_name()) {
        Some(v) => parse_u64_spec(v),
        None => None,
    }
}

/// The user id carried by a `Cookie` header value.
pub fn user_id_from_cookie_header(cookies: &str) -> (r: Option<u64>)
    ensures
        r == user_id_from_cookie_text(cookies@),
{
    proof { reveal_strlit("temp_user_id"); }
    match cookie_value(cookies, "temp_user_id") {
        Some(v) => parse_u64(v.as_str()),
        None => None,
    }
}

/// The user id carried by a request's (first) `Cookie` header.
pub fn get_user_id_from_cookies(headers: &http::HeaderMap) -> (r: Option<u64>)
    ensures
        r == match first_header_text(header_values(*headers), "Cookie"@) {
            Some(h) => user_id_from_cookie_text(h),
            None => None,
        },
{
    match header_str(headers, "Cookie") {
        Some(h) => user_id_from_cookie_header(h.as_str()),
        None => None,
    }
}

/// The `Set-Cookie` value that ends a session at `now`: the session cookie
/// overwritten with `logout`, expiring at once.
pub fn logout_cookie(now: i64) -> (r: Option<String>)
    ensures
        match r {
            Some(c) => MIN_COOKIE_TIME <= now <= MAX_COOKIE_TIME
                && c@ == set_cookie_text(session_cookie_name(), "logout"@, false, None, Some("/"@), None, None, Some(cookie_date(now))),
            None => !(MIN_COOKIE_TIME <= now <= MAX_COOKIE_TIME),
        },
{
    if now < MIN_COOKIE_TIME || now > MAX_COOKIE_TIME {
        return None;
    }
    proof { reveal_strlit("jwt"); }
    Some(cookie_expiring_plain("jwt", "logout", "/", now))
}

/// The `Set-Cookie` value that ends a session now (`logout_cookie` at the
/// time the clock reads, which always lies in the range a cookie can name).
pub fn current_logout_cookie() -> (r: String)
    ensures
        exists|now: i64| MIN_COOKIE_TIME <= now <= MAX_COOKIE_TIME
            && r@ == set_cookie_text(session_cookie_name(), "logout"@, false, None, Some("/"@), None, None, Some(cookie_date(now))),
{
    let now = now_unix();
    match logout_cookie(now) {
        Some(c) => c,
        None => {
            assert(false);
            String::new()
        },
    }
}

/// Law: a browser that got the temp-user-id cookie for `user_id` and sends
/// it back (`temp_user_id=<id>`) is recognised as that user.
pub proof fn lemma_temp_user_id_round_trip(user_id: u64)
    ensures
        user_id_from_cookie_text(temp_user_id_name() + "="@ + decimal(user_id as nat)) == Some(user_id),
{
    reveal_strlit("temp_user_id");
    reveal_strlit("=");
    let name = temp_user_id_name();
    let d = decimal(user_id as nat);
    lemma_decimal(user_id as nat);
    lemma_parse_decimal(user_id);
    assert forall|j: int| 0 <= j < d.len() implies #[trigger] d[j] != ';' && !is_whitespace(d[j]) by {
        assert(is_digit(d[j]));
    }
    assert(plain_cookie_text(name));
    lemma_cookie_round_trip(name, d);
    assert("="@ =~= seq!['=']);
}

/// Law: a browser that got a session cookie and sends it back
/// (`jwt=<token>`) has its token read back, for every token made of the
/// characters a signed token consists of.
pub proof fn lemma_session_cookie_round_trip(token: Seq<char>)
    requires
        plain_cookie_text(token),
    ensures
        first_cookie_value(split_cookies(session_cookie_name() + "="@ + token), session_cookie_name()) == Some(token),
{
    reveal_strlit("jwt");
    reveal_strlit("=");
    assert(plain_cookie_text(session_cookie_name()));
    lemma_cookie_round_trip(session_cookie_name(), token);
    assert("="@ =~= seq!['=']);
}

/// Law: a request whose first `Cookie` header carries, as its first `jwt`
/// cookie (among any others), the session token issued for claims `c` under
/// `secret` is, whenever the token layer finds claims at all (the clock may
/// still refuse them), given exactly the claims that were issued. The premise
/// on the token is what `Claims::to_cookie` and `Claims::cookie_at` state of
/// the token they sign; the last premise is what `JwToken::claims_payload`
/// states of an answer `p`.
pub proof fn lemma_issued_session_reads_back(
    m: Map<Seq<char>, Seq<Seq<u8>>>,
    secret: Seq<u8>,
    c: (u64, u64, Seq<char>),
    p: Seq<char>,
)
    requires
        first_header_session_token(m) == Some(session_token(c, secret)),
        jwt_hs256_claims(session_token(c, secret), secret) == Some(claims_json(c.0, c.1, c.2)),
        match first_header_session_token(m) {
            Some(t) => jwt_hs256_claims(t, secret) == Some(p),
            None => false,
        },
    ensures
        p == claims_json(c.0, c.1, c.2),
{
}

/// Law: the same for a browser that sends back exactly the session cookie
/// it was given (`jwt=<token>` as its `Cookie` header).
pub proof fn lemma_issued_session_cookie_reads_back(
    m: Map<Seq<char>, Seq<Seq<u8>>>,
    secret: Seq<u8>,
    c: (u64, u64, Seq<char>),
    p: Seq<char>,
)
    requires
        first_header_text(m, "Cookie"@) == Some(session_cookie_name() + "="@ + session_token(c, secret)),
        plain_cookie_text(session_token(c, secret)),
        jwt_hs256_claims(session_token(c, secret), secret) == Some(claims_json(c.0, c.1, c.2)),
        match first_header_session_token(m) {
            Some(t) => jwt_hs256_claims(t, secret) == Some(p),
            None => false,
        },
    ensures
        p == claims_json(c.0, c.1, c.2),
{
    lemma_session_cookie_round_trip(session_token(c, secret));
    lemma_issued_session_reads_back(m, secret, c, p);
}

/// Whether `validator` takes a text for an e-mail address (the HTML5 rule:
/// a local part and a domain part around the last `@`).
pub uninterp spec fn email_valid(s: Seq<char>) -> bool;

/// `validator::ValidateEmail::validate_email`. Beside the name, the contract
/// states what `validator` checks first: a valid address holds an `@`.
#[verifier::external_body]
fn validate_email(s: &str) -> (r: bool)
    ensures
        r == email_valid(s@),
        r ==> s@.contains('@'),
{
    validator::ValidateEmail::validate_email(&s)
}

/// A password is long enough when it is more than seven bytes long.
pub open spec fn password_long_enough(p: Seq<char>) -> bool {
    vstd::utf8::encode_utf8(p).len() > 7
}

/// The form of a registration or login request.
#[derive(Debug)]
pub struct UserBody {
    pub password: String,
    pub email: String,
    /// The reCAPTCHA token of the request.
    pub token: String,
}

/// Which fields of a form failed their checks.
#[derive(Debug, PartialEq, Eq)]
pub struct ValidationErrors {
    pub email: bool,
    pub password: bool,
}

impl UserBody {
    /// Checks the form: the e-mail address must be one, and the password must
    /// be more than seven bytes long. The error says which fields failed.
    pub fn validate(&self) -> (r: Result<(), ValidationErrors>)
        ensures
            r is Ok <==> (email_valid(self.email@) && password_long_enough(self.password@)),
            r is Ok ==> self.email@.contains('@'),
            r matches Err(e) ==> e.email == !email_valid(self.email@)
                && e.password == !password_long_enough(self.password@),
    {
        let email_ok = validate_email(self.email.as_str());
        let password_ok = self.password.as_str().as_bytes().len() > 7;
        if email_ok && password_ok {
            Ok(())
        } else {
            Err(ValidationErrors { email: !email_ok, password: !password_ok })
        }
    }
}

/// `jsonwebtoken::decode` with `DecodingKey::from_secret(secret)` and
/// `Validation::new(Algorithm::HS256)` (the signature, and the `exp` claim
/// against the clock), giving back the token's payload as JSON text. Whether
/// it answers at all depends on the clock, so success is not promised; what
/// holds of every answer is that the token checked out under `secret` and
/// the answer is its claims.
#[verifier::external_body]
fn jwt_decode_hs256(token: &str, secret: &[u8]) -> (r: Option<String>)
    ensures
        r matches Some(p) ==> jwt_hs256_claims(token@, secret@) == Some(p@),
{
    jsonwebtoken::decode::<Box<serde_json::value::RawValue>>(
        token,
        &jsonwebtoken::DecodingKey::from_secret(secret),
        &jsonwebtoken::Validation::new(jsonwebtoken::Algorithm::HS256),
    )
    .ok()
    .map(|d| d.claims.get().to_string())
}

/// The session token in the first `Cookie` header of a request, if any.
pub open spec fn first_header_session_token(m: Map<Seq<char>, Seq<Seq<u8>>>) -> Option<Seq<char>> {
    match first_header_text(m, "Cookie"@) {
        Some(h) => first_cookie_value(split_cookies(h), session_cookie_name()),
        None => None,
    }
}

/// Reads the session cookie of a request, as the token layer does: the
/// `jwt` cookie of the first `Cookie` header.
pub struct JwToken<S> {
    inner: S,
}

impl<S> JwToken<S> {
    /// The service the layer wraps.
    pub closed spec fn wrapped(&self) -> S {
        self.inner
    }

    pub fn new(inner: S) -> (r: JwToken<S>)
        ensures
            r.wrapped() == inner,
    {
        JwToken { inner }
    }

    /// The session token a request carries, if any.
    pub fn token_from_headers(headers: &http::HeaderMap) -> (r: Option<String>)
        ensures
            match first_header_text(header_values(*headers), "Cookie"@) {
                Some(h) => match r {
                    Some(t) => first_cookie_value(split_cookies(h), session_cookie_name()) == Some(t@),
                    None => first_cookie_value(split_cookies(h), session_cookie_name()) is None,
                },
                None => r is None,
            },
    {
        proof { reveal_strlit("jwt"); }
        match header_str(headers, "Cookie") {
            Some(h) => cookie_value(h.as_str(), "jwt"),
            None => None,
        }
    }
}

impl<S> JwToken<S> {
    /// The claims (as JSON text) of the valid session token a request
    /// carries in its first `Cookie` header; `None` when it carries none or
    /// the token does not check out under `secret` (signature, or expiry
    /// against the clock). Any answer is the claims of that very token.
    pub fn claims_payload(headers: &http::HeaderMap, secret: &[u8]) -> (r: Option<String>)
        ensures
            r matches Some(p) ==> match first_header_session_token(header_values(*headers)) {
                Some(t) => jwt_hs256_claims(t, secret@) == Some(p@),
                None => false,
            },
    {
        match Self::token_from_headers(headers) {
            Some(t) => jwt_decode_hs256(t.as_str(), secret),
            None => None,
        }
    }
}

/// Builds `JwToken`s.
pub struct JwTokenLayer;

impl JwTokenLayer {
    pub fn layer<S>(&self, inner: S) -> (r: JwToken<S>)
        ensures
            r.wrapped() == inner,
    {
        JwToken::new(inner)
    }
}

/// Lets through only requests that carry session claims.
pub struct AuthGuardService<S> {
    inner: S,
}

impl<S> AuthGuardService<S> {
    /// The service the guard wraps.
    pub closed spec fn wrapped(&self) -> S {
        self.inner
    }

    /// What the guard does with a request: through with claims, 401 without.
    pub fn check(has_claims: bool) -> (r: crate::families::GuardOutcome)
        ensures
            r == if has_claims {
                crate::families::GuardOutcome::Forward
            } else {
                crate::families::GuardOutcome::Respond(Status::Unauthorized)
            },
    {
        if has_claims {
            crate::families::GuardOutcome::Forward
        } else {
            crate::families::GuardOutcome::Respond(Status::Unauthorized)
        }
    }
}

/// Builds `AuthGuardService`s.
pub struct AuthGuardLayer;

impl AuthGuardLayer {
    pub fn layer<S>(&self, inner: S) -> (r: AuthGuardService<S>)
        ensures
            r.wrapped() == inner,
    {
        AuthGuardService { inner }
    }
}

/// Adds the session claims to a request when it carries a session cookie.
pub struct JwTokenReaderService<S> {
    inner: S,
}

impl<S> JwTokenReaderService<S> {
    /// The service the layer wraps.
    pub closed spec fn wrapped(&self) -> S {
        self.inner
    }

    pub fn new(inner: S) -> (r: JwTokenReaderService<S>)
        ensures
            r.wrapped() == inner,
    {
        JwTokenReaderService { inner }
    }
}

impl<S> JwTokenReaderService<S> {
    /// The claims (as JSON text) of the valid session token a request
    /// carries in any of its `Cookie` headers; `None` when it carries none or
    /// the token does not check out under `secret` (signature, or expiry
    /// against the clock). Any answer is the claims of that very token.
    pub fn claims_payload(headers: &http::HeaderMap, secret: &[u8]) -> (r: Option<String>)
        ensures
            r matches Some(p) ==> match cookie_in_header_values(values_named(header_values(*headers), "Cookie"@), session_cookie_name()) {
                Some(t) => jwt_hs256_claims(t, secret@) == Some(p@),
                None => false,
            },
    {
        match Claims::cookie_from_headers(headers) {
            Some(t) => jwt_decode_hs256(t.as_str(), secret),
            None => None,
        }
    }
}

/// Builds `JwTokenReaderService`s.
pub struct JwTokenReaderLayer;

impl JwTokenReaderLayer {
    pub fn layer<S>(&self, inner: S) -> (r: JwTokenReaderService<S>)
        ensures
            r.wrapped() == inner,
    {
        JwTokenReaderService::new(inner)
    }
}

} // verus!
