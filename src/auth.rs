use vstd::prelude::*;
use vstd::string::*;
use vstd::utf8::encode_utf8;
use crate::errors::UserError;
use crate::ids::{parse_id, uuid_in, is_hyphenated_uuid};
use crate::json::{JsonValue, JsonView, field, get_field, parse_json, json_of};
use crate::recipe::opt_view;
use crate::store::User;
use crate::text::{chars_of, string_of, starts_with, is_prefix};

verus! {

/// What ring's PBKDF2 with HMAC-SHA256 derives from an iteration count, a
/// salt and a secret, as 32 bytes.
pub uninterp spec fn pbkdf2_sha256(iterations: u32, salt: Seq<u8>, secret: Seq<u8>) -> Seq<u8>;

/// Relies on ring::pbkdf2::derive with PBKDF2_HMAC_SHA256: fills a buffer
/// of the digest's length (32 bytes).
#[verifier::external_body]
fn derive_key(iterations: u32, salt: &[u8], secret: &[u8]) -> (r: Vec<u8>)
    requires
        iterations > 0,
    ensures
        r@ == pbkdf2_sha256(iterations, salt@, secret@),
        r@.len() == 32,
{
    let mut out = [0u8; ring::digest::SHA256_OUTPUT_LEN];
    let rounds = std::num::NonZeroU32::new(iterations).unwrap();
    ring::pbkdf2::derive(ring::pbkdf2::PBKDF2_HMAC_SHA256, rounds, salt, secret, &mut out);
    out.to_vec()
}

/// The iteration count of the password hash.
pub const PASSWORD_ITERATIONS: u32 = 1000;

/// The salt of the password hash, the same for every user.
pub open spec fn password_salt() -> Seq<char> {
    "qi7263tjmxx'["@
}

/// Each byte as the character of that code point.
pub open spec fn bytes_as_text(b: Seq<u8>) -> Seq<char> {
    b.map_values(|x: u8| x as char)
}

/// The stored form of a password: its PBKDF2 digest under the fixed salt,
/// each byte written as one character.
pub open spec fn password_hash_of(password: Seq<char>) -> Seq<char> {
    bytes_as_text(pbkdf2_sha256(PASSWORD_ITERATIONS, encode_utf8(password_salt()), encode_utf8(password)))
}

/// Each byte of a digest as the character of that code point.
pub fn hash_to_string(hash: &Vec<u8>) -> (r: String)
    ensures
        r@ == bytes_as_text(hash@),
{
    let mut chars: Vec<char> = Vec::new();
    let mut i: usize = 0;
    while i < hash.len()
        invariant
            i <= hash@.len(),
            chars@ =~= bytes_as_text(hash@.take(i as int)),
        decreases hash@.len() - i,
    {
        chars.push(hash[i] as char);
        i = i + 1;
    }
    string_of(&chars)
}

/// The stored form of a password (see `password_hash_of`).
pub fn hash_password(password: &str) -> (r: String)
    ensures
        r@ == password_hash_of(password@),
        r@.len() == 32,
{
    let salt = "qi7263tjmxx'[";
    let digest = derive_key(PASSWORD_ITERATIONS, salt.as_bytes(), password.as_bytes());
    hash_to_string(&digest)
}

/// Why a bearer token is refused.
#[derive(Debug, Clone, Copy, PartialEq, Eq, Structural)]
pub enum TokenError {
    InvalidToken,
    TokenExpired,
}

/// The lifetime of a token, thirty days in seconds.
pub const NUMBER_OF_SECOND_IN_A_MONTH: u64 = 60 * 60 * 24 * 30;

/// The token that jsonwebtoken::encode signs for the claims `sub`, `exp` and
/// `iat` under a secret.
pub uninterp spec fn signed_token(sub: Seq<char>, exp: u64, iat: u64, secret: Seq<u8>) -> Seq<char>;

/// Relies on jsonwebtoken::encode with the default header (HS256): signs the
/// claims `sub`, `exp` and `iat` with HMAC-SHA256 under the secret; with an
/// HMAC key from `EncodingKey::from_secret` and claims held in a serde_json map
/// it does not fail.
#[verifier::external_body]
fn sign_claims(sub: &str, exp: u64, iat: u64, secret: &[u8]) -> (r: Option<String>)
    ensures
        r is Some,
        r matches Some(t) ==> t@ == signed_token(sub@, exp, iat, secret@),
{
    let mut claims = serde_json::Map::new();
    claims.insert("sub".to_string(), sub.into());
    claims.insert("exp".to_string(), exp.into());
    claims.insert("iat".to_string(), iat.into());
    let key = jsonwebtoken::EncodingKey::from_secret(secret);
    jsonwebtoken::encode(&jsonwebtoken::Header::default(), &claims, &key).ok()
}

/// The claims, as JSON text, that jsonwebtoken::decode finds in a token whose
/// HS256 signature holds under a secret.
pub uninterp spec fn token_claims(token: Seq<char>, secret: Seq<u8>) -> Option<Seq<char>>;

/// Relies on jsonwebtoken::decode with HS256 and its expiry check switched
/// off (the expiry is checked by `claims_subject`): the claims of a token
/// whose signature holds under the secret, written back as JSON text; nothing
/// for any other token.
#[verifier::external_body]
fn signed_claims(token: &str, secret: &[u8]) -> (r: Option<String>)
    ensures
        opt_view(r) == token_claims(token@, secret@),
{
    let key = jsonwebtoken::DecodingKey::from_secret(secret);
    let validation = jsonwebtoken::Validation { validate_exp: false, ..jsonwebtoken::Validation::default() };
    jsonwebtoken::decode::<serde_json::Value>(token, &key, &validation).ok().map(|d| d.claims.to_string())
}

/// Relies on std::time::SystemTime::now: the seconds since the Unix epoch;
/// fails for a clock set before it.
#[verifier::external_body]
pub fn unix_now() -> (r: Option<u64>) {
    std::time::SystemTime::now().duration_since(std::time::UNIX_EPOCH).ok().map(|d| d.as_secs())
}

/// A token for `user_id` issued at `now`, expiring thirty days later.
pub fn issue_token(user_id: &str, now: u64, secret: &[u8]) -> (r: Result<String, UserError>)
    ensures
        match r {
            Ok(t) => now <= u64::MAX - NUMBER_OF_SECOND_IN_A_MONTH && t@ == signed_token(
                user_id@,
                (now + NUMBER_OF_SECOND_IN_A_MONTH) as u64,
                now,
                secret@,
            ),
            Err(e) => e == UserError::Unknown && now > u64::MAX - NUMBER_OF_SECOND_IN_A_MONTH,
        },
{
    if now > u64::MAX - NUMBER_OF_SECOND_IN_A_MONTH {
        return Err(UserError::Unknown);
    }
    match sign_claims(user_id, now + NUMBER_OF_SECOND_IN_A_MONTH, now, secret) {
        Some(t) => Ok(t),
        None => Err(UserError::Unknown),
    }
}

/// Whether `t` is a token for `user_id` signed with the secret, issued at
/// some time and expiring thirty days later.
pub open spec fn issued_for(t: Seq<char>, user_id: Seq<char>, secret: Seq<u8>) -> bool {
    exists|now: u64|
        now <= u64::MAX - NUMBER_OF_SECOND_IN_A_MONTH && t == #[trigger] signed_token(
            user_id,
            (now + NUMBER_OF_SECOND_IN_A_MONTH) as u64,
            now,
            secret,
        )
}

/// A token for the user, issued now, expiring thirty days later.
pub fn generate_header(user: &User, secret: &[u8]) -> (r: Result<String, UserError>)
    ensures
        match r {
            Ok(t) => issued_for(t@, user.id@, secret@),
            Err(e) => e == UserError::Unknown,
        },
{
    match unix_now() {
        Some(now) => issue_token(user.id.as_str(), now, secret),
        None => Err(UserError::Unknown),
    }
}

/// The user that the claims of a checked token name at time `now`: the UUID
/// in `sub`, where `exp` is an integer later than `now`.
pub open spec fn subject_at(claims: JsonView, now: u64) -> Result<Seq<char>, TokenError> {
    match (field(claims, "sub"@), field(claims, "exp"@)) {
        (Some(JsonView::String(sub)), Some(JsonView::Number(exp))) => match exp.unsigned {
            Some(e) => if now >= e {
                Err(TokenError::TokenExpired)
            } else {
                match uuid_in(sub) {
                    Some(id) => Ok(id),
                    None => Err(TokenError::InvalidToken),
                }
            },
            None => Err(TokenError::InvalidToken),
        },
        _ => Err(TokenError::InvalidToken),
    }
}

/// The user that the claims of a checked token name at time `now` (see `subject_at`).
pub fn claims_subject(claims: &JsonValue, now: u64) -> (r: Result<String, TokenError>)
    ensures
        match r {
            Ok(id) => subject_at(claims@, now) == Ok::<Seq<char>, TokenError>(id@) && is_hyphenated_uuid(id@),
            Err(e) => subject_at(claims@, now) == Err::<Seq<char>, TokenError>(e),
        },
{
    let sub_key = String::from_str("sub");
    let exp_key = String::from_str("exp");
    let sub = get_field(claims, &sub_key);
    let exp = get_field(claims, &exp_key);
    match (sub, exp) {
        (Some(JsonValue::String(s)), Some(JsonValue::Number(n))) => match n.unsigned {
            Some(e) => if now >= e {
                Err(TokenError::TokenExpired)
            } else {
                match parse_id(s.as_str()) {
                    Some(id) => Ok(id),
                    None => Err(TokenError::InvalidToken),
                }
            },
            None => Err(TokenError::InvalidToken),
        },
        _ => Err(TokenError::InvalidToken),
    }
}

/// The user that a token names at time `now`: refused where its signature
/// does not hold under the secret, where its claims are not JSON, or as
/// `subject_at` decides.
pub open spec fn subject_of_token(token: Seq<char>, secret: Seq<u8>, now: u64) -> Result<Seq<char>, TokenError> {
    match token_claims(token, secret) {
        Some(c) => match json_of(c) {
            Some(v) => subject_at(v, now),
            None => Err(TokenError::InvalidToken),
        },
        None => Err(TokenError::InvalidToken),
    }
}

/// The id returned, or the error.
pub open spec fn subject_view(r: Result<String, TokenError>) -> Result<Seq<char>, TokenError> {
    match r {
        Ok(id) => Ok(id@),
        Err(e) => Err(e),
    }
}

/// Whether the token gives `res` at some time (see `subject_of_token`).
pub open spec fn decodes_to(token: Seq<char>, secret: Seq<u8>, res: Result<Seq<char>, TokenError>) -> bool {
    exists|now: u64| #[trigger] subject_of_token(token, secret, now) == res
}

/// The user that a token names at time `now` (see `subject_of_token`).
pub fn token_subject(token: &str, secret: &[u8], now: u64) -> (r: Result<String, TokenError>)
    ensures
        subject_view(r) == subject_of_token(token@, secret@, now),
        r matches Ok(id) ==> is_hyphenated_uuid(id@),
{
    match signed_claims(token, secret) {
        Some(text) => match parse_json(text.as_str()) {
            Some(claims) => claims_subject(&claims, now),
            None => Err(TokenError::InvalidToken),
        },
        None => Err(TokenError::InvalidToken),
    }
}

/// The user that a token names now (see `subject_of_token`); refused as
/// invalid where the clock cannot be read.
pub fn decode_header(token: &str, secret: &[u8]) -> (r: Result<String, TokenError>)
    ensures
        r matches Ok(id) ==> is_hyphenated_uuid(id@),
        decodes_to(token@, secret@, subject_view(r)) || r == Err::<String, TokenError>(TokenError::InvalidToken),
{
    match unix_now() {
        Some(now) => {
            let r = token_subject(token, secret, now);
            assert(decodes_to(token@, secret@, subject_view(r)));
            r
        },
        None => Err(TokenError::InvalidToken),
    }
}

/// The text after the last space.
pub open spec fn after_last_space(s: Seq<char>) -> Seq<char>
    decreases s.len(),
{
    if s.len() == 0 {
        s
    } else if s.last() == ' ' {
        Seq::empty()
    } else {
        after_last_space(s.drop_last()).push(s.last())
    }
}

/// The bearer token of a request: its only `Authorization` header begins
/// with `Bearer `, and the token is what follows the last space.
pub open spec fn bearer_of(headers: Seq<Seq<char>>) -> Option<Seq<char>> {
    if headers.len() == 1 && is_prefix("Bearer "@, headers[0]) {
        Some(after_last_space(headers[0]))
    } else {
        None
    }
}

/// The bearer token of a request, from the values of its `Authorization` headers.
pub fn bearer_token(headers: &Vec<String>) -> (r: Option<String>)
    ensures
        opt_view(r) == bearer_of(headers@.map_values(|h: String| h@)),
{
    if headers.len() != 1 {
        return None;
    }
    let h = chars_of(headers[0].as_str());
    let prefix = chars_of("Bearer ");
    if !starts_with(&h, &prefix) {
        return None;
    }
    let mut start: usize = h.len();
    assert(h@.take(start as int) =~= h@);
    while start > 0 && h[start - 1] != ' '
        invariant
            start <= h@.len(),
            after_last_space(h@) == after_last_space(h@.take(start as int)) + h@.subrange(start as int, h@.len() as int),
        decreases start,
    {
        let ghost t = h@.take(start as int);
        assert(t.drop_last() =~= h@.take(start - 1));
        assert(after_last_space(h@.take(start - 1)).push(h@[start - 1]) + h@.subrange(start as int, h@.len() as int)
            =~= after_last_space(h@.take(start - 1)) + h@.subrange(start - 1, h@.len() as int));
        start = start - 1;
    }
    let mut token: Vec<char> = Vec::new();
    let mut i: usize = start;
    while i < h.len()
        invariant
            start <= i <= h@.len(),
            token@ =~= h@.subrange(start as int, i as int),
        decreases h@.len() - i,
    {
        token.push(h[i]);
        i = i + 1;
    }
    Some(string_of(&token))
}

/// Whether the request has a bearer token that names the user `id` at some time.
pub open spec fn bearer_names(headers: Seq<Seq<char>>, secret: Seq<u8>, id: Seq<char>) -> bool {
    match bearer_of(headers) {
        Some(token) => decodes_to(token, secret, Ok(id)),
        None => false,
    }
}

/// The principal of a request: the id of the user that its bearer token
/// names, or nothing for an anonymous request.
#[derive(Debug)]
pub struct LoggedUser(pub Option<String>);

impl LoggedUser {
    /// The principal of a request with these `Authorization` header values:
    /// anonymous where there is no single bearer token or it is refused.
    pub fn from_headers(headers: &Vec<String>, secret: &[u8]) -> (r: LoggedUser)
        ensures
            bearer_of(headers@.map_values(|h: String| h@)) is None ==> r.0 is None,
            r.0 matches Some(id) ==> is_hyphenated_uuid(id@) && bearer_names(
                headers@.map_values(|h: String| h@),
                secret@,
                id@,
            ),
    {
        match bearer_token(headers) {
            Some(token) => match decode_header(token.as_str(), secret) {
                Ok(id) => LoggedUser(Some(id)),
                Err(_) => LoggedUser(None),
            },
            None => LoggedUser(None),
        }
    }
}

} // verus!
