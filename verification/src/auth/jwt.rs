//! Session tokens: signed, time-bounded statements of who a user is.
//!
//! Tokens have the compact signed layout of `jsonwebtoken`, signed with
//! HMAC-SHA256 under the host's secret. Signing and checking the signature
//! are `jsonwebtoken`'s; which claims go in, and when a token has expired, is
//! decided here.

use vstd::prelude::*;
use vstd::string::*;
use crate::clock::{since_epoch, unix_millis};
use crate::json::{
    from_number, from_text, get_number, get_text, json_member, json_number, json_text, number_at,
    object, set_member, text_at,
};
use crate::text::{starts_with, with_detail};

verus! {

#[verifier::external_type_specification]
#[verifier::external_body]
pub struct ExJwtError(jsonwebtoken::errors::Error);

/// The seconds that a token lasts unless configured otherwise: 24 hours.
pub const DEFAULT_EXPIRY_SECS: u64 = 86400;

/// What a token states.
#[derive(Debug)]
pub struct Claims {
    /// The id of the user.
    pub sub: String,
    /// The name of the user.
    pub username: String,
    /// The role of the user.
    pub role: String,
    /// When the token was issued, in seconds since the epoch.
    pub iat: u64,
    /// When the token expires, in seconds since the epoch.
    pub exp: u64,
}

/// The model of [`Claims`].
pub ghost struct ClaimsView {
    pub sub: Seq<char>,
    pub username: Seq<char>,
    pub role: Seq<char>,
    pub iat: u64,
    pub exp: u64,
}

impl View for Claims {
    type V = ClaimsView;

    open spec fn view(&self) -> ClaimsView {
        ClaimsView {
            sub: self.sub@,
            username: self.username@,
            role: self.role@,
            iat: self.iat,
            exp: self.exp,
        }
    }
}

/// How tokens are signed and how long they last.
pub struct TokenConfig {
    /// The secret that signs the tokens.
    pub secret: String,
    /// The seconds that a token lasts.
    pub expiry_secs: u64,
}

impl Clone for TokenConfig {
    fn clone(&self) -> (r: Self)
        ensures
            r == *self,
    {
        TokenConfig { secret: self.secret.clone(), expiry_secs: self.expiry_secs }
    }
}

impl Default for TokenConfig {
    fn default() -> (r: Self)
        ensures
            r.secret@ == "diagrammer-jwt-secret-change-in-production"@,
            r.expiry_secs == DEFAULT_EXPIRY_SECS,
    {
        TokenConfig {
            secret: "diagrammer-jwt-secret-change-in-production".to_owned(),
            expiry_secs: DEFAULT_EXPIRY_SECS,
        }
    }
}

/// The payload of a token that is well formed and whose signature is good
/// under a secret.
pub uninterp spec fn jwt_payload(token: Seq<char>, secret: Seq<char>) -> Option<
    serde_json::Value,
>;

/// A payload whose members are all strings or unsigned integers, an `exp`
/// among the integers, and which names no audience.
pub open spec fn plain_payload(payload: serde_json::Value) -> bool {
    &&& number_at(payload, "exp"@) is Some
    &&& json_member(payload, "aud"@) is None
    &&& forall|k: Seq<char>| #[trigger]
        json_member(payload, k) is Some ==> json_text(json_member(payload, k)->0) is Some
            || json_number(json_member(payload, k)->0) is Some
}

/// Trusted: `jsonwebtoken::encode` with the default header signs the payload
/// with HMAC-SHA256 under the secret. Signing with a secret does not fail,
/// and a payload of strings and unsigned integers can always be written, so
/// a token is returned; it is made of three parts joined by dots, so it is
/// not empty; decoding it under the same secret gives the payload back. The
/// payloads admitted are those that the decoder accepts and that JSON
/// carries without loss.
#[verifier::external_body]
fn jwt_encode(payload: &serde_json::Value, secret: &str) -> (r: Result<
    String,
    jsonwebtoken::errors::Error,
>)
    requires
        plain_payload(*payload),
    ensures
        r is Ok,
        r matches Ok(t) ==> t@.len() > 0,
        r matches Ok(t) ==> jwt_payload(t@, secret@) == Some(*payload),
{
    let key = jsonwebtoken::EncodingKey::from_secret(secret.as_bytes());
    jsonwebtoken::encode(&jsonwebtoken::Header::default(), payload, &key)
}

/// Trusted: `jsonwebtoken::decode`, told to leave the expiry alone, depends
/// on token and secret alone: it gives the payload of a token that is well
/// formed, signed with HMAC-SHA256 under the secret and carries an `exp`, and
/// an error for any other.
#[verifier::external_body]
fn jwt_decode(token: &str, secret: &str) -> (r: Result<
    serde_json::Value,
    jsonwebtoken::errors::Error,
>)
    ensures
        match r {
            Ok(p) => jwt_payload(token@, secret@) == Some(p),
            Err(_) => jwt_payload(token@, secret@) is None,
        },
{
    let key = jsonwebtoken::DecodingKey::from_secret(secret.as_bytes());
    let mut validation = jsonwebtoken::Validation::default();
    validation.validate_exp = false;
    jsonwebtoken::decode::<serde_json::Value>(token, &key, &validation).map(|data| data.claims)
}

/// The message of a `jsonwebtoken` error, as its `Display` writes it.
#[verifier::external_body]
fn jwt_error_text(e: &jsonwebtoken::errors::Error) -> (r: String) {
    e.to_string()
}

/// The claims that a payload states, where it states all five.
pub open spec fn claims_of_json(payload: serde_json::Value) -> Option<ClaimsView> {
    if text_at(payload, "sub"@) is Some && text_at(payload, "username"@) is Some && text_at(
        payload,
        "role"@,
    ) is Some && number_at(payload, "iat"@) is Some && number_at(payload, "exp"@) is Some {
        Some(
            ClaimsView {
                sub: text_at(payload, "sub"@)->0,
                username: text_at(payload, "username"@)->0,
                role: text_at(payload, "role"@)->0,
                iat: number_at(payload, "iat"@)->0,
                exp: number_at(payload, "exp"@)->0,
            },
        )
    } else {
        None
    }
}

/// The claims of a token that is good under a secret.
pub open spec fn token_claims(token: Seq<char>, secret: Seq<char>) -> Option<ClaimsView> {
    match jwt_payload(token, secret) {
        Some(p) => claims_of_json(p),
        None => None,
    }
}

/// Why a token is turned down.
pub enum TokenError {
    /// The token is malformed, its signature is wrong, or a claim is missing.
    Invalid,
    /// The token was good once and has expired.
    Expired,
}

/// What validating a token at the time `now`, in seconds, comes to.
pub open spec fn validation_outcome(token: Seq<char>, secret: Seq<char>, now: u64) -> Result<
    ClaimsView,
    TokenError,
> {
    match token_claims(token, secret) {
        None => Err(TokenError::Invalid),
        Some(c) => if now > c.exp {
            Err(TokenError::Expired)
        } else {
            Ok(c)
        },
    }
}

/// The claims of a token issued at `now` to last `expiry_secs`.
pub open spec fn issued_claims(
    user_id: Seq<char>,
    username: Seq<char>,
    role: Seq<char>,
    expiry_secs: u64,
    now: u64,
) -> ClaimsView {
    ClaimsView { sub: user_id, username, role, iat: now, exp: (now + expiry_secs) as u64 }
}

proof fn reveal_claim_names()
    ensures
        "sub"@.len() == 3 && "sub"@[0] == 's',
        "username"@.len() == 8,
        "role"@.len() == 4,
        "iat"@.len() == 3 && "iat"@[0] == 'i',
        "exp"@.len() == 3 && "exp"@[0] == 'e',
        "aud"@.len() == 3 && "aud"@[0] == 'a',
{
    reveal_strlit("sub");
    reveal_strlit("username");
    reveal_strlit("role");
    reveal_strlit("iat");
    reveal_strlit("exp");
    reveal_strlit("aud");
}

/// Writes claims as the payload of a token.
pub fn claims_to_json(claims: &Claims) -> (r: serde_json::Value)
    ensures
        claims_of_json(r) == Some(claims@),
        plain_payload(r),
{
    proof {
        reveal_claim_names();
    }
    let mut r = object();
    set_member(&mut r, "sub", from_text(claims.sub.as_str()));
    set_member(&mut r, "username", from_text(claims.username.as_str()));
    set_member(&mut r, "role", from_text(claims.role.as_str()));
    set_member(&mut r, "iat", from_number(claims.iat));
    set_member(&mut r, "exp", from_number(claims.exp));
    r
}

/// Reads claims out of the payload of a token.
pub fn claims_from_json(payload: &serde_json::Value) -> (r: Option<Claims>)
    ensures
        match r {
            Some(c) => claims_of_json(*payload) == Some(c@),
            None => claims_of_json(*payload) is None,
        },
{
    let sub = get_text(payload, "sub");
    let username = get_text(payload, "username");
    let role = get_text(payload, "role");
    let iat = get_number(payload, "iat");
    let exp = get_number(payload, "exp");
    match (sub, username, role, iat, exp) {
        (Some(sub), Some(username), Some(role), Some(iat), Some(exp)) => Some(
            Claims { sub, username, role, iat, exp },
        ),
        _ => None,
    }
}

/// What issuing a token at the time `now` comes to: a token that validates
/// to the claims issued, with its expiry in milliseconds.
pub open spec fn issued(
    user_id: Seq<char>,
    username: Seq<char>,
    role: Seq<char>,
    secret: Seq<char>,
    expiry_secs: u64,
    now: u64,
    r: Result<(String, u64), String>,
) -> bool {
    &&& r matches Ok((token, expires_at_ms))
    &&& token@.len() > 0
    &&& token_claims(token@, secret) == Some(
        issued_claims(user_id, username, role, expiry_secs, now),
    )
    &&& expires_at_ms == (now + expiry_secs) * 1000
}

/// Whether the expiry of a token issued at `now`, in seconds, can be told in
/// 64 bits of milliseconds.
pub open spec fn expiry_in_range(expiry_secs: u64, now: u64) -> bool {
    (now + expiry_secs) * 1000 <= u64::MAX
}

/// What asking for a token at the time `now` comes to: a token is issued if
/// and only if its expiry can be told in 64 bits of milliseconds; else the
/// answer is a time error.
pub open spec fn token_created(
    user_id: Seq<char>,
    username: Seq<char>,
    role: Seq<char>,
    secret: Seq<char>,
    expiry_secs: u64,
    now: u64,
    r: Result<(String, u64), String>,
) -> bool {
    if expiry_in_range(expiry_secs, now) {
        issued(user_id, username, role, secret, expiry_secs, now, r)
    } else {
        r matches Err(e) && e@ == "Time error: expiry out of range"@
    }
}

/// What validating a token at the time `now` comes to: its claims, or the
/// reason why it is turned down.
pub open spec fn validated(
    token: Seq<char>,
    secret: Seq<char>,
    now: u64,
    r: Result<Claims, String>,
) -> bool {
    match validation_outcome(token, secret, now) {
        Ok(c) => r matches Ok(claims) && claims@ == c,
        Err(TokenError::Invalid) => r matches Err(e)
            && starts_with(e@, "Token validation error: "@),
        Err(TokenError::Expired) => r matches Err(e) && e@ == "Token expired"@,
    }
}

/// Issues a token at the time `now`, in seconds: it states who the user is,
/// that it was issued at `now`, and that it expires `config.expiry_secs`
/// later. Returns the token and its expiry in milliseconds. A token is
/// always returned, and it is one that validates to the claims issued for as
/// long as it has not expired.
pub fn create_token_at(
    user_id: &str,
    username: &str,
    role: &str,
    config: &TokenConfig,
    now: u64,
) -> (r: Result<(String, u64), String>)
    requires
        expiry_in_range(config.expiry_secs, now),
    ensures
        issued(user_id@, username@, role@, config.secret@, config.expiry_secs, now, r),
{
    let exp: u64 = now + config.expiry_secs;
    let claims = Claims {
        sub: user_id.to_owned(),
        username: username.to_owned(),
        role: role.to_owned(),
        iat: now,
        exp,
    };
    let payload = claims_to_json(&claims);
    match jwt_encode(&payload, config.secret.as_str()) {
        Ok(token) => Ok((token, exp * 1000)),
        Err(e) => Err(with_detail("Token encoding error: ", jwt_error_text(&e).as_str())),
    }
}

/// Issues a token at the time `now`, in seconds, if its expiry can be told
/// in 64 bits of milliseconds; else no token is issued and the answer is a
/// time error.
pub fn issue_token(
    user_id: &str,
    username: &str,
    role: &str,
    config: &TokenConfig,
    now: u64,
) -> (r: Result<(String, u64), String>)
    ensures
        token_created(user_id@, username@, role@, config.secret@, config.expiry_secs, now, r),
{
    let in_range = match now.checked_add(config.expiry_secs) {
        Some(exp) => exp.checked_mul(1000).is_some(),
        None => false,
    };
    if !in_range {
        return Err("Time error: expiry out of range".to_owned());
    }
    create_token_at(user_id, username, role, config, now)
}

/// What asking for a token at a reading of the clock comes to. `reading`
/// holds the milliseconds since the epoch, or nothing where the clock stands
/// before the epoch: then no token is issued and the answer is a time error.
/// Else the token is asked for at the second of the reading.
pub open spec fn token_created_at_reading(
    user_id: Seq<char>,
    username: Seq<char>,
    role: Seq<char>,
    secret: Seq<char>,
    expiry_secs: u64,
    reading: Option<u64>,
    r: Result<(String, u64), String>,
) -> bool {
    match reading {
        Some(ms) => token_created(user_id, username, role, secret, expiry_secs, ms / 1000, r),
        None => r matches Err(e) && e@ == "Time error: second time provided was later than self"@,
    }
}

/// Issues a token at a reading of the clock: see
/// [`token_created_at_reading`].
pub fn issue_token_at_reading(
    user_id: &str,
    username: &str,
    role: &str,
    config: &TokenConfig,
    reading: Option<u64>,
) -> (r: Result<(String, u64), String>)
    ensures
        token_created_at_reading(
            user_id@,
            username@,
            role@,
            config.secret@,
            config.expiry_secs,
            reading,
            r,
        ),
{
    match reading {
        Some(ms) => issue_token(user_id, username, role, config, ms / 1000),
        None => Err("Time error: second time provided was later than self".to_owned()),
    }
}

/// Issues a token now: reads the clock and issues the token at that
/// reading.
pub fn create_token(user_id: &str, username: &str, role: &str, config: &TokenConfig) -> (r: Result<
    (String, u64),
    String,
>)
    ensures
        exists|reading: Option<u64>| #[trigger]
            token_created_at_reading(
                user_id@,
                username@,
                role@,
                config.secret@,
                config.expiry_secs,
                reading,
                r,
            ),
{
    issue_token_at_reading(user_id, username, role, config, since_epoch())
}

/// Validates a token at the time `now`, in seconds: the token must be well
/// formed, signed under `secret`, state all five claims, and not have
/// expired.
pub fn validate_token_at(token: &str, secret: &str, now: u64) -> (r: Result<Claims, String>)
    ensures
        validated(token@, secret@, now, r),
{
    let payload = match jwt_decode(token, secret) {
        Ok(p) => p,
        Err(e) => {
            return Err(with_detail("Token validation error: ", jwt_error_text(&e).as_str()));
        },
    };
    let claims = match claims_from_json(&payload) {
        Some(c) => c,
        None => {
            return Err(with_detail("Token validation error: ", "missing claim"));
        },
    };
    if now > claims.exp {
        return Err("Token expired".to_owned());
    }
    Ok(claims)
}

/// Validates a token now.
pub fn validate_token(token: &str, config: &TokenConfig) -> (r: Result<Claims, String>)
    ensures
        exists|now: u64| #[trigger] validated(token@, config.secret@, now, r),
{
    let now = unix_millis() / 1000;
    validate_token_at(token, config.secret.as_str(), now)
}

/// A token validates to the claims it was issued with for as long as it has
/// not expired, and where tokens last at all it expires after it was issued.
pub proof fn law_token_round_trip(
    token: Seq<char>,
    secret: Seq<char>,
    user_id: Seq<char>,
    username: Seq<char>,
    role: Seq<char>,
    expiry_secs: u64,
    issued_at: u64,
    now: u64,
)
    requires
        token_claims(token, secret) == Some(
            issued_claims(user_id, username, role, expiry_secs, issued_at),
        ),
        expiry_secs > 0,
        issued_at + expiry_secs <= u64::MAX,
        now <= issued_at + expiry_secs,
    ensures
        validation_outcome(token, secret, now) is Ok,
        validation_outcome(token, secret, now)->Ok_0.sub == user_id,
        validation_outcome(token, secret, now)->Ok_0.username == username,
        validation_outcome(token, secret, now)->Ok_0.role == role,
        validation_outcome(token, secret, now)->Ok_0.exp > validation_outcome(
            token,
            secret,
            now,
        )->Ok_0.iat,
{
}

} // verus!
