//! Token claims, the token service's settings, and the checks that are made
//! on decoded tokens.

use vstd::prelude::*;
use vstd::string::StringExecFns;
use jsonwebtoken::{DecodingKey, EncodingKey};
use crate::models::Role;
use vstd::utf8::encode_utf8;

verus! {

#[verifier::external_type_specification]
#[verifier::external_body]
pub struct ExEncodingKey(EncodingKey);

#[verifier::external_type_specification]
#[verifier::external_body]
pub struct ExDecodingKey(DecodingKey);

/// The earliest Unix timestamp that a chrono `DateTime<Utc>` can hold
/// (-262143-01-01T00:00:00Z).
pub const MIN_TIMESTAMP: i64 = -8334601315200i64;

/// The latest whole-second Unix timestamp that a chrono `DateTime<Utc>` can
/// hold (262142-12-31T23:59:59Z).
pub const MAX_TIMESTAMP: i64 = 8210266876799i64;

/// The largest number of whole seconds that a chrono `TimeDelta` can hold
/// (`i64::MAX` milliseconds, rounded down to seconds).
pub const MAX_DELTA_SECS: i64 = 9223372036854775i64;

/// Whether `t` seconds after the Unix epoch is a time that chrono can hold.
pub open spec fn timestamp_in_range(t: int) -> bool {
    MIN_TIMESTAMP <= t <= MAX_TIMESTAMP
}

/// Whether `secs` seconds is a span that chrono's `TimeDelta` can hold.
pub open spec fn delta_in_range(secs: int) -> bool {
    -MAX_DELTA_SECS <= secs <= MAX_DELTA_SECS
}

/// The secret bytes that an HMAC signing key holds.
pub uninterp spec fn encoding_key_secret(k: EncodingKey) -> Seq<u8>;

/// The secret bytes that an HMAC verifying key holds.
pub uninterp spec fn decoding_key_secret(k: DecodingKey) -> Seq<u8>;

/// `jsonwebtoken::EncodingKey::from_secret`: an HMAC key that holds a copy of
/// `secret`.
#[verifier::external_body]
fn encoding_key_from_secret(secret: &[u8]) -> (k: EncodingKey)
    ensures
        encoding_key_secret(k) == secret@,
{
    EncodingKey::from_secret(secret)
}

/// `jsonwebtoken::DecodingKey::from_secret`: an HMAC key that holds a copy of
/// `secret`.
#[verifier::external_body]
fn decoding_key_from_secret(secret: &[u8]) -> (k: DecodingKey)
    ensures
        decoding_key_secret(k) == secret@,
{
    DecodingKey::from_secret(secret)
}

/// `chrono::Utc::now()`, read as its Unix timestamp in whole seconds. What it
/// returns depends on the system clock; chrono only returns times that a
/// `DateTime<Utc>` can hold (it panics on a clock before the epoch or beyond
/// that range, which no argument can rule out).
#[verifier::external_body]
fn utc_now_timestamp() -> (t: i64)
    ensures
        timestamp_in_range(t as int),
{
    chrono::Utc::now().timestamp()
}

/// `uuid::Uuid::new_v4()`, read as its 128-bit value: random, with the
/// version field set to 4 and the variant field set to RFC 4122.
#[verifier::external_body]
fn new_v4_uuid() -> (id: u128)
    ensures
        (id >> 76u128) & 0xfu128 == 4u128,
        (id >> 62u128) & 0x3u128 == 2u128,
{
    uuid::Uuid::new_v4().as_u128()
}

/// The time `expires_in` seconds after `now`, where chrono can hold it.
pub fn expiry_after(now: i64, expires_in: i64) -> (r: Option<i64>)
    ensures
        r matches Some(e) ==> e == now + expires_in,
        r is Some <==> timestamp_in_range(now + expires_in),
{
    match now.checked_add(expires_in) {
        Some(e) => {
            if MIN_TIMESTAMP <= e && e <= MAX_TIMESTAMP {
                Some(e)
            } else {
                None
            }
        },
        None => None,
    }
}

/// The text `"access"`.
pub open spec fn access_typ() -> Seq<char> {
    seq!['a', 'c', 'c', 'e', 's', 's']
}

/// The text `"refresh"`.
pub open spec fn refresh_typ() -> Seq<char> {
    seq!['r', 'e', 'f', 'r', 'e', 's', 'h']
}

/// The claims of an access token.
pub struct Jwt {
    pub user: u128,
    pub exp_time: i64,
    pub start_time: i64,
    pub typ: String,
    pub role: Role,
}

/// The claims of a refresh token; `family` is a fresh random UUID.
pub struct RefreshJwt {
    pub user: u128,
    pub exp_time: i64,
    pub start_time: i64,
    pub typ: String,
    pub family: u128,
}

/// Whether `j` are the access claims for `user` and `role` issued at `now`
/// and valid for `expires_in` seconds.
pub open spec fn access_claims_of(j: Jwt, user: u128, role: Role, expires_in: int, now: int) -> bool {
    &&& j.user == user
    &&& j.role == role
    &&& j.start_time == now
    &&& j.exp_time == now + expires_in
    &&& j.typ@ == access_typ()
}

/// Whether `j` are the refresh claims for `user` of family `family`, issued
/// at `now` and valid for `expires_in` seconds.
pub open spec fn refresh_claims_of(j: RefreshJwt, user: u128, family: u128, expires_in: int, now: int) -> bool {
    &&& j.user == user
    &&& j.family == family
    &&& j.start_time == now
    &&& j.exp_time == now + expires_in
    &&& j.typ@ == refresh_typ()
}

fn access_text() -> (s: String)
    ensures
        s@ == access_typ(),
{
    let s = String::from_str("access");
    proof {
        reveal_strlit("access");
    }
    s
}

fn refresh_text() -> (s: String)
    ensures
        s@ == refresh_typ(),
{
    let s = String::from_str("refresh");
    proof {
        reveal_strlit("refresh");
    }
    s
}

impl Jwt {
    /// The access claims for `user` and `role`, issued at `now` and valid
    /// for `expires_in` seconds.
    pub fn new_at(user: u128, role: Role, expires_in: i64, now: i64) -> (j: Jwt)
        requires
            timestamp_in_range(now as int),
            timestamp_in_range(now + expires_in),
        ensures
            access_claims_of(j, user, role, expires_in as int, now as int),
    {
        Jwt { user, exp_time: now + expires_in, start_time: now, typ: access_text(), role }
    }

    /// The access claims for `user` and `role`, issued now and valid for
    /// `expires_in` seconds. `None` where the expiry would fall outside the
    /// times that chrono can hold (where adding the span to the current time
    /// panics).
    pub fn new(user: u128, role: Role, expires_in: i64) -> (r: Option<Jwt>)
        ensures
            r matches Some(j) ==> access_claims_of(j, user, role, expires_in as int, j.start_time as int)
                && timestamp_in_range(j.start_time as int) && timestamp_in_range(j.exp_time as int),
            r is None ==> expires_in != 0,
    {
        let now = utc_now_timestamp();
        match expiry_after(now, expires_in) {
            Some(_) => Some(Jwt::new_at(user, role, expires_in, now)),
            None => None,
        }
    }

    /// Whether the claims have expired at time `now`.
    pub fn is_expired_at(&self, now: i64) -> (r: bool)
        ensures
            r == (now > self.exp_time),
    {
        now > self.exp_time
    }

    /// Whether the claims have expired at the current time.
    pub fn is_expired(&self) -> (r: bool)
        ensures
            r ==> self.exp_time < MAX_TIMESTAMP,
            !r ==> self.exp_time >= MIN_TIMESTAMP,
    {
        let now = utc_now_timestamp();
        self.is_expired_at(now)
    }
}

impl RefreshJwt {
    /// The refresh claims for `user` of family `family`, issued at `now` and
    /// valid for `expires_in` seconds.
    pub fn new_at(user: u128, expires_in: i64, now: i64, family: u128) -> (j: RefreshJwt)
        requires
            timestamp_in_range(now as int),
            timestamp_in_range(now + expires_in),
        ensures
            refresh_claims_of(j, user, family, expires_in as int, now as int),
    {
        RefreshJwt { user, exp_time: now + expires_in, start_time: now, typ: refresh_text(), family }
    }

    /// The refresh claims for `user`, issued now, valid for `expires_in`
    /// seconds and of a fresh random family. `None` where the expiry would
    /// fall outside the times that chrono can hold.
    pub fn new(user: u128, expires_in: i64) -> (r: Option<RefreshJwt>)
        ensures
            r matches Some(j) ==> refresh_claims_of(j, user, j.family, expires_in as int, j.start_time as int)
                && timestamp_in_range(j.start_time as int) && timestamp_in_range(j.exp_time as int)
                && (j.family >> 76u128) & 0xfu128 == 4u128 && (j.family >> 62u128) & 0x3u128 == 2u128,
            r is None ==> expires_in != 0,
    {
        let now = utc_now_timestamp();
        match expiry_after(now, expires_in) {
            Some(_) => {
                let family = new_v4_uuid();
                Some(RefreshJwt::new_at(user, expires_in, now, family))
            },
            None => None,
        }
    }
}

/// The settings of the token service: the signing secret and how long each
/// kind of token lives.
pub struct AuthConfig {
    pub jwt_secret: String,
    pub access_token_ttl_minutes: i64,
    pub refresh_token_ttl_days: i64,
}

impl AuthConfig {
    /// The settings with the given secret: access tokens live 60 minutes,
    /// refresh tokens 7 days.
    pub fn from_secret(jwt_secret: String) -> (c: AuthConfig)
        ensures
            c.jwt_secret@ == jwt_secret@,
            c.access_token_ttl_minutes == 60,
            c.refresh_token_ttl_days == 7,
    {
        AuthConfig { jwt_secret, access_token_ttl_minutes: 60, refresh_token_ttl_days: 7 }
    }
}

/// An access token, a refresh token, the token type and the access token's
/// lifetime in seconds.
pub struct TokenPair {
    pub access_token: String,
    pub refresh_token: String,
    pub token_typ: String,
    pub expires_in: u64,
}

/// Signs and checks tokens; the lifetimes are in seconds.
pub struct TokenService {
    pub encoding_key: EncodingKey,
    pub decoding_key: DecodingKey,
    pub access_token_ttl: i64,
    pub refresh_token_ttl: i64,
}

/// `m` minutes in seconds, as chrono's `TimeDelta::minutes(m)` holds them.
pub fn minutes_to_secs(m: i64) -> (s: i64)
    requires
        delta_in_range(m * 60),
    ensures
        s == m * 60,
{
    m * 60
}

/// `d` days in seconds, as chrono's `TimeDelta::days(d)` holds them.
pub fn days_to_secs(d: i64) -> (s: i64)
    requires
        delta_in_range(d * 86400),
    ensures
        s == d * 86400,
{
    d * 86400
}

/// A checked token's claims, or the message of its refusal.
pub open spec fn verdict_view<T>(r: Result<T, String>) -> Result<T, Seq<char>> {
    match r {
        Ok(c) => Ok(c),
        Err(e) => Err(e@),
    }
}

/// What the check of a decoded access token gives: a token that did not
/// decode is refused with `Token Validation failed!`, one whose type is not
/// `access` with `Token Type is invalid!`; any other is accepted.
pub open spec fn access_verdict(decoded: Result<Jwt, ()>) -> Result<Jwt, Seq<char>> {
    match decoded {
        Err(_) => Err("Token Validation failed!"@),
        Ok(j) => if j.typ@ == access_typ() {
            Ok(j)
        } else {
            Err("Token Type is invalid!"@)
        },
    }
}

/// What the check of a decoded refresh token gives: a token that did not
/// decode is refused with `Refresh Token Validation failed!`, one whose type
/// is not `refresh` with `Refresh Token Type is invalid!`; any other is
/// accepted.
pub open spec fn refresh_verdict(decoded: Result<RefreshJwt, ()>) -> Result<RefreshJwt, Seq<char>> {
    match decoded {
        Err(_) => Err("Refresh Token Validation failed!"@),
        Ok(j) => if j.typ@ == refresh_typ() {
            Ok(j)
        } else {
            Err("Refresh Token Type is invalid!"@)
        },
    }
}

impl TokenService {
    /// The service for `config`: HMAC keys made of the secret's bytes, and
    /// the lifetimes turned into seconds. chrono panics on lifetimes that a
    /// `TimeDelta` cannot hold, which `requires` leaves out.
    pub fn new(config: &AuthConfig) -> (s: TokenService)
        requires
            delta_in_range(config.access_token_ttl_minutes * 60),
            delta_in_range(config.refresh_token_ttl_days * 86400),
        ensures
            encoding_key_secret(s.encoding_key) == encode_utf8(config.jwt_secret@),
            decoding_key_secret(s.decoding_key) == encode_utf8(config.jwt_secret@),
            s.access_token_ttl == config.access_token_ttl_minutes * 60,
            s.refresh_token_ttl == config.refresh_token_ttl_days * 86400,
    {
        let secret = config.jwt_secret.as_str().as_bytes();
        TokenService {
            encoding_key: encoding_key_from_secret(secret),
            decoding_key: decoding_key_from_secret(secret),
            access_token_ttl: minutes_to_secs(config.access_token_ttl_minutes),
            refresh_token_ttl: days_to_secs(config.refresh_token_ttl_days),
        }
    }

    /// The claims of a new access token for `user` and `role`, issued now
    /// and living the access lifetime. `None` where the expiry would fall
    /// outside the times that chrono can hold.
    pub fn access_claims(&self, user: u128, role: Role) -> (r: Option<Jwt>)
        ensures
            r matches Some(j) ==> access_claims_of(j, user, role, self.access_token_ttl as int, j.start_time as int)
                && timestamp_in_range(j.start_time as int),
            r is None ==> self.access_token_ttl != 0,
    {
        Jwt::new(user, role, self.access_token_ttl)
    }

    /// The claims of a new refresh token for `user`, issued now and living
    /// the refresh lifetime. `None` where the expiry would fall outside the
    /// times that chrono can hold.
    pub fn refresh_claims(&self, user: u128) -> (r: Option<RefreshJwt>)
        ensures
            r matches Some(j) ==> refresh_claims_of(j, user, j.family, self.refresh_token_ttl as int, j.start_time as int)
                && timestamp_in_range(j.start_time as int),
            r is None ==> self.refresh_token_ttl != 0,
    {
        RefreshJwt::new(user, self.refresh_token_ttl)
    }

    /// The outcome of signing access claims: the token, or the message
    /// `Encoding of Token failed!`.
    pub fn access_token_outcome(signed: Result<String, ()>) -> (r: Result<String, String>)
        ensures
            signed matches Ok(t) ==> r == Ok::<String, String>(t),
            signed is Err ==> (r matches Err(e) && e@ == "Encoding of Token failed!"@),
    {
        match signed {
            Ok(t) => Ok(t),
            Err(_) => Err(String::from_str("Encoding of Token failed!")),
        }
    }

    /// The outcome of signing refresh claims: the token, or the message
    /// `Encoding of regresh Token failed!`.
    pub fn refresh_token_outcome(signed: Result<String, ()>) -> (r: Result<String, String>)
        ensures
            signed matches Ok(t) ==> r == Ok::<String, String>(t),
            signed is Err ==> (r matches Err(e) && e@ == "Encoding of regresh Token failed!"@),
    {
        match signed {
            Ok(t) => Ok(t),
            Err(_) => Err(String::from_str("Encoding of regresh Token failed!")),
        }
    }

    /// The pair of signed tokens, of type `Bearer`, with the access lifetime
    /// in seconds (as chrono's `num_seconds() as u64` gives it).
    pub fn token_pair(&self, access_token: String, refresh_token: String) -> (p: TokenPair)
        ensures
            p.access_token == access_token,
            p.refresh_token == refresh_token,
            p.token_typ@ == "Bearer"@,
            p.expires_in == self.access_token_ttl as u64,
    {
        TokenPair {
            access_token,
            refresh_token,
            token_typ: String::from_str("Bearer"),
            expires_in: self.access_token_ttl as u64,
        }
    }

    /// The pair of tokens that `sign_access` and then `sign_refresh` sign:
    /// the access token is signed first, and where that fails its error is
    /// the outcome and no refresh token is signed; where the refresh token
    /// fails, its error is the outcome.
    pub fn generate_token_pair<A: Fn() -> Result<String, String>, R: Fn() -> Result<String, String>>(
        &self,
        sign_access: A,
        sign_refresh: R,
    ) -> (r: Result<TokenPair, String>)
        requires
            sign_access.requires(()),
            sign_refresh.requires(()),
        ensures
            match r {
                Ok(p) => sign_access.ensures((), Ok::<String, String>(p.access_token))
                    && sign_refresh.ensures((), Ok::<String, String>(p.refresh_token))
                    && p.token_typ@ == "Bearer"@ && p.expires_in == self.access_token_ttl as u64,
                Err(e) => sign_access.ensures((), Err::<String, String>(e)) || (exists|a: String|
                    #[trigger] sign_access.ensures((), Ok::<String, String>(a)))
                    && sign_refresh.ensures((), Err::<String, String>(e)),
            },
    {
        let access = match sign_access() {
            Ok(t) => t,
            Err(e) => return Err(e),
        };
        let refresh = match sign_refresh() {
            Ok(t) => t,
            Err(e) => {
                assert(sign_access.ensures((), Ok::<String, String>(access)));
                return Err(e);
            },
        };
        Ok(self.token_pair(access, refresh))
    }

    /// The check made on a decoded access token: a token that did not decode
    /// gives `Token Validation failed!`, one whose type is not `access` gives
    /// `Token Type is invalid!`, any other gives its claims back.
    pub fn validate_access_token(decoded: Result<Jwt, ()>) -> (r: Result<Jwt, String>)
        ensures
            verdict_view(r) == access_verdict(decoded),
    {
        match decoded {
            Err(_) => Err(String::from_str("Token Validation failed!")),
            Ok(j) => {
                if j.typ == access_text() {
                    Ok(j)
                } else {
                    Err(String::from_str("Token Type is invalid!"))
                }
            },
        }
    }

    /// The check made on a decoded refresh token: a token that did not
    /// decode gives `Refresh Token Validation failed!`, one whose type is not
    /// `refresh` gives `Refresh Token Type is invalid!`, any other gives its
    /// claims back.
    pub fn validate_refresh_token(decoded: Result<RefreshJwt, ()>) -> (r: Result<RefreshJwt, String>)
        ensures
            verdict_view(r) == refresh_verdict(decoded),
    {
        match decoded {
            Err(_) => Err(String::from_str("Refresh Token Validation failed!")),
            Ok(j) => {
                if j.typ == refresh_text() {
                    Ok(j)
                } else {
                    Err(String::from_str("Refresh Token Type is invalid!"))
                }
            },
        }
    }
}

/// The claims of a new access token pass the access check unchanged, once
/// they decode to what was signed.
pub proof fn lemma_issued_access_claims_accepted(j: Jwt, user: u128, role: Role, ttl: int, now: int)
    requires
        access_claims_of(j, user, role, ttl, now),
    ensures
        access_verdict(Ok(j)) == Ok::<Jwt, Seq<char>>(j),
{
}

/// The claims of a new refresh token pass the refresh check unchanged, once
/// they decode to what was signed.
pub proof fn lemma_issued_refresh_claims_accepted(j: RefreshJwt, user: u128, family: u128, ttl: int, now: int)
    requires
        refresh_claims_of(j, user, family, ttl, now),
    ensures
        refresh_verdict(Ok(j)) == Ok::<RefreshJwt, Seq<char>>(j),
{
}

/// Claims of type `refresh` are refused where an access token is required,
/// and claims of type `access` where a refresh token is required.
pub proof fn lemma_token_types_not_interchangeable(a: Jwt, r: RefreshJwt)
    requires
        a.typ@ == refresh_typ(),
        r.typ@ == access_typ(),
    ensures
        access_verdict(Ok(a)) == Err::<Jwt, Seq<char>>("Token Type is invalid!"@),
        refresh_verdict(Ok(r)) == Err::<RefreshJwt, Seq<char>>("Refresh Token Type is invalid!"@),
{
    assert(refresh_typ().len() != access_typ().len());
}

/// Access claims issued at `now` for a lifetime of `ttl` seconds are
/// expired at a time `t` exactly when more than `ttl` seconds have passed
/// since `now`: they are live throughout their lifetime and expired from the
/// second after it.
pub proof fn lemma_access_claims_live_their_lifetime(j: Jwt, user: u128, role: Role, ttl: int, now: int, t: int)
    requires
        access_claims_of(j, user, role, ttl, now),
    ensures
        (t > j.exp_time) <==> (t - now > ttl),
        0 <= ttl && now <= t <= now + ttl ==> !(t > j.exp_time),
{
}

} // verus!
