//! Credentials: signed, expiring assertions of a subject's identity, in two
//! classes that are signed with separate secrets.

use vstd::prelude::*;
use chrono::Utc;
use jsonwebtoken::{decode, encode, Algorithm, DecodingKey, EncodingKey, Header, Validation};
use serde_json::Value;
use uuid::Uuid;
use crate::dto::{Claims, ClaimsView, LoginUserRequest, UpdateUserDto, UpdateUserView};
use crate::errors::MyError;
use crate::models::{User, UserView};
use crate::service::crypto::{get_sha3_256_hash, sha3_256_hex};
use crate::{ACCESS_TOKEN_EXP, REFRESH_TOKEN_EXP};

verus! {

/// The class of a credential.
#[derive(Debug, Clone, Copy, PartialEq, Eq, Structural)]
pub enum TokenType {
    /// Long-lived: authenticates the subject and lets an access credential be
    /// renewed.
    Refresh,
    /// Short-lived: admits a request.
    Access,
}

/// The signing secret of each class, where one is available, and the time in
/// microseconds for which a fresh credential of each class is live.
#[derive(Clone)]
pub struct AuthConfig {
    pub access_secret: Option<String>,
    pub refresh_secret: Option<String>,
    pub access_ttl: u64,
    pub refresh_ttl: u64,
}

/// The mathematical value of [`AuthConfig`].
pub struct AuthConfigView {
    pub access_secret: Option<Seq<char>>,
    pub refresh_secret: Option<Seq<char>>,
    pub access_ttl: u64,
    pub refresh_ttl: u64,
}

impl View for AuthConfig {
    type V = AuthConfigView;

    open spec fn view(&self) -> AuthConfigView {
        AuthConfigView {
            access_secret: self.access_secret.deep_view(),
            refresh_secret: self.refresh_secret.deep_view(),
            access_ttl: self.access_ttl,
            refresh_ttl: self.refresh_ttl,
        }
    }
}

impl AuthConfigView {
    /// The signing secret of a class.
    pub open spec fn secret(self, class: TokenType) -> Option<Seq<char>> {
        match class {
            TokenType::Refresh => self.refresh_secret,
            TokenType::Access => self.access_secret,
        }
    }
}

impl AuthConfig {
    /// The configuration with the given secrets, in which an access
    /// credential is live for an hour and a refresh credential for five days.
    pub fn new(access_secret: Option<String>, refresh_secret: Option<String>) -> (config: Self)
        ensures
            config@ == (AuthConfigView {
                access_secret: access_secret.deep_view(),
                refresh_secret: refresh_secret.deep_view(),
                access_ttl: ACCESS_TOKEN_EXP,
                refresh_ttl: REFRESH_TOKEN_EXP,
            }),
    {
        AuthConfig {
            access_secret,
            refresh_secret,
            access_ttl: ACCESS_TOKEN_EXP,
            refresh_ttl: REFRESH_TOKEN_EXP,
        }
    }
}

/// Decoding and encoding under a class consult the secret of that class
/// alone: two configurations that agree on it agree on every credential of
/// the class, whatever the other class is signed with.
pub proof fn lemma_class_uses_its_own_secret(
    a: AuthConfigView,
    b: AuthConfigView,
    class: TokenType,
    token: Seq<char>,
    claims: ClaimsView,
)
    requires
        a.secret(class) == b.secret(class),
    ensures
        decoded(a, class, token) == decoded(b, class, token),
        encoded(a, class, claims) == encoded(b, class, claims),
{
}

/// The claims found in a token's payload, each as far as it is there and has
/// the type of its field in [`Claims`].
#[derive(Debug)]
pub struct TokenPayload {
    pub user_id: Option<u128>,
    pub username: Option<String>,
    pub exp: Option<u64>,
}

/// The mathematical value of [`TokenPayload`].
pub struct TokenPayloadView {
    pub user_id: Option<u128>,
    pub username: Option<Seq<char>>,
    pub exp: Option<u64>,
}

impl View for TokenPayload {
    type V = TokenPayloadView;

    open spec fn view(&self) -> TokenPayloadView {
        TokenPayloadView {
            user_id: self.user_id,
            username: self.username.deep_view(),
            exp: self.exp,
        }
    }
}

/// The error of `jsonwebtoken`. It is handed on as it comes and never looked
/// into: every failure to sign is a `SigningError`, every failure to decode a
/// `DecodeError`.
#[verifier::external_type_specification]
#[verifier::external_body]
pub struct ExTokenError(jsonwebtoken::errors::Error);

/// The token that `jsonwebtoken::encode` makes of the three claims with an
/// HS256 header and `secret` as the key.
pub uninterp spec fn signed_token(secret: Seq<char>, user_id: u128, username: Seq<char>, exp: u64) -> Seq<
    char,
>;

/// The claims that `jsonwebtoken::decode` reads from `token` when it checks
/// the signature against `secret` with HS256 and leaves the expiry unchecked,
/// or `None` where it reports an error.
pub uninterp spec fn token_payload(secret: Seq<char>, token: Seq<char>) -> Option<TokenPayloadView>;

/// `jsonwebtoken::encode` with an HS256 header, the HMAC key `secret`, and a
/// payload of three claims: `user_id` as the hyphenated text of the UUID,
/// `username`, and `exp`. The result depends on the arguments alone. Not
/// proved: that it succeeds, as it does for every HMAC key with HS256 and a
/// payload of text and integers, and that `jsonwebtoken::decode` with the
/// same secret accepts the token and reads the same three claims from it.
/// The HMAC beneath it panics on a key or a message of more than 2^61 bytes.
#[verifier::external_body]
fn sign_claims(secret: &str, user_id: u128, username: &str, exp: u64) -> (r: Result<
    String,
    jsonwebtoken::errors::Error,
>)
    ensures
        r is Ok,
        r matches Ok(token) ==> token@ == signed_token(secret@, user_id, username@, exp),
        r matches Ok(token) ==> token_payload(secret@, token@) == Some(
            (TokenPayloadView { user_id: Some(user_id), username: Some(username@), exp: Some(exp) }),
        ),
{
    let mut claims = serde_json::Map::new();
    claims.insert("user_id".to_string(), Value::from(Uuid::from_u128(user_id).to_string()));
    claims.insert("username".to_string(), Value::from(username));
    claims.insert("exp".to_string(), Value::from(exp));
    encode(&Header::new(Algorithm::HS256), &claims, &EncodingKey::from_secret(secret.as_bytes()))
}

/// `jsonwebtoken::decode` with the HMAC key `secret`, HS256 as the only
/// algorithm and no check of the expiry, so that the result depends on the
/// arguments alone. Of the payload it hands out `user_id` where that is the
/// text of a UUID, `username` where that is text, and `exp` where that is an
/// unsigned integer.
#[verifier::external_body]
fn read_token(secret: &str, token: &str) -> (r: Result<TokenPayload, jsonwebtoken::errors::Error>)
    ensures
        r matches Ok(payload) ==> token_payload(secret@, token@) == Some(payload@),
        r is Err ==> token_payload(secret@, token@) is None,
{
    let mut validation = Validation::new(Algorithm::HS256);
    validation.validate_exp = false;
    let key = DecodingKey::from_secret(secret.as_bytes());
    let claims = decode::<Value>(token, &key, &validation)?.claims;
    let user_id = claims.get("user_id").and_then(Value::as_str).and_then(|s| Uuid::parse_str(s).ok());
    Ok(TokenPayload {
        user_id: user_id.map(|id| id.as_u128()),
        username: claims.get("username").and_then(Value::as_str).map(String::from),
        exp: claims.get("exp").and_then(Value::as_u64),
    })
}

/// chrono's `Utc::now` and `timestamp_micros`: the time in microseconds since
/// the Unix epoch. It differs from call to call, so nothing is stated of it.
/// chrono panics where the system clock stands before the epoch.
#[verifier::external_body]
fn now_micros() -> i64 {
    Utc::now().timestamp_micros()
}

/// The view of an outcome that holds text.
pub open spec fn text_outcome(r: Result<String, MyError>) -> Result<Seq<char>, MyError> {
    match r {
        Ok(text) => Ok(text@),
        Err(e) => Err(e),
    }
}

/// The view of an outcome that holds claims.
pub open spec fn claims_outcome(r: Result<Claims, MyError>) -> Result<ClaimsView, MyError> {
    match r {
        Ok(claims) => Ok(claims@),
        Err(e) => Err(e),
    }
}

/// The secret that signs the credentials of a class.
pub fn get_secret(config: &AuthConfig, token_type: &TokenType) -> (r: Result<String, MyError>)
    ensures
        text_outcome(r) == match config@.secret(*token_type) {
            Some(secret) => Ok::<Seq<char>, MyError>(secret),
            None => Err(MyError::SigningError),
        },
{
    let secret = match token_type {
        TokenType::Refresh => &config.refresh_secret,
        TokenType::Access => &config.access_secret,
    };
    match secret {
        Some(s) => Ok(s.clone()),
        None => Err(MyError::SigningError),
    }
}

/// The time in microseconds since the Unix epoch; a clock that stands before
/// the epoch counts as the epoch.
pub fn timestamp() -> (now: u64)
    ensures
        exists|reading: i64| now == #[trigger] since_epoch(reading),
        now <= i64::MAX,
{
    let reading = now_micros();
    let now = micros_since_epoch(reading);
    assert(now == since_epoch(reading));
    now
}

/// The time that a reading of the clock stands for: the reading itself, and
/// the epoch for a reading before the epoch.
pub open spec fn since_epoch(reading: i64) -> u64 {
    if reading < 0 {
        0
    } else {
        reading as u64
    }
}

/// The time that a reading of the clock stands for: the reading itself, and
/// the epoch for a reading before the epoch.
pub fn micros_since_epoch(reading: i64) -> (now: u64)
    ensures
        now == since_epoch(reading),
{
    if reading < 0 {
        0
    } else {
        reading as u64
    }
}

/// The claims of a payload in which all three are there.
pub open spec fn payload_claims(payload: TokenPayloadView) -> Option<ClaimsView> {
    match (payload.user_id, payload.username, payload.exp) {
        (Some(user_id), Some(username), Some(exp)) => Some(ClaimsView { user_id, username, exp }),
        _ => None,
    }
}

/// What decoding a credential under a class gives: the claims, where the
/// class has a secret, the token is well-formed and signed with that secret,
/// and its payload holds all three claims. The expiry plays no part.
pub open spec fn decoded(config: AuthConfigView, class: TokenType, token: Seq<char>) -> Result<
    ClaimsView,
    MyError,
> {
    match config.secret(class) {
        Some(secret) => match token_payload(secret, token) {
            Some(payload) => match payload_claims(payload) {
                Some(claims) => Ok(claims),
                None => Err(MyError::DecodeError),
            },
            None => Err(MyError::DecodeError),
        },
        None => Err(MyError::DecodeError),
    }
}

/// What encoding claims under a class gives: the token signed with the
/// secret of the class, or `SigningError` where the class has no secret.
pub open spec fn encoded(config: AuthConfigView, class: TokenType, claims: ClaimsView) -> Result<
    Seq<char>,
    MyError,
> {
    match config.secret(class) {
        Some(secret) => Ok(signed_token(secret, claims.user_id, claims.username, claims.exp)),
        None => Err(MyError::SigningError),
    }
}

/// The class that a class is not.
pub open spec fn other_class(class: TokenType) -> TokenType {
    match class {
        TokenType::Refresh => TokenType::Access,
        TokenType::Access => TokenType::Refresh,
    }
}

/// Two secrets are separate keys: no token is accepted under both.
pub open spec fn separate_keys(a: Seq<char>, b: Seq<char>) -> bool {
    forall|token: Seq<char>|
        #![trigger token_payload(a, token)]
        #![trigger token_payload(b, token)]
        !(token_payload(a, token) is Some && token_payload(b, token) is Some)
}

/// The two classes are signed with independent material: where both have a
/// secret, the two are separate keys.
pub open spec fn independent(config: AuthConfigView) -> bool {
    match (config.access_secret, config.refresh_secret) {
        (Some(access), Some(refresh)) => separate_keys(access, refresh),
        _ => true,
    }
}

/// Under independent signing material no token is a credential of both
/// classes: what decodes under one class fails to decode under the other.
pub proof fn lemma_independent_classes_never_cross(config: AuthConfigView, token: Seq<char>)
    requires
        independent(config),
    ensures
        !(decoded(config, TokenType::Access, token) is Ok && decoded(
            config,
            TokenType::Refresh,
            token,
        ) is Ok),
{
}

/// A credential of a class fails to decode under the other class, as long as
/// the two classes are signed with independent material.
pub open spec fn fails_under_other_class(
    config: AuthConfigView,
    class: TokenType,
    r: Result<Seq<char>, MyError>,
) -> bool {
    r matches Ok(token) ==> independent(config) ==> decoded(config, other_class(class), token)
        == Err::<ClaimsView, MyError>(MyError::DecodeError)
}

/// What issuing a credential at time `now` gives: the encoding of claims
/// that expire `ttl` after `now`, or `SigningError` where that time does not
/// fit.
pub open spec fn issued(
    config: AuthConfigView,
    class: TokenType,
    user_id: u128,
    username: Seq<char>,
    now: u64,
    ttl: u64,
) -> Result<Seq<char>, MyError> {
    if now + ttl <= u64::MAX {
        encoded(config, class, ClaimsView { user_id, username, exp: (now + ttl) as u64 })
    } else {
        Err(MyError::SigningError)
    }
}

/// The claims of a token's payload, or `DecodeError` where one of the three
/// is missing.
pub fn claims_from_payload(payload: TokenPayload) -> (r: Result<Claims, MyError>)
    ensures
        claims_outcome(r) == match payload_claims(payload@) {
            Some(claims) => Ok::<ClaimsView, MyError>(claims),
            None => Err(MyError::DecodeError),
        },
{
    match (payload.user_id, payload.username, payload.exp) {
        (Some(user_id), Some(username), Some(exp)) => Ok(Claims { user_id, username, exp }),
        _ => Err(MyError::DecodeError),
    }
}

/// Decodes a credential under a class, whether or not it has expired.
/// `DecodeError` where the token is not well-formed, is not signed with the
/// secret of the class, lacks a claim, or the class has no secret.
pub fn decode_claims(config: &AuthConfig, token_type: &TokenType, token: String) -> (r: Result<
    Claims,
    MyError,
>)
    ensures
        claims_outcome(r) == decoded(config@, *token_type, token@),
{
    match get_secret(config, token_type) {
        Ok(secret) => match read_token(secret.as_str(), token.as_str()) {
            Ok(payload) => claims_from_payload(payload),
            Err(_) => Err(MyError::DecodeError),
        },
        Err(_) => Err(MyError::DecodeError),
    }
}

/// Encodes claims as a credential of a class. `SigningError` where the class
/// has no secret, and there only. A credential that was encoded
/// decodes under its class to the same claims, and under the other class it
/// fails to decode, as long as the two secrets are separate keys.
pub fn encode_claims(config: &AuthConfig, token_type: &TokenType, claims: &Claims) -> (r: Result<
    String,
    MyError,
>)
    ensures
        text_outcome(r) == encoded(config@, *token_type, claims@),
        r matches Ok(token) ==> decoded(config@, *token_type, token@) == Ok::<ClaimsView, MyError>(
            claims@,
        ),
        fails_under_other_class(config@, *token_type, text_outcome(r)),
{
    let secret = match get_secret(config, token_type) {
        Ok(secret) => secret,
        Err(_) => {
            return Err(MyError::SigningError);
        },
    };
    match sign_claims(secret.as_str(), claims.user_id, claims.username.as_str(), claims.exp) {
        Ok(token) => Ok(token),
        Err(_) => Err(MyError::SigningError),
    }
}

/// Issues a credential of a class for a subject at time `now`, to expire
/// `exp` later. `SigningError` where the class has no secret or the expiry
/// does not fit, and there only. A credential that was issued
/// decodes under its class to the subject and the expiry it was issued with,
/// and under the other class it fails to decode, as long as the two secrets
/// are separate keys.
pub fn create_at(
    config: &AuthConfig,
    token_type: &TokenType,
    user_id: &u128,
    username: &String,
    now: u64,
    exp: u64,
) -> (r: Result<String, MyError>)
    ensures
        text_outcome(r) == issued(config@, *token_type, *user_id, username@, now, exp),
        r matches Ok(token) ==> decoded(config@, *token_type, token@) == Ok::<ClaimsView, MyError>(
            (ClaimsView { user_id: *user_id, username: username@, exp: (now + exp) as u64 }),
        ),
        fails_under_other_class(config@, *token_type, text_outcome(r)),
{
    match now.checked_add(exp) {
        Some(expiry) => encode_claims(config, token_type, &Claims::new(user_id, username, expiry)),
        None => Err(MyError::SigningError),
    }
}

/// A credential was issued at time `now`: `r` is what issuing gives then,
/// the token decodes under its class to what it was issued with, and under
/// the other class it fails to decode, as long as the two secrets are
/// separate keys.
pub open spec fn issued_at(
    config: AuthConfigView,
    class: TokenType,
    user_id: u128,
    username: Seq<char>,
    now: u64,
    ttl: u64,
    r: Result<Seq<char>, MyError>,
) -> bool {
    &&& r == issued(config, class, user_id, username, now, ttl)
    &&& r matches Ok(token) ==> decoded(config, class, token) == Ok::<ClaimsView, MyError>(
        ClaimsView { user_id, username, exp: (now + ttl) as u64 },
    )
    &&& fails_under_other_class(config, class, r)
}

/// The latest time that the clock can show.
pub open spec fn latest_reading() -> u64 {
    0x7fff_ffff_ffff_ffff
}

/// Issues a credential of a class for a subject, to expire `exp` after the
/// time of the call. `SigningError` where the class has no secret or the
/// expiry does not fit, which it does whenever `exp` leaves room for the
/// latest time that the clock can show.
pub fn create(config: &AuthConfig, token_type: &TokenType, user_id: &u128, username: &String, exp: u64) -> (r:
    Result<String, MyError>)
    ensures
        exists|now: u64|
            #![trigger issued_at(config@, *token_type, *user_id, username@, now, exp, text_outcome(r))]
            now <= latest_reading() && issued_at(
                config@,
                *token_type,
                *user_id,
                username@,
                now,
                exp,
                text_outcome(r),
            ),
        config@.secret(*token_type) is None ==> r == Err::<String, MyError>(MyError::SigningError),
        config@.secret(*token_type) is Some && exp <= u64::MAX - latest_reading() ==> r is Ok,
{
    let now = timestamp();
    let r = create_at(config, token_type, user_id, username, now, exp);
    assert(issued_at(config@, *token_type, *user_id, username@, now, exp, text_outcome(r)));
    r
}

/// Whether claims are live at time `now`: strictly before their expiry.
pub fn is_live(claims: &Claims, now: u64) -> (live: bool)
    ensures
        live == (now < claims.exp),
{
    now < claims.exp
}

/// What a presented credential is worth.
#[derive(Debug)]
pub enum TokenState {
    /// Signed for its class and not yet expired.
    Live(Claims),
    /// Signed for its class, but expired.
    Expired(Claims),
    /// Not a credential of its class.
    Invalid,
}

/// The mathematical value of [`TokenState`].
pub enum TokenStateView {
    Live(ClaimsView),
    Expired(ClaimsView),
    Invalid,
}

impl DeepView for TokenState {
    type V = TokenStateView;

    open spec fn deep_view(&self) -> TokenStateView {
        self@
    }
}

impl View for TokenState {
    type V = TokenStateView;

    open spec fn view(&self) -> TokenStateView {
        match self {
            TokenState::Live(claims) => TokenStateView::Live(claims@),
            TokenState::Expired(claims) => TokenStateView::Expired(claims@),
            TokenState::Invalid => TokenStateView::Invalid,
        }
    }
}

/// The worth at time `now` of a credential that decoded to `outcome`.
pub open spec fn classified(outcome: Result<ClaimsView, MyError>, now: u64) -> TokenStateView {
    match outcome {
        Ok(claims) => if now < claims.exp {
            TokenStateView::Live(claims)
        } else {
            TokenStateView::Expired(claims)
        },
        Err(_) => TokenStateView::Invalid,
    }
}

/// Decoded claims are live at every time strictly before their expiry, and
/// expired at the expiry and at every time after it.
pub proof fn lemma_live_until_expiry(claims: ClaimsView, now: u64)
    ensures
        classified(Ok(claims), now) == if now < claims.exp {
            TokenStateView::Live(claims)
        } else {
            TokenStateView::Expired(claims)
        },
        claims.exp > 0 ==> classified(Ok(claims), (claims.exp - 1) as u64) is Live,
        classified(Ok(claims), claims.exp) is Expired,
        claims.exp < u64::MAX ==> classified(Ok(claims), (claims.exp + 1) as u64) is Expired,
{
}

/// The worth at time `now` of a credential that decoded to `outcome`: live
/// strictly before the expiry, expired from the expiry on, invalid where it
/// did not decode.
pub fn classify(outcome: Result<Claims, MyError>, now: u64) -> (state: TokenState)
    ensures
        state@ == classified(claims_outcome(outcome), now),
{
    match outcome {
        Ok(claims) => if is_live(&claims, now) {
            TokenState::Live(claims)
        } else {
            TokenState::Expired(claims)
        },
        Err(_) => TokenState::Invalid,
    }
}

/// The worth of a credential of a class at time `now`.
pub fn validate_at(config: &AuthConfig, token_type: &TokenType, token: &str, now: u64) -> (state:
    TokenState)
    ensures
        state@ == classified(decoded(config@, *token_type, token@), now),
{
    classify(decode_claims(config, token_type, String::from_str(token)), now)
}

/// The worth of a credential of a class at the time of the call. A
/// credential that does not decode is invalid, and one that expires after
/// the latest time that the clock can show is live.
pub fn validate(config: &AuthConfig, token_type: &TokenType, token: &str) -> (state: TokenState)
    ensures
        exists|now: u64|
            now <= latest_reading() && state@ == #[trigger] classified(
                decoded(config@, *token_type, token@),
                now,
            ),
        decoded(config@, *token_type, token@) is Err <==> state@ is Invalid,
        decoded(config@, *token_type, token@) matches Ok(claims) && claims.exp > latest_reading()
            ==> state@ is Live,
{
    let now = timestamp();
    let state = validate_at(config, token_type, token, now);
    assert(state@ == classified(decoded(config@, *token_type, token@), now));
    state
}

/// Whether `text` begins with `prefix`.
pub open spec fn starts_with(text: Seq<char>, prefix: Seq<char>) -> bool {
    prefix.len() <= text.len() && text.subrange(0, prefix.len() as int) == prefix
}

/// What a channel yields: the text behind `prefix`, where the header is there
/// and begins with it.
pub open spec fn parsed(header: Option<Seq<char>>, prefix: Seq<char>) -> Result<Seq<char>, MyError> {
    match header {
        Some(value) => if starts_with(value, prefix) {
            Ok(value.subrange(prefix.len() as int, value.len() as int))
        } else {
            Err(MyError::AuthError)
        },
        None => Err(MyError::AuthError),
    }
}

/// Reads the credential from the value of a request's header: the text
/// behind `prefix`. `AuthError` where the header is absent or does not begin
/// with `prefix`.
pub fn parse_request(header: Option<&str>, prefix: &str) -> (r: Result<String, MyError>)
    ensures
        text_outcome(r) == parsed(header.deep_view(), prefix@),
{
    let value = match header {
        Some(value) => value,
        None => {
            return Err(MyError::AuthError);
        },
    };
    let n = prefix.unicode_len();
    let m = value.unicode_len();
    if m < n {
        return Err(MyError::AuthError);
    }
    let mut i: usize = 0;
    while i < n
        invariant
            header.deep_view() == Some(value@),
            n == prefix@.len(),
            m == value@.len(),
            n <= m,
            i <= n,
            forall|j: int| 0 <= j < i ==> value@[j] == prefix@[j],
        decreases n - i,
    {
        if value.get_char(i) != prefix.get_char(i) {
            assert(value@.subrange(0, n as int)[i as int] != prefix@[i as int]);
            return Err(MyError::AuthError);
        }
        i += 1;
    }
    assert(value@.subrange(0, n as int) =~= prefix@);
    Ok(String::from_str(value.substring_char(n, m)))
}

/// The update of a subject's record that stores `token` as the current
/// credential of its class.
pub open spec fn stored_as(class: TokenType, token: Seq<char>) -> UpdateUserView {
    UpdateUserView {
        pwd_hash: None,
        username: None,
        email: None,
        access_token: if class == TokenType::Access {
            Some(token)
        } else {
            None
        },
        refresh_token: if class == TokenType::Refresh {
            Some(token)
        } else {
            None
        },
    }
}

/// The update of a subject's record that stores `token` as the current
/// credential of its class, in place of the one before.
pub fn store_as(token_type: &TokenType, token: &String) -> (fields: UpdateUserDto)
    ensures
        fields@ == stored_as(*token_type, token@),
{
    match token_type {
        TokenType::Access => UpdateUserDto {
            pwd_hash: None,
            username: None,
            email: None,
            access_token: Some(token.clone()),
            refresh_token: None,
        },
        TokenType::Refresh => UpdateUserDto {
            pwd_hash: None,
            username: None,
            email: None,
            access_token: None,
            refresh_token: Some(token.clone()),
        },
    }
}

/// A credential that is stored takes the place of the one of its class that
/// was stored before, and leaves the one of the other class as it is: of two
/// writes for one class the later one stands.
pub proof fn lemma_later_write_stands(user: UserView, class: TokenType, first: Seq<char>, second: Seq<char>)
    ensures
        user.updated(stored_as(class, first)).updated(stored_as(class, second)) == user.updated(
            stored_as(class, second),
        ),
        user.updated(stored_as(TokenType::Access, first)).access_token == Some(first),
        user.updated(stored_as(TokenType::Access, first)).refresh_token == user.refresh_token,
        user.updated(stored_as(TokenType::Refresh, first)).refresh_token == Some(first),
        user.updated(stored_as(TokenType::Refresh, first)).access_token == user.access_token,
{
}

/// A fresh credential in place of a stale one: the subject, the new token,
/// and the update that stores it on the subject's record.
#[derive(Debug)]
pub struct Rotation {
    pub user_id: u128,
    pub token: String,
    pub fields: UpdateUserDto,
}

/// The mathematical value of [`Rotation`].
pub struct RotationView {
    pub user_id: u128,
    pub token: Seq<char>,
    pub fields: UpdateUserView,
}

impl View for Rotation {
    type V = RotationView;

    open spec fn view(&self) -> RotationView {
        RotationView { user_id: self.user_id, token: self.token@, fields: self.fields@ }
    }
}

/// The view of an outcome that holds a rotation.
pub open spec fn rotation_outcome(r: Result<Rotation, MyError>) -> Result<RotationView, MyError> {
    match r {
        Ok(rotation) => Ok(rotation@),
        Err(e) => Err(e),
    }
}

/// What renewing for the subject of stale claims at time `now` gives: a
/// credential of the class for that subject, which expires `ttl` after `now`,
/// and the update that stores it; `InternalError` where none can be issued.
pub open spec fn renewed(
    config: AuthConfigView,
    class: TokenType,
    stale: ClaimsView,
    now: u64,
    ttl: u64,
) -> Result<RotationView, MyError> {
    match issued(config, class, stale.user_id, stale.username, now, ttl) {
        Ok(fresh) => Ok(
            RotationView { user_id: stale.user_id, token: fresh, fields: stored_as(class, fresh) },
        ),
        Err(_) => Err(MyError::InternalError),
    }
}

/// What rotating a stale credential at time `now` gives: the renewal for the
/// subject to which it decodes, whether or not it has expired, or
/// `DecodeError` where it does not decode.
pub open spec fn refreshed(
    config: AuthConfigView,
    class: TokenType,
    token: Seq<char>,
    now: u64,
    ttl: u64,
) -> Result<RotationView, MyError> {
    match decoded(config, class, token) {
        Ok(stale) => renewed(config, class, stale, now, ttl),
        Err(_) => Err(MyError::DecodeError),
    }
}

/// The fresh credential of a renewal decodes under its class to the subject
/// of the stale claims and to the expiry `ttl` after `now`; under the other
/// class it fails to decode, as long as the two secrets are separate keys.
pub open spec fn renewal_decodes(
    config: AuthConfigView,
    class: TokenType,
    stale: ClaimsView,
    now: u64,
    ttl: u64,
    r: Result<RotationView, MyError>,
) -> bool {
    r matches Ok(rotation) ==> {
        &&& decoded(config, class, rotation.token) == Ok::<ClaimsView, MyError>(
            ClaimsView { user_id: stale.user_id, username: stale.username, exp: (now + ttl) as u64 },
        )
        &&& fails_under_other_class(config, class, Ok(rotation.token))
    }
}

/// The fresh credential of a rotation decodes under its class to the subject
/// of the stale one and to the expiry `ttl` after `now`.
pub open spec fn rotation_decodes(
    config: AuthConfigView,
    class: TokenType,
    token: Seq<char>,
    now: u64,
    ttl: u64,
    r: Result<RotationView, MyError>,
) -> bool {
    r matches Ok(rotation) ==> decoded(config, class, token) matches Ok(stale) && renewal_decodes(
        config,
        class,
        stale,
        now,
        ttl,
        r,
    )
}

/// Renews at time `now` the credential of a class for the subject of stale
/// claims: issues a fresh one, to expire `new_exp` later. `InternalError`
/// where none can be issued. The caller writes `fields` to the subject's
/// record, where the fresh credential takes the place of the one before.
pub fn renew_at(config: &AuthConfig, token_type: &TokenType, stale: &Claims, now: u64, new_exp: u64) -> (r:
    Result<Rotation, MyError>)
    ensures
        rotation_outcome(r) == renewed(config@, *token_type, stale@, now, new_exp),
        renewal_decodes(config@, *token_type, stale@, now, new_exp, rotation_outcome(r)),
{
    match create_at(config, token_type, &stale.user_id, &stale.username, now, new_exp) {
        Ok(fresh) => {
            let fields = store_as(token_type, &fresh);
            Ok(Rotation { user_id: stale.user_id, token: fresh, fields })
        },
        Err(_) => Err(MyError::InternalError),
    }
}

/// Rotates a stale credential at time `now`: decodes it whether or not it has
/// expired, and renews it for its subject. `DecodeError` where the stale one
/// does not decode, `InternalError` where no fresh one can be issued.
pub fn refresh_at(
    config: &AuthConfig,
    token: String,
    token_type: &TokenType,
    now: u64,
    new_exp: u64,
) -> (r: Result<Rotation, MyError>)
    ensures
        rotation_outcome(r) == refreshed(config@, *token_type, token@, now, new_exp),
        rotation_decodes(config@, *token_type, token@, now, new_exp, rotation_outcome(r)),
{
    match decode_claims(config, token_type, token) {
        Ok(stale) => renew_at(config, token_type, &stale, now, new_exp),
        Err(_) => Err(MyError::DecodeError),
    }
}

/// Rotates a stale credential at the time of the call. `DecodeError` where
/// the stale one does not decode, and there only; else `InternalError` where
/// the expiry does not fit, which it does whenever `new_exp` leaves room for
/// the latest time that the clock can show.
pub fn refresh(config: &AuthConfig, token: String, token_type: &TokenType, new_exp: u64) -> (r: Result<
    Rotation,
    MyError,
>)
    ensures
        exists|now: u64|
            now <= latest_reading() && rotation_outcome(r) == #[trigger] refreshed(
                config@,
                *token_type,
                token@,
                now,
                new_exp,
            ) && rotation_decodes(config@, *token_type, token@, now, new_exp, rotation_outcome(r)),
        decoded(config@, *token_type, token@) is Err <==> r matches Err(MyError::DecodeError),
        decoded(config@, *token_type, token@) is Ok && new_exp <= u64::MAX - latest_reading() ==> r is Ok,
{
    let now = timestamp();
    let ghost stale = token@;
    let r = refresh_at(config, token, token_type, now, new_exp);
    assert(rotation_outcome(r) == refreshed(config@, *token_type, stale, now, new_exp));
    r
}

/// What the store answers to a write: the number of records written, or
/// that it failed.
#[derive(Debug, Clone, Copy, PartialEq, Eq, Structural)]
pub enum StoreReply {
    Written(u64),
    Failed,
}

/// What a caller gets once the store has answered the write that belongs to
/// a rotation or a login: the number of records written, or `InternalError`
/// where the store failed.
pub fn persisted(reply: StoreReply) -> (r: Result<u64, MyError>)
    ensures
        r == match reply {
            StoreReply::Written(rows) => Ok::<u64, MyError>(rows),
            StoreReply::Failed => Err(MyError::InternalError),
        },
{
    match reply {
        StoreReply::Written(rows) => Ok(rows),
        StoreReply::Failed => Err(MyError::InternalError),
    }
}

/// A successful login: the subject, a fresh credential of each class, and
/// the update that stores both on the subject's record.
#[derive(Debug)]
pub struct LoginGrant {
    pub user_id: u128,
    pub access_token: String,
    pub refresh_token: String,
    pub fields: UpdateUserDto,
}

/// The mathematical value of [`LoginGrant`].
pub struct LoginGrantView {
    pub user_id: u128,
    pub access_token: Seq<char>,
    pub refresh_token: Seq<char>,
    pub fields: UpdateUserView,
}

impl View for LoginGrant {
    type V = LoginGrantView;

    open spec fn view(&self) -> LoginGrantView {
        LoginGrantView {
            user_id: self.user_id,
            access_token: self.access_token@,
            refresh_token: self.refresh_token@,
            fields: self.fields@,
        }
    }
}

/// The view of an outcome that holds a login.
pub open spec fn login_outcome(r: Result<LoginGrant, MyError>) -> Result<LoginGrantView, MyError> {
    match r {
        Ok(grant) => Ok(grant@),
        Err(e) => Err(e),
    }
}

/// The record is that of `username` and holds `pwd_hash` as the hash of its
/// secret.
pub open spec fn holds(user: UserView, username: Seq<char>, pwd_hash: Seq<char>) -> bool {
    user.username == username && user.pwd_hash == pwd_hash
}

/// The record is that of `username`, and `secret` hashes to the hash that it
/// holds.
pub open spec fn authenticates(user: UserView, username: Seq<char>, secret: Seq<char>) -> bool {
    holds(user, username, sha3_256_hex(secret))
}

/// Whether the record is that of `username` and holds `pwd_hash` as the hash
/// of its secret.
pub fn holds_credentials(user: &User, username: &String, pwd_hash: &String) -> (held: bool)
    ensures
        held == holds(user@, username@, pwd_hash@),
{
    user.username == *username && user.pwd_hash == *pwd_hash
}

/// The update that stores a fresh credential of each class.
pub open spec fn stored_pair(access: Seq<char>, refresh: Seq<char>) -> UpdateUserView {
    UpdateUserView {
        pwd_hash: None,
        username: None,
        email: None,
        access_token: Some(access),
        refresh_token: Some(refresh),
    }
}

/// What a login at time `now` gives, where `user` is the record that the
/// store holds under the name, if any: `BadCredentials` where there is none
/// or the secret does not match, without telling the two apart; else a fresh
/// credential of each class, each live for the time that the configuration
/// gives its class.
pub open spec fn logged_in(
    config: AuthConfigView,
    user: Option<UserView>,
    username: Seq<char>,
    secret: Seq<char>,
    now: u64,
) -> Result<LoginGrantView, MyError> {
    match user {
        Some(u) => if authenticates(u, username, secret) {
            match (
                issued(config, TokenType::Access, u.id, u.username, now, config.access_ttl),
                issued(config, TokenType::Refresh, u.id, u.username, now, config.refresh_ttl),
            ) {
                (Ok(access), Ok(refresh)) => Ok(
                    LoginGrantView {
                        user_id: u.id,
                        access_token: access,
                        refresh_token: refresh,
                        fields: stored_pair(access, refresh),
                    },
                ),
                _ => Err(MyError::InternalError),
            }
        } else {
            Err(MyError::BadCredentials)
        },
        None => Err(MyError::BadCredentials),
    }
}

/// A login with a wrong secret and a login under a name that the store does
/// not hold fail alike, with `BadCredentials`, so that the answer does not
/// tell whether a name is known.
pub proof fn lemma_login_failures_are_alike(
    config: AuthConfigView,
    user: UserView,
    username: Seq<char>,
    wrong_secret: Seq<char>,
    unknown_name: Seq<char>,
    any_secret: Seq<char>,
    now: u64,
)
    requires
        !authenticates(user, username, wrong_secret),
    ensures
        logged_in(config, Some(user), username, wrong_secret, now) == Err::<LoginGrantView, MyError>(
            MyError::BadCredentials,
        ),
        logged_in(config, None, unknown_name, any_secret, now) == logged_in(
            config,
            Some(user),
            username,
            wrong_secret,
            now,
        ),
{
}

/// Both credentials of a login decode, each under its class, to the subject
/// that logged in; under the other class each fails to decode, as long as
/// the two secrets are separate keys.
pub open spec fn login_decodes(config: AuthConfigView, now: u64, r: Result<LoginGrantView, MyError>) -> bool {
    r matches Ok(grant) ==> {
        &&& decoded(config, TokenType::Access, grant.access_token) matches Ok(claims)
        &&& claims.user_id == grant.user_id
        &&& claims.exp == now + config.access_ttl
        &&& decoded(config, TokenType::Refresh, grant.refresh_token) matches Ok(claims)
        &&& claims.user_id == grant.user_id
        &&& claims.exp == now + config.refresh_ttl
        &&& fails_under_other_class(config, TokenType::Access, Ok(grant.access_token))
        &&& fails_under_other_class(config, TokenType::Refresh, Ok(grant.refresh_token))
    }
}

/// Logs a subject in at time `now`. `user` is the record that the store
/// holds under the request's name, if it holds one. `BadCredentials` where
/// there is no record, or the secret does not hash to the stored hash;
/// `InternalError` where a credential cannot be issued. The caller writes
/// `fields` to the subject's record.
pub fn login_at(config: &AuthConfig, user: Option<&User>, request: &LoginUserRequest, now: u64) -> (r:
    Result<LoginGrant, MyError>)
    ensures
        login_outcome(r) == logged_in(config@, user.deep_view(), request.username@, request.pwd@, now),
        login_decodes(config@, now, login_outcome(r)),
{
    let user = match user {
        Some(user) => user,
        None => {
            return Err(MyError::BadCredentials);
        },
    };
    if !holds_credentials(user, &request.username, &get_sha3_256_hash(&request.pwd)) {
        return Err(MyError::BadCredentials);
    }
    let access = create_at(
        config,
        &TokenType::Access,
        &user.id,
        &user.username,
        now,
        config.access_ttl,
    );
    let refresh = create_at(
        config,
        &TokenType::Refresh,
        &user.id,
        &user.username,
        now,
        config.refresh_ttl,
    );
    match (access, refresh) {
        (Ok(access_token), Ok(refresh_token)) => {
            let fields = UpdateUserDto {
                pwd_hash: None,
                username: None,
                email: None,
                access_token: Some(access_token.clone()),
                refresh_token: Some(refresh_token.clone()),
            };
            Ok(LoginGrant { user_id: user.id, access_token, refresh_token, fields })
        },
        _ => Err(MyError::InternalError),
    }
}

/// The record is there, is that of `username`, and `secret` hashes to the
/// hash that it holds.
pub open spec fn known(user: Option<UserView>, username: Seq<char>, secret: Seq<char>) -> bool {
    user matches Some(u) && authenticates(u, username, secret)
}

/// Both classes have a secret, and a credential of either class that is
/// issued at the latest time that the clock can show has an expiry that fits.
pub open spec fn always_issues(config: AuthConfigView) -> bool {
    &&& config.access_secret is Some
    &&& config.refresh_secret is Some
    &&& config.access_ttl <= u64::MAX - latest_reading()
    &&& config.refresh_ttl <= u64::MAX - latest_reading()
}

/// A login of a subject that the store knows, with the right secret,
/// succeeds wherever both classes have a secret and both expiries fit: it
/// gives a credential of each class, and the update that stores the two.
pub proof fn lemma_login_succeeds(
    config: AuthConfigView,
    user: UserView,
    username: Seq<char>,
    secret: Seq<char>,
    now: u64,
)
    requires
        authenticates(user, username, secret),
        config.access_secret is Some,
        config.refresh_secret is Some,
        now + config.access_ttl <= u64::MAX,
        now + config.refresh_ttl <= u64::MAX,
    ensures
        logged_in(config, Some(user), username, secret, now) matches Ok(grant) && grant.user_id
            == user.id && grant.fields == stored_pair(grant.access_token, grant.refresh_token),
{
}

/// Logs a subject in at the time of the call. `BadCredentials` where there
/// is no record or the secret does not match, and there only; else
/// `InternalError` where a credential cannot be issued, which it can
/// whenever both classes have a secret and both expiries leave room for the
/// latest time that the clock can show.
pub fn login(config: &AuthConfig, user: Option<&User>, request: &LoginUserRequest) -> (r: Result<
    LoginGrant,
    MyError,
>)
    ensures
        exists|now: u64|
            now <= latest_reading() && login_outcome(r) == #[trigger] logged_in(
                config@,
                user.deep_view(),
                request.username@,
                request.pwd@,
                now,
            ) && login_decodes(config@, now, login_outcome(r)),
        !known(user.deep_view(), request.username@, request.pwd@) <==> r matches Err(
            MyError::BadCredentials,
        ),
        known(user.deep_view(), request.username@, request.pwd@) && always_issues(config@) ==> r is Ok,
{
    let now = timestamp();
    let r = login_at(config, user, request, now);
    assert(login_outcome(r) == logged_in(
        config@,
        user.deep_view(),
        request.username@,
        request.pwd@,
        now,
    ));
    r
}

} // verus!
