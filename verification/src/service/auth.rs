//! The decision that stands before every protected request: from the two
//! credentials that a request presents to letting it pass, renewing its
//! access credential first, or turning it away.

pub mod jwt;

use vstd::prelude::*;
use crate::dto::{Claims, ClaimsView};
use crate::errors::MyError;
use crate::models::UserView;
use crate::service::auth::jwt::{
    classified, decoded, issued, latest_reading, parse_request, parsed, renew_at, renewed,
    stored_as, timestamp, validate_at, AuthConfig, AuthConfigView, Rotation, RotationView,
    StoreReply, TokenState, TokenStateView, TokenType,
};

verus! {

/// What stands before the credential in the value of a header.
pub const BEARER: &'static str = "Bearer ";

/// The identity under which a request runs. It is taken from a live refresh
/// credential, lasts for the one request and is never stored.
#[derive(Debug)]
pub struct UserAuthData {
    pub user_id: u128,
    pub username: String,
}

/// The mathematical value of [`UserAuthData`].
pub struct UserAuthView {
    pub user_id: u128,
    pub username: Seq<char>,
}

impl View for UserAuthData {
    type V = UserAuthView;

    open spec fn view(&self) -> UserAuthView {
        UserAuthView { user_id: self.user_id, username: self.username@ }
    }
}

/// The identity that claims assert.
pub open spec fn identity_of(claims: ClaimsView) -> UserAuthView {
    UserAuthView { user_id: claims.user_id, username: claims.username }
}

/// What is to be done with a request.
#[derive(Debug)]
pub enum Decision {
    /// The handler runs under `identity`. Where `authorization` is set, the
    /// request's header of the access credential takes that value first.
    Forward { identity: UserAuthData, authorization: Option<String> },
    /// The access credential was stale and has been renewed: `rotation` is
    /// to be written to the store, and the store's answer decides how the
    /// request goes on.
    Persist { identity: UserAuthData, rotation: Rotation },
    /// The request is turned away; the handler does not run.
    Reject { error: MyError },
}

/// The mathematical value of [`Decision`].
pub enum DecisionView {
    Forward { identity: UserAuthView, authorization: Option<Seq<char>> },
    Persist { identity: UserAuthView, rotation: RotationView },
    Reject { error: MyError },
}

impl View for Decision {
    type V = DecisionView;

    open spec fn view(&self) -> DecisionView {
        match self {
            Decision::Forward { identity, authorization } => DecisionView::Forward {
                identity: identity@,
                authorization: authorization.deep_view(),
            },
            Decision::Persist { identity, rotation } => DecisionView::Persist {
                identity: identity@,
                rotation: rotation@,
            },
            Decision::Reject { error } => DecisionView::Reject { error: *error },
        }
    }
}

/// The worth at time `now` of the credential of a class that a header
/// carries, or `None` where the header yields no credential.
pub open spec fn presented(
    config: AuthConfigView,
    class: TokenType,
    header: Option<Seq<char>>,
    now: u64,
) -> Option<TokenStateView> {
    match parsed(header, BEARER@) {
        Ok(token) => Some(classified(decoded(config, class, token), now)),
        Err(_) => None,
    }
}

/// What the two credentials of a request come to.
#[derive(Debug)]
pub enum Verdict {
    /// Both are live: the request passes as it is.
    Pass { identity: UserAuthData },
    /// The access credential has expired under a live refresh credential: it
    /// is to be renewed for the subject of `stale`.
    Renew { identity: UserAuthData, stale: Claims },
    /// The request is turned away.
    Refuse { error: MyError },
}

/// The mathematical value of [`Verdict`].
pub enum VerdictView {
    Pass { identity: UserAuthView },
    Renew { identity: UserAuthView, stale: ClaimsView },
    Refuse { error: MyError },
}

impl View for Verdict {
    type V = VerdictView;

    open spec fn view(&self) -> VerdictView {
        match self {
            Verdict::Pass { identity } => VerdictView::Pass { identity: identity@ },
            Verdict::Renew { identity, stale } => VerdictView::Renew {
                identity: identity@,
                stale: stale@,
            },
            Verdict::Refuse { error } => VerdictView::Refuse { error: *error },
        }
    }
}

/// What the worth of the two credentials comes to, `None` standing for a
/// credential that the request does not present.
///
/// The refresh credential is the root of trust: unless it is there and live,
/// the request is turned away with `AuthError`, whatever the access
/// credential is worth, and so it is where the access credential is absent.
/// Under a live refresh credential a live access credential lets the request
/// pass, an expired one is to be renewed for its own subject, and one that
/// is not even a credential of its class turns the request away with
/// `InternalError`. The identity is always that of the refresh credential.
pub open spec fn judged(access: Option<TokenStateView>, refresh: Option<TokenStateView>) -> VerdictView {
    match refresh {
        Some(TokenStateView::Live(subject)) => match access {
            Some(TokenStateView::Live(_)) => VerdictView::Pass { identity: identity_of(subject) },
            Some(TokenStateView::Expired(stale)) => VerdictView::Renew {
                identity: identity_of(subject),
                stale,
            },
            Some(TokenStateView::Invalid) => VerdictView::Refuse { error: MyError::InternalError },
            None => VerdictView::Refuse { error: MyError::AuthError },
        },
        _ => VerdictView::Refuse { error: MyError::AuthError },
    }
}

/// The decision on a request at time `now`, from the values of its two
/// headers: what the two credentials come to, with the renewal made where
/// one is due. A renewed access credential is live for the configured time
/// from `now`; where none can be issued, the request is turned away with
/// `InternalError`.
pub open spec fn decided(
    config: AuthConfigView,
    authorization: Option<Seq<char>>,
    refresh: Option<Seq<char>>,
    now: u64,
) -> DecisionView {
    match judged(
        presented(config, TokenType::Access, authorization, now),
        presented(config, TokenType::Refresh, refresh, now),
    ) {
        VerdictView::Pass { identity } => DecisionView::Forward { identity, authorization: None },
        VerdictView::Renew { identity, stale } => match renewed(
            config,
            TokenType::Access,
            stale,
            now,
            config.access_ttl,
        ) {
            Ok(rotation) => DecisionView::Persist { identity, rotation },
            Err(_) => DecisionView::Reject { error: MyError::InternalError },
        },
        VerdictView::Refuse { error } => DecisionView::Reject { error },
    }
}

/// A renewed access credential decodes to the subject of the stale one and
/// expires strictly later, as long as the configured time is not zero.
pub open spec fn renewal_is_later(
    config: AuthConfigView,
    authorization: Option<Seq<char>>,
    now: u64,
    decision: DecisionView,
) -> bool {
    decision matches DecisionView::Persist { rotation, .. } ==> {
        &&& presented(config, TokenType::Access, authorization, now) matches Some(
            TokenStateView::Expired(stale),
        )
        &&& decoded(config, TokenType::Access, rotation.token) matches Ok(fresh)
        &&& fresh.user_id == stale.user_id
        &&& fresh.user_id == rotation.user_id
        &&& fresh.username == stale.username
        &&& fresh.exp == now + config.access_ttl
        &&& stale.exp <= now
        &&& config.access_ttl > 0 ==> stale.exp < fresh.exp
    }
}

/// How a request goes on once the store has answered. A renewal that was
/// written lets the request pass with the fresh credential in its header; one
/// that the store failed to write turns it away with `InternalError`. Any
/// other decision waits for no answer and stands.
pub open spec fn settled(decision: DecisionView, reply: StoreReply) -> DecisionView {
    match decision {
        DecisionView::Persist { identity, rotation } => match reply {
            StoreReply::Written(_) => DecisionView::Forward {
                identity,
                authorization: Some(BEARER@ + rotation.token),
            },
            StoreReply::Failed => DecisionView::Reject { error: MyError::InternalError },
        },
        _ => decision,
    }
}

/// A request that presents a live access and a live refresh credential
/// passes as it is, under the identity that the refresh credential asserts,
/// and nothing is written to the store.
pub proof fn lemma_live_pair_passes(
    config: AuthConfigView,
    authorization: Option<Seq<char>>,
    refresh: Option<Seq<char>>,
    now: u64,
)
    requires
        presented(config, TokenType::Access, authorization, now) matches Some(TokenStateView::Live(_)),
        presented(config, TokenType::Refresh, refresh, now) matches Some(TokenStateView::Live(_)),
    ensures
        decided(config, authorization, refresh, now) == (DecisionView::Forward {
            identity: identity_of(presented(config, TokenType::Refresh, refresh, now)->0->Live_0),
            authorization: None,
        }),
{
}

/// A request that presents an expired access credential under a live
/// refresh credential is never let pass as it is. Wherever the expiry of a
/// fresh access credential fits, exactly one write is asked for: it stores
/// the fresh credential, issued for the subject of the stale one, as the
/// access credential of that subject and sets no other field. Where the
/// expiry does not fit, the request is turned away with `InternalError`.
pub proof fn lemma_stale_access_is_renewed(
    config: AuthConfigView,
    authorization: Option<Seq<char>>,
    refresh: Option<Seq<char>>,
    now: u64,
)
    requires
        presented(config, TokenType::Access, authorization, now) matches Some(
            TokenStateView::Expired(_),
        ),
        presented(config, TokenType::Refresh, refresh, now) matches Some(TokenStateView::Live(_)),
    ensures
        ({
            let stale = presented(config, TokenType::Access, authorization, now)->0->Expired_0;
            let subject = presented(config, TokenType::Refresh, refresh, now)->0->Live_0;
            if now + config.access_ttl <= u64::MAX {
                &&& issued(
                    config,
                    TokenType::Access,
                    stale.user_id,
                    stale.username,
                    now,
                    config.access_ttl,
                ) matches Ok(fresh)
                &&& decided(config, authorization, refresh, now) == (DecisionView::Persist {
                    identity: identity_of(subject),
                    rotation: RotationView {
                        user_id: stale.user_id,
                        token: fresh,
                        fields: stored_as(TokenType::Access, fresh),
                    },
                })
            } else {
                decided(config, authorization, refresh, now) == (DecisionView::Reject {
                    error: MyError::InternalError,
                })
            }
        }),
{
}

/// The write of a renewal, once the store has made it, leaves the fresh
/// credential as the access credential of the record and the refresh
/// credential as it was; the request then passes with the fresh credential
/// in its header.
pub proof fn lemma_renewal_is_stored(
    user: UserView,
    identity: UserAuthView,
    rotation: RotationView,
    rows: u64,
)
    requires
        rotation.fields == stored_as(TokenType::Access, rotation.token),
    ensures
        user.updated(rotation.fields).access_token == Some(rotation.token),
        user.updated(rotation.fields).refresh_token == user.refresh_token,
        user.updated(rotation.fields).id == user.id,
        settled(DecisionView::Persist { identity, rotation }, StoreReply::Written(rows)) == (
        DecisionView::Forward { identity, authorization: Some(BEARER@ + rotation.token) }),
{
}

/// Without a live refresh credential a request is turned away with
/// `AuthError`, whatever it presents as its access credential: no identity
/// is attached and nothing is written to the store.
pub proof fn lemma_refresh_is_the_root_of_trust(
    config: AuthConfigView,
    authorization: Option<Seq<char>>,
    refresh: Option<Seq<char>>,
    now: u64,
)
    requires
        !(presented(config, TokenType::Refresh, refresh, now) matches Some(TokenStateView::Live(_))),
    ensures
        decided(config, authorization, refresh, now) == (DecisionView::Reject {
            error: MyError::AuthError,
        }),
{
}

/// Whatever a request presents, it passes only under the identity that a
/// live refresh credential asserts.
pub proof fn lemma_identity_is_that_of_refresh(
    config: AuthConfigView,
    authorization: Option<Seq<char>>,
    refresh: Option<Seq<char>>,
    now: u64,
)
    ensures
        match decided(config, authorization, refresh, now) {
            DecisionView::Forward { identity, .. } | DecisionView::Persist { identity, .. } => {
                &&& presented(config, TokenType::Refresh, refresh, now) matches Some(
                    TokenStateView::Live(subject),
                )
                &&& identity == identity_of(subject)
            },
            DecisionView::Reject { .. } => true,
        },
{
}

/// Makes the service that decides on requests.
pub struct AuthMiddleware {
    pub config: AuthConfig,
}

impl View for AuthMiddleware {
    type V = AuthConfigView;

    open spec fn view(&self) -> AuthConfigView {
        self.config@
    }
}

/// Decides on requests, under the configuration it was made with.
pub struct AuthMiddlewareSerive {
    config: AuthConfig,
}

impl View for AuthMiddlewareSerive {
    type V = AuthConfigView;

    closed spec fn view(&self) -> AuthConfigView {
        self.config@
    }
}

impl AuthMiddleware {
    /// Takes the configuration under which requests are to be decided.
    pub fn register(config: AuthConfig) -> (middleware: Self)
        ensures
            middleware@ == config@,
    {
        AuthMiddleware { config }
    }

    /// A service that decides under this configuration.
    pub fn new_transform(&self) -> (service: AuthMiddlewareSerive)
        ensures
            service@ == self@,
    {
        AuthMiddlewareSerive {
            config: AuthConfig {
                access_secret: self.config.access_secret.clone(),
                refresh_secret: self.config.refresh_secret.clone(),
                access_ttl: self.config.access_ttl,
                refresh_ttl: self.config.refresh_ttl,
            },
        }
    }
}

/// What the two credentials of a request come to, from the worth of each;
/// `None` stands for a credential that the request does not present.
pub fn judge(access: Option<TokenState>, refresh: Option<TokenState>) -> (verdict: Verdict)
    ensures
        verdict@ == judged(access.deep_view(), refresh.deep_view()),
{
    let subject = match refresh {
        Some(TokenState::Live(subject)) => subject,
        _ => {
            return Verdict::Refuse { error: MyError::AuthError };
        },
    };
    let identity = UserAuthData { user_id: subject.user_id, username: subject.username };
    match access {
        Some(TokenState::Live(_)) => Verdict::Pass { identity },
        Some(TokenState::Expired(stale)) => Verdict::Renew { identity, stale },
        Some(TokenState::Invalid) => Verdict::Refuse { error: MyError::InternalError },
        None => Verdict::Refuse { error: MyError::AuthError },
    }
}

/// The worth at time `now` of the credential of a class that a header
/// carries, or `None` where the header is absent or does not begin with the
/// prefix.
pub fn present(config: &AuthConfig, token_type: &TokenType, header: Option<&str>, now: u64) -> (state:
    Option<TokenState>)
    ensures
        state.deep_view() == presented(config@, *token_type, header.deep_view(), now),
{
    match parse_request(header, BEARER) {
        Ok(token) => Some(validate_at(config, token_type, token.as_str(), now)),
        Err(_) => None,
    }
}

impl AuthMiddlewareSerive {
    /// Decides on a request at time `now`. `authorization` and `refresh` are
    /// the values of the headers that carry the access and the refresh
    /// credential, as far as the request has them.
    pub fn call_at(&self, authorization: Option<&str>, refresh: Option<&str>, now: u64) -> (decision:
        Decision)
        ensures
            decision@ == decided(self@, authorization.deep_view(), refresh.deep_view(), now),
            renewal_is_later(self@, authorization.deep_view(), now, decision@),
    {
        let access_state = present(&self.config, &TokenType::Access, authorization, now);
        let refresh_state = present(&self.config, &TokenType::Refresh, refresh, now);
        match judge(access_state, refresh_state) {
            Verdict::Pass { identity } => Decision::Forward { identity, authorization: None },
            Verdict::Renew { identity, stale } => match renew_at(
                &self.config,
                &TokenType::Access,
                &stale,
                now,
                self.config.access_ttl,
            ) {
                Ok(rotation) => Decision::Persist { identity, rotation },
                Err(_) => Decision::Reject { error: MyError::InternalError },
            },
            Verdict::Refuse { error } => Decision::Reject { error },
        }
    }

    /// Decides on a request at the time of the call, which is no later than
    /// the latest time that the clock can show.
    pub fn call(&self, authorization: Option<&str>, refresh: Option<&str>) -> (decision: Decision)
        ensures
            exists|now: u64|
                now <= latest_reading() && decision@ == #[trigger] decided(
                    self@,
                    authorization.deep_view(),
                    refresh.deep_view(),
                    now,
                ) && renewal_is_later(self@, authorization.deep_view(), now, decision@),
    {
        let now = timestamp();
        let decision = self.call_at(authorization, refresh, now);
        assert(decision@ == decided(self@, authorization.deep_view(), refresh.deep_view(), now));
        decision
    }
}

/// Takes the store's answer to the write of a renewal and says how the
/// request goes on.
pub fn store_answered(decision: Decision, reply: StoreReply) -> (next: Decision)
    ensures
        next@ == settled(decision@, reply),
{
    match decision {
        Decision::Persist { identity, rotation } => match reply {
            StoreReply::Written(_) => {
                let authorization = String::from_str(BEARER).concat(rotation.token.as_str());
                Decision::Forward { identity, authorization: Some(authorization) }
            },
            StoreReply::Failed => Decision::Reject { error: MyError::InternalError },
        },
        other => other,
    }
}

} // verus!
