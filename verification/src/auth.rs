use crate::http::RequestPlan;
use vstd::prelude::*;
use vstd::string::StringExecFns;

verus! {

/// The current access/refresh token pair. Exactly one live pair exists per
/// client; a refresh replaces it atomically, never field by field.
#[derive(Clone, Debug)]
pub struct TokenState {
    pub access_token: String,
    pub refresh_token: String,
}

/// Holds the token pair together with the single-flight refresh flag. The
/// flag models the lock scoped to this store: while a refresh is in flight,
/// `begin_refresh` makes no caller a leader, so concurrent requests that hit
/// an authentication rejection wait for the one running exchange and reuse
/// its result instead of issuing a second refresh.
///
/// The fields are private: the refresh token leaves the store only through
/// `refresh_token`, whose one intended caller is the token-endpoint exchange;
/// authorized requests carry the access token alone.
pub struct TokenStore {
    tokens: TokenState,
    refresh_in_flight: bool,
}

impl TokenStore {
    /// The access token a call made now would carry.
    pub closed spec fn spec_access(&self) -> Seq<char> {
        self.tokens.access_token@
    }

    /// The refresh token the next exchange would send.
    pub closed spec fn spec_refresh(&self) -> Seq<char> {
        self.tokens.refresh_token@
    }

    /// Whether a refresh exchange is currently in flight.
    pub closed spec fn in_flight(&self) -> bool {
        self.refresh_in_flight
    }

    pub fn new(tokens: TokenState) -> (s: TokenStore)
        ensures
            s.spec_access() == tokens.access_token@,
            s.spec_refresh() == tokens.refresh_token@,
            !s.in_flight(),
    {
        TokenStore { tokens, refresh_in_flight: false }
    }

    pub fn access_token(&self) -> (t: &String)
        ensures
            t@ == self.spec_access(),
    {
        &self.tokens.access_token
    }

    /// Hand out the refresh token for the token-endpoint exchange and nothing
    /// else: it never enters an authorized request.
    pub fn refresh_token(&self) -> (t: &String)
        ensures
            t@ == self.spec_refresh(),
    {
        &self.tokens.refresh_token
    }

    /// A caller that hit an authentication rejection announces that a refresh
    /// is needed. The returned flag says whether this caller leads: the leader
    /// runs the exchange against the token endpoint; everyone else waits for
    /// `complete_refresh` (or `abort_refresh`) and reuses its outcome. The
    /// stored pair is untouched until the exchange completes.
    pub fn begin_refresh(&mut self) -> (leader: bool)
        ensures
            leader == !old(self).in_flight(),
            final(self).in_flight(),
            final(self).spec_access() == old(self).spec_access(),
            final(self).spec_refresh() == old(self).spec_refresh(),
    {
        let leader = !self.refresh_in_flight;
        self.refresh_in_flight = true;
        leader
    }

    /// The leader installs the pair the exchange returned. The replacement is
    /// atomic: both tokens change together, and the flight ends, so every
    /// caller that reads the store afterwards observes the refreshed pair.
    pub fn complete_refresh(&mut self, new_tokens: TokenState)
        requires
            old(self).in_flight(),
        ensures
            !final(self).in_flight(),
            final(self).spec_access() == new_tokens.access_token@,
            final(self).spec_refresh() == new_tokens.refresh_token@,
    {
        self.tokens = new_tokens;
        self.refresh_in_flight = false;
    }

    /// The leader reports that the exchange failed: the flight ends and the
    /// stored pair stays as it was. The callers surface an authentication
    /// error; none of them retries.
    pub fn abort_refresh(&mut self)
        requires
            old(self).in_flight(),
        ensures
            !final(self).in_flight(),
            final(self).spec_access() == old(self).spec_access(),
            final(self).spec_refresh() == old(self).spec_refresh(),
    {
        self.refresh_in_flight = false;
    }
}

/// How many of `n` callers become leaders when their `begin_refresh` calls
/// are serialized by the store's lock, the first of them finding the flight
/// flag equal to `in_flight`. Mirrors the contract of `begin_refresh`: a
/// caller leads exactly when no flight was under way, and its call leaves the
/// flag set for all that follow.
pub open spec fn leaders_among(n: nat, in_flight: bool) -> nat
    decreases n,
{
    if n == 0 {
        0
    } else {
        (if !in_flight {
            1nat
        } else {
            0nat
        }) + leaders_among((n - 1) as nat, true)
    }
}

/// Law (single-flight refresh): however many requests hit an authentication
/// rejection simultaneously, exactly one refresh call is issued — when no
/// exchange was in flight, exactly one of the serialized callers leads, and
/// while one is in flight, none does. Together with the contract of
/// `complete_refresh`, which replaces the pair atomically, and of
/// `access_token`, every caller that waits for the flight observes the
/// refreshed token.
pub proof fn lemma_single_flight(n: nat)
    requires
        n >= 1,
    ensures
        leaders_among(n, false) == 1,
        leaders_among(n, true) == 0,
    decreases n,
{
    if n == 1 {
        assert(leaders_among(0, true) == 0);
    } else {
        lemma_single_flight((n - 1) as nat);
    }
}

/// The per-request authentication flow around one outbound call. The request
/// is sent with the current token; an authentication rejection triggers one
/// single-flight refresh and exactly one resend; any second rejection is
/// surfaced as it came.
#[derive(Clone, Copy, Debug, PartialEq, Eq, Structural)]
pub enum AuthFlowState {
    /// The original request is out, awaiting its response.
    FirstAttempt,
    /// A refresh is under way (led by this caller or another).
    Refreshing,
    /// The request was resent once with the refreshed token.
    RetryAttempt,
    /// The flow ended; the action says with what.
    Done,
}

/// What the driver reports back to the flow.
#[derive(Clone, Copy, Debug, PartialEq, Eq, Structural)]
pub enum AuthEvent {
    /// The outstanding request came back with this status.
    Response { status: u16 },
    /// The single-flight refresh completed and the store holds the new pair.
    RefreshSucceeded,
    /// The refresh exchange failed; the store keeps the old pair.
    RefreshFailed,
}

/// What the driver must do next.
#[derive(Clone, Copy, Debug, PartialEq, Eq, Structural)]
pub enum AuthAction {
    /// Send (or resend) the request, authorized with the store's current
    /// access token.
    SendRequest,
    /// Run the single-flight refresh against the token store.
    RefreshTokens,
    /// Surface this response to the caller.
    ReturnResponse { status: u16 },
    /// The credential was rejected and could not be refreshed: surface an
    /// authentication error, with no retry.
    ReturnAuthError,
    /// The driver handed the flow an event its state cannot answer.
    ReturnProtocolError,
}

/// The status with which the provider rejects the bearer credential.
pub const AUTH_REJECTED_STATUS: u16 = 401;

/// Start the flow for one request: send it with the current token.
pub fn auth_flow_start() -> (r: (AuthFlowState, AuthAction))
    ensures
        r == (AuthFlowState::FirstAttempt, AuthAction::SendRequest),
{
    (AuthFlowState::FirstAttempt, AuthAction::SendRequest)
}

/// One transition of the per-request authentication flow. The contract pins
/// every transition: the first authentication rejection leads to a refresh;
/// a successful refresh leads to exactly one resend; the response to the
/// resend is surfaced whatever its status, so no request is retried twice;
/// a failed refresh surfaces an authentication error.
pub fn auth_flow_step(state: AuthFlowState, event: AuthEvent) -> (r: (AuthFlowState, AuthAction))
    ensures
        match (state, event) {
            (AuthFlowState::FirstAttempt, AuthEvent::Response { status }) => {
                if status == AUTH_REJECTED_STATUS {
                    r == (AuthFlowState::Refreshing, AuthAction::RefreshTokens)
                } else {
                    r == (AuthFlowState::Done, AuthAction::ReturnResponse { status })
                }
            },
            (AuthFlowState::Refreshing, AuthEvent::RefreshSucceeded) => r == (
                AuthFlowState::RetryAttempt,
                AuthAction::SendRequest,
            ),
            (AuthFlowState::Refreshing, AuthEvent::RefreshFailed) => r == (
                AuthFlowState::Done,
                AuthAction::ReturnAuthError,
            ),
            (AuthFlowState::RetryAttempt, AuthEvent::Response { status }) => r == (
                AuthFlowState::Done,
                AuthAction::ReturnResponse { status },
            ),
            _ => r == (AuthFlowState::Done, AuthAction::ReturnProtocolError),
        },
{
    match (state, event) {
        (AuthFlowState::FirstAttempt, AuthEvent::Response { status }) => {
            if status == AUTH_REJECTED_STATUS {
                (AuthFlowState::Refreshing, AuthAction::RefreshTokens)
            } else {
                (AuthFlowState::Done, AuthAction::ReturnResponse { status })
            }
        },
        (AuthFlowState::Refreshing, AuthEvent::RefreshSucceeded) => {
            (AuthFlowState::RetryAttempt, AuthAction::SendRequest)
        },
        (AuthFlowState::Refreshing, AuthEvent::RefreshFailed) => {
            (AuthFlowState::Done, AuthAction::ReturnAuthError)
        },
        (AuthFlowState::RetryAttempt, AuthEvent::Response { status }) => {
            (AuthFlowState::Done, AuthAction::ReturnResponse { status })
        },
        _ => (AuthFlowState::Done, AuthAction::ReturnProtocolError),
    }
}

/// The value of the bearer credential header carrying `token`.
pub open spec fn bearer_value(token: Seq<char>) -> Seq<char> {
    "Bearer "@ + token
}

/// Every outbound call asserts immutable resource identifiers through this
/// fixed preference header, so message ids stay stable across moves.
pub open spec fn immutable_id_preference() -> Seq<char> {
    "IdType=\"ImmutableId\""@
}

/// Attach the store's current access token as a bearer credential and the
/// fixed stable-identifier preference header to an outbound call. Everything
/// else about the plan is kept; the refresh token is not read.
pub fn authorize(store: &TokenStore, plan: RequestPlan) -> (r: RequestPlan)
    ensures
        r.method == plan.method,
        r.url == plan.url,
        r.query == plan.query,
        r.headers@.len() == plan.headers@.len() + 2,
        forall|i: int| 0 <= i < plan.headers@.len() ==> r.headers@[i] == plan.headers@[i],
        r.headers@[plan.headers@.len() as int].0@ == "Authorization"@,
        r.headers@[plan.headers@.len() as int].1@ == bearer_value(store.spec_access()),
        r.headers@[plan.headers@.len() as int + 1].0@ == "Prefer"@,
        r.headers@[plan.headers@.len() as int + 1].1@ == immutable_id_preference(),
{
    let mut headers = plan.headers;
    let mut bearer = "Bearer ".to_owned();
    bearer.append(store.access_token().as_str());
    headers.push(("Authorization".to_owned(), bearer));
    headers.push(("Prefer".to_owned(), "IdType=\"ImmutableId\"".to_owned()));
    RequestPlan { method: plan.method, url: plan.url, query: plan.query, headers }
}

} // verus!
