//! The credential lifecycle manager: it owns the single in-memory
//! credential and decides, before every outbound call, whether the cached
//! credential is usable, needs a refresh, or requires a full
//! re-authentication. A failed refresh is swallowed and answered with one
//! re-authentication attempt; a failure of that attempt is surfaced.
use vstd::prelude::*;

use crate::errors::XTVError;
use crate::errors::XTVErrorView;
use crate::token::Token;
use crate::token::TokenView;

verus! {

/// What the manager asks its caller to do next: reuse the cached
/// credential (no network traffic), run the refresh flow with the given
/// refresh token, or run the full authorization flow.
pub enum AcquireStep {
    UseCached(Token),
    RefreshWith(String),
    Reauthenticate,
}

/// The single shared credential slot.
pub struct TokenSlot {
    token: Option<Token>,
}

impl View for TokenSlot {
    type V = Option<TokenView>;

    closed spec fn view(&self) -> Option<TokenView> {
        match self.token {
            None => None,
            Some(t) => Some(t@),
        }
    }
}

/// The view of a flow outcome.
pub open spec fn outcome_view(r: Result<Token, XTVError>) -> Result<TokenView, XTVErrorView> {
    match r {
        Ok(t) => Ok(t@),
        Err(e) => Err(e@),
    }
}

/// The slot's content after an authorization-flow outcome was applied: a
/// granted credential replaces the slot's content, a failure leaves it
/// alone.
pub open spec fn after_auth(
    cached: Option<TokenView>,
    auth_outcome: Result<TokenView, XTVErrorView>,
) -> Option<TokenView> {
    match auth_outcome {
        Ok(t) => Some(t),
        Err(_) => cached,
    }
}

/// Everything one acquisition does, as a function of the cached
/// credential, the clock, and what the two flows would answer were they
/// invoked: the slot afterwards, the result handed to the caller, and how
/// many times each flow ran.
pub struct AcquireModel {
    pub cached: Option<TokenView>,
    pub outcome: Result<TokenView, XTVErrorView>,
    pub refresh_attempts: int,
    pub auth_attempts: int,
}

/// The acquisition algorithm: no credential means one authorization run;
/// an unexpired credential is reused without any flow; an expired one is
/// refreshed, and on any refresh failure the authorization flow is run
/// once and its result returned.
pub open spec fn spec_acquire(
    cached: Option<TokenView>,
    now: int,
    refresh_outcome: Result<TokenView, XTVErrorView>,
    auth_outcome: Result<TokenView, XTVErrorView>,
) -> AcquireModel {
    match cached {
        None => AcquireModel {
            cached: after_auth(cached, auth_outcome),
            outcome: auth_outcome,
            refresh_attempts: 0,
            auth_attempts: 1,
        },
        Some(t) => if !t.expired_at(now) {
            AcquireModel { cached: Some(t), outcome: Ok(t), refresh_attempts: 0, auth_attempts: 0 }
        } else {
            match refresh_outcome {
                Ok(nt) => AcquireModel {
                    cached: Some(nt),
                    outcome: Ok(nt),
                    refresh_attempts: 1,
                    auth_attempts: 0,
                },
                Err(_) => AcquireModel {
                    cached: after_auth(cached, auth_outcome),
                    outcome: auth_outcome,
                    refresh_attempts: 1,
                    auth_attempts: 1,
                },
            }
        },
    }
}

impl TokenSlot {
    /// An empty slot: no credential has been acquired or loaded yet.
    pub fn new() -> (s: TokenSlot)
        ensures
            s@ is None,
    {
        TokenSlot { token: None }
    }

    /// A slot holding whatever credential persistent storage had, if any.
    pub fn with_token(token: Option<Token>) -> (s: TokenSlot)
        ensures
            match token {
                None => s@ is None,
                Some(t) => s@ == Some(t@),
            },
    {
        TokenSlot { token }
    }

    /// The cached credential, if any.
    pub fn cached(&self) -> (t: Option<&Token>)
        ensures
            match t {
                None => self@ is None,
                Some(c) => self@ == Some(c@),
            },
    {
        self.token.as_ref()
    }

    /// Decides what the caller must do to obtain a usable credential as of
    /// the given instant. `UseCached` asks for no network traffic at all.
    pub fn plan_acquire(&self, now: i64) -> (step: AcquireStep)
        ensures
            match self@ {
                None => step is Reauthenticate,
                Some(t) => if !t.expired_at(now as int) {
                    step is UseCached && step->UseCached_0@ == t
                } else {
                    step is RefreshWith && step->RefreshWith_0@ == t.refresh
                },
            },
    {
        match &self.token {
            None => AcquireStep::Reauthenticate,
            Some(t) => if !t.is_expired_at(now) {
                AcquireStep::UseCached(t.clone())
            } else {
                AcquireStep::RefreshWith(t.refresh().clone())
            },
        }
    }

    /// Records what the refresh flow answered. A granted credential fills
    /// the slot and is returned; any refresh failure is swallowed and
    /// answered with `None`, which directs the caller to run the
    /// authorization flow instead.
    pub fn complete_refresh(&mut self, outcome: Result<Token, XTVError>) -> (next: Option<Token>)
        ensures
            match outcome_view(outcome) {
                Ok(t) => final(self)@ == Some(t) && (next matches Some(n) && n@ == t),
                Err(_) => final(self)@ == old(self)@ && next is None,
            },
    {
        match outcome {
            Ok(t) => {
                let out = t.clone();
                self.token = Some(t);
                Some(out)
            },
            Err(_) => None,
        }
    }

    /// Records what the authorization flow answered. A granted credential
    /// fills the slot and is returned; a failure leaves the slot alone and
    /// is surfaced to the caller — there is no further fallback.
    pub fn complete_authentication(&mut self, outcome: Result<Token, XTVError>) -> (r: Result<
        Token,
        XTVError,
    >)
        ensures
            final(self)@ == after_auth(old(self)@, outcome_view(outcome)),
            outcome_view(r) == outcome_view(outcome),
    {
        match outcome {
            Ok(t) => {
                let out = t.clone();
                self.token = Some(t);
                Ok(out)
            },
            Err(e) => Err(e),
        }
    }

    /// One full acquisition, with the two flows' answers supplied as
    /// arguments in place of live network traffic — a flow's answer is
    /// consulted only if the algorithm actually invokes that flow. Returns
    /// the caller's result together with how many times each flow ran.
    pub fn acquire_with(
        &mut self,
        now: i64,
        refresh_outcome: Result<Token, XTVError>,
        auth_outcome: Result<Token, XTVError>,
    ) -> (r: (Result<Token, XTVError>, u8, u8))
        ensures
            ({
                let m = spec_acquire(
                    old(self)@,
                    now as int,
                    outcome_view(refresh_outcome),
                    outcome_view(auth_outcome),
                );
                final(self)@ == m.cached && outcome_view(r.0) == m.outcome && r.1 as int
                    == m.refresh_attempts && r.2 as int == m.auth_attempts
            }),
    {
        let step = self.plan_acquire(now);
        match step {
            AcquireStep::UseCached(t) => (Ok(t), 0, 0),
            AcquireStep::RefreshWith(_) => {
                match self.complete_refresh(refresh_outcome) {
                    Some(t) => (Ok(t), 1, 0),
                    None => {
                        let r = self.complete_authentication(auth_outcome);
                        (r, 1, 1)
                    },
                }
            },
            AcquireStep::Reauthenticate => {
                let r = self.complete_authentication(auth_outcome);
                (r, 0, 1)
            },
        }
    }
}

/// An expired credential is never handed back as-is: the refresh flow is
/// always attempted first, and what the caller receives is an answer one
/// of the two flows produced.
pub proof fn lemma_expired_never_returned_unchanged(
    cached: Option<TokenView>,
    now: int,
    refresh_outcome: Result<TokenView, XTVErrorView>,
    auth_outcome: Result<TokenView, XTVErrorView>,
)
    requires
        cached matches Some(t) && t.expired_at(now),
    ensures
        spec_acquire(cached, now, refresh_outcome, auth_outcome).refresh_attempts == 1,
        spec_acquire(cached, now, refresh_outcome, auth_outcome).outcome == refresh_outcome
            || spec_acquire(cached, now, refresh_outcome, auth_outcome).outcome == auth_outcome,
{
}

/// A credential whose expiry lies in the future is returned unchanged,
/// and neither flow — hence no network call — is made.
pub proof fn lemma_fresh_credential_reused(
    cached: Option<TokenView>,
    now: int,
    refresh_outcome: Result<TokenView, XTVErrorView>,
    auth_outcome: Result<TokenView, XTVErrorView>,
)
    requires
        cached matches Some(t) && !t.expired_at(now),
    ensures
        spec_acquire(cached, now, refresh_outcome, auth_outcome) == (AcquireModel {
            cached,
            outcome: Ok(cached->0),
            refresh_attempts: 0,
            auth_attempts: 0,
        }),
{
}

/// A refresh failure is not surfaced: the authorization flow is run
/// exactly once more, and its result — success or failure — is what the
/// caller receives.
pub proof fn lemma_refresh_failure_falls_back(
    cached: Option<TokenView>,
    now: int,
    refresh_outcome: Result<TokenView, XTVErrorView>,
    auth_outcome: Result<TokenView, XTVErrorView>,
)
    requires
        cached matches Some(t) && t.expired_at(now),
        refresh_outcome is Err,
    ensures
        spec_acquire(cached, now, refresh_outcome, auth_outcome).auth_attempts == 1,
        spec_acquire(cached, now, refresh_outcome, auth_outcome).outcome == auth_outcome,
        spec_acquire(cached, now, refresh_outcome, auth_outcome).cached == after_auth(
            cached,
            auth_outcome,
        ),
{
}

/// With no credential cached, the authorization flow is run exactly once
/// and its result is what the caller receives; the refresh flow is never
/// consulted.
pub proof fn lemma_no_credential_authenticates(
    now: int,
    refresh_outcome: Result<TokenView, XTVErrorView>,
    auth_outcome: Result<TokenView, XTVErrorView>,
)
    ensures
        spec_acquire(None, now, refresh_outcome, auth_outcome).refresh_attempts == 0,
        spec_acquire(None, now, refresh_outcome, auth_outcome).auth_attempts == 1,
        spec_acquire(None, now, refresh_outcome, auth_outcome).outcome == auth_outcome,
{
}

} // verus!
