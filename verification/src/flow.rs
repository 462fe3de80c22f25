//! The authorization flow's verified core: one run generates a fresh PKCE
//! pair and a fresh anti-forgery state token, and builds the authorize URL
//! that carries the pair's challenge. The host then starts the callback
//! listener, opens the system browser on the URL, awaits the listener's
//! handoff, and turns the token-endpoint response into a credential with
//! [`crate::token::Token::from_response`].
use vstd::prelude::*;

use crate::oauth::authorize_url;
use crate::oauth::authorize_url_prefix;
use crate::oauth::spec_authorize_url;
use crate::oauth::Config;
use crate::oauth::ConfigView;
use crate::pkce::new_random_state;
use crate::pkce::pkce_challenge_of;
use crate::pkce::PkcePair;
use crate::pkce::PkcePairView;

verus! {

/// One authorization-flow run's fixed data: the PKCE pair, the state
/// token, and the authorize URL built from them.
pub struct AuthAttempt {
    pair: PkcePair,
    state_token: String,
    url: String,
}

/// The mathematical content of an [`AuthAttempt`].
pub struct AuthAttemptView {
    pub pair: PkcePairView,
    pub state_token: Seq<char>,
    pub url: Seq<char>,
}

impl View for AuthAttempt {
    type V = AuthAttemptView;

    closed spec fn view(&self) -> AuthAttemptView {
        AuthAttemptView {
            pair: self.pair@,
            state_token: self.state_token@,
            url: self.url@,
        }
    }
}

impl AuthAttemptView {
    /// A prepared attempt: the challenge is derived from the attempt's own
    /// verifier, and the URL is the authorize URL carrying exactly that
    /// challenge and this run's state token.
    pub open spec fn prepared_for(self, cfg: ConfigView) -> bool {
        self.pair.wf() && self.url == spec_authorize_url(cfg, self.state_token, self.pair.challenge)
    }
}

impl AuthAttempt {
    /// Step one of the authorization flow: generate a fresh PKCE pair and
    /// state token, and build the authorize URL.
    pub fn prepare(cfg: &Config) -> (a: AuthAttempt)
        requires
            cfg@.wf(),
        ensures
            a@.prepared_for(cfg@),
            a@.pair.code_verifier.len() == 44,
    {
        let pair = PkcePair::generate();
        let state_token = new_random_state();
        let url = authorize_url(cfg, state_token.as_str(), pair.challenge().as_str());
        AuthAttempt { pair, state_token, url }
    }

    /// The PKCE pair of this run.
    pub fn pair(&self) -> (p: &PkcePair)
        ensures
            p@ == self@.pair,
    {
        &self.pair
    }

    /// The anti-forgery state token of this run.
    pub fn state_token(&self) -> (s: &String)
        ensures
            s@ == self@.state_token,
    {
        &self.state_token
    }

    /// The authorize URL to open in the system browser.
    pub fn url(&self) -> (u: &String)
        ensures
            u@ == self@.url,
    {
        &self.url
    }
}

/// PKCE round trip: in a prepared attempt, the challenge sent in the
/// authorize URL is exactly the challenge derived from the verifier
/// generated in the same run — the URL is the authorize prefix followed by
/// `pkce_challenge_of` of that verifier.
pub proof fn lemma_prepared_url_carries_verifier_challenge(a: AuthAttemptView, cfg: ConfigView)
    requires
        a.prepared_for(cfg),
    ensures
        a.url == authorize_url_prefix(cfg, a.state_token) + pkce_challenge_of(
            a.pair.code_verifier,
        ),
{
}

} // verus!
