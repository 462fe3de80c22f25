//! The OAuth client configuration and the provider URLs built from it.
//! The configuration is immutable for the process lifetime.
use vstd::prelude::*;
use vstd::string::*;
use vstd::utf8::is_ascii_chars;

use crate::strutil::percent_encoded;
use crate::strutil::urlencode;

verus! {

/// The client identifier and secret issued by the provider.
#[derive(Debug)]
pub struct ClientCredentials {
    client_id: String,
    client_secret: String,
}

/// The mathematical content of a [`ClientCredentials`].
pub struct ClientCredentialsView {
    pub client_id: Seq<char>,
    pub client_secret: Seq<char>,
}

impl View for ClientCredentials {
    type V = ClientCredentialsView;

    closed spec fn view(&self) -> ClientCredentialsView {
        ClientCredentialsView { client_id: self.client_id@, client_secret: self.client_secret@ }
    }
}

impl Clone for ClientCredentials {
    fn clone(&self) -> (r: Self)
        ensures
            r@ == self@,
    {
        ClientCredentials {
            client_id: self.client_id.clone(),
            client_secret: self.client_secret.clone(),
        }
    }
}

impl ClientCredentials {
    pub fn new(client_id: String, client_secret: String) -> (c: ClientCredentials)
        ensures
            c@.client_id == client_id@,
            c@.client_secret == client_secret@,
    {
        ClientCredentials { client_id, client_secret }
    }

    pub fn client_id(&self) -> (r: &String)
        ensures
            r@ == self@.client_id,
    {
        &self.client_id
    }

    pub fn client_secret(&self) -> (r: &String)
        ensures
            r@ == self@.client_secret,
    {
        &self.client_secret
    }
}

/// The OAuth client configuration: the provider host, the local redirect
/// URI, and the client credentials.
#[derive(Debug)]
pub struct Config {
    auth_host: String,
    redirect: String,
    creds: ClientCredentials,
}

/// The mathematical content of a [`Config`].
pub struct ConfigView {
    pub auth_host: Seq<char>,
    pub redirect: Seq<char>,
    pub creds: ClientCredentialsView,
}

impl View for Config {
    type V = ConfigView;

    closed spec fn view(&self) -> ConfigView {
        ConfigView { auth_host: self.auth_host@, redirect: self.redirect@, creds: self.creds@ }
    }
}

impl Clone for Config {
    fn clone(&self) -> (r: Self)
        ensures
            r@ == self@,
    {
        Config {
            auth_host: self.auth_host.clone(),
            redirect: self.redirect.clone(),
            creds: self.creds.clone(),
        }
    }
}

impl ConfigView {
    /// URL components must be ASCII (an internationalized host belongs in
    /// the configuration in its punycoded form).
    pub open spec fn wf(self) -> bool {
        is_ascii_chars(self.auth_host) && is_ascii_chars(self.redirect) && is_ascii_chars(
            self.creds.client_id,
        ) && is_ascii_chars(self.creds.client_secret)
    }
}

impl Config {
    pub fn new(auth_host: String, redirect: String, creds: ClientCredentials) -> (c: Config)
        ensures
            c@.auth_host == auth_host@,
            c@.redirect == redirect@,
            c@.creds == creds@,
    {
        Config { auth_host, redirect, creds }
    }

    pub fn auth_host(&self) -> (r: &String)
        ensures
            r@ == self@.auth_host,
    {
        &self.auth_host
    }

    pub fn redirect(&self) -> (r: &String)
        ensures
            r@ == self@.redirect,
    {
        &self.redirect
    }

    pub fn creds(&self) -> (r: &ClientCredentials)
        ensures
            r@ == self@.creds,
    {
        &self.creds
    }

    /// Whether every URL component of the configuration is ASCII, as
    /// [`ConfigView::wf`] asks.
    pub fn check_ascii(&self) -> (r: bool)
        ensures
            r == self@.wf(),
    {
        self.auth_host.as_str().is_ascii() && self.redirect.as_str().is_ascii()
            && self.creds.client_id.as_str().is_ascii()
            && self.creds.client_secret.as_str().is_ascii()
    }
}

/// Everything of the authorize URL that precedes the PKCE challenge: the
/// provider's authorize endpoint with the client identifier, the redirect
/// URI, the response type, the anti-forgery state token, and the
/// challenge method. The challenge value itself comes last.
pub open spec fn authorize_url_prefix(cfg: ConfigView, state: Seq<char>) -> Seq<char> {
    "https://"@ + cfg.auth_host + "/oauth/authorize"@ + "?client_id="@ + percent_encoded(
        cfg.creds.client_id,
    ) + "&redirect_uri="@ + percent_encoded(cfg.redirect) + "&response_type=code"@ + "&state="@
        + percent_encoded(state) + "&code_challenge_method=S256"@ + "&code_challenge="@
}

/// The full authorize URL: the prefix above, then the PKCE challenge. The
/// challenge is base64url-encoded by construction, so it needs no percent
/// encoding.
pub open spec fn spec_authorize_url(
    cfg: ConfigView,
    state: Seq<char>,
    challenge: Seq<char>,
) -> Seq<char> {
    authorize_url_prefix(cfg, state) + challenge
}

/// Builds the provider's authorize URL.
pub fn authorize_url(cfg: &Config, state: &str, challenge: &str) -> (u: String)
    requires
        cfg@.wf(),
        is_ascii(state),
    ensures
        u@ == spec_authorize_url(cfg@, state@, challenge@),
{
    let mut u = String::new();
    u.append("https://");
    u.append(cfg.auth_host.as_str());
    u.append("/oauth/authorize");
    u.append("?client_id=");
    let client_id = urlencode(cfg.creds.client_id.as_str());
    u.append(client_id.as_str());
    u.append("&redirect_uri=");
    let redirect = urlencode(cfg.redirect.as_str());
    u.append(redirect.as_str());
    u.append("&response_type=code");
    u.append("&state=");
    let st = urlencode(state);
    u.append(st.as_str());
    u.append("&code_challenge_method=S256");
    u.append("&code_challenge=");
    u.append(challenge);
    proof {
        assert(u@ =~= spec_authorize_url(cfg@, state@, challenge@));
    }
    u
}

/// The provider's token endpoint.
pub open spec fn spec_token_endpoint_url(cfg: ConfigView) -> Seq<char> {
    "https://"@ + cfg.auth_host + "/oauth/token"@
}

/// Builds the provider's token endpoint URL.
pub fn token_endpoint_url(cfg: &Config) -> (u: String)
    ensures
        u@ == spec_token_endpoint_url(cfg@),
{
    let mut u = String::new();
    u.append("https://");
    u.append(cfg.auth_host.as_str());
    u.append("/oauth/token");
    proof {
        assert(u@ =~= spec_token_endpoint_url(cfg@));
    }
    u
}

} // verus!
