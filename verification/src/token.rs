//! The credential: an access/refresh token pair with an absolute expiry
//! timestamp. A credential is either fully present or entirely absent;
//! it is replaced, never mutated in place.
use vstd::prelude::*;

use crate::errors::ErrorKind;
use crate::errors::XTVError;

verus! {

/// The access/refresh token pair used to authenticate outbound calls,
/// with its expiry as seconds since the Unix epoch.
#[derive(Debug)]
pub struct Token {
    access: String,
    refresh: String,
    expiry: i64,
}

/// The mathematical content of a [`Token`].
pub struct TokenView {
    pub access: Seq<char>,
    pub refresh: Seq<char>,
    pub expiry: int,
}

impl View for Token {
    type V = TokenView;

    closed spec fn view(&self) -> TokenView {
        TokenView { access: self.access@, refresh: self.refresh@, expiry: self.expiry as int }
    }
}

impl Clone for Token {
    fn clone(&self) -> (r: Self)
        ensures
            r@ == self@,
    {
        Token { access: self.access.clone(), refresh: self.refresh.clone(), expiry: self.expiry }
    }
}

impl TokenView {
    /// A credential is expired once the clock has moved past its expiry.
    pub open spec fn expired_at(self, now: int) -> bool {
        now > self.expiry
    }
}

/// Relies on `chrono::Local::now` and `chrono::DateTime::timestamp`: the
/// current wall-clock time as seconds since the Unix epoch. Nothing is
/// promised of the value.
#[verifier::external_body]
pub(crate) fn now_seconds() -> i64 {
    chrono::Local::now().timestamp()
}

/// What building a credential out of a token-endpoint response yields:
/// `access` is taken as-is; the refresh token is the response's, or the
/// prior one where the provider did not rotate it; the expiry is the
/// current time plus the reported lifetime. A response without a lifetime
/// or without any refresh token is rejected, as is a lifetime that would
/// push the expiry beyond what a timestamp can hold.
pub open spec fn spec_token_from_response(
    access: Seq<char>,
    refresh: Option<Seq<char>>,
    prior_refresh: Option<Seq<char>>,
    expires_in: Option<u64>,
    now: int,
) -> Result<TokenView, ErrorKind> {
    match expires_in {
        None => Err(ErrorKind::Protocol),
        Some(lifetime) => if lifetime > i64::MAX || now + lifetime > i64::MAX {
            Err(ErrorKind::Protocol)
        } else {
            match (refresh, prior_refresh) {
                (None, None) => Err(ErrorKind::Auth),
                (Some(r), _) => Ok(TokenView { access, refresh: r, expiry: now + lifetime }),
                (None, Some(r)) => Ok(TokenView { access, refresh: r, expiry: now + lifetime }),
            }
        },
    }
}

impl Token {
    /// Assembles a credential from its parts, e.g. as read back from
    /// persistent storage.
    pub fn new(access: String, refresh: String, expiry: i64) -> (t: Token)
        ensures
            t@.access == access@,
            t@.refresh == refresh@,
            t@.expiry == expiry as int,
    {
        Token { access, refresh, expiry }
    }

    /// Builds a credential out of the fields of a token-endpoint response,
    /// carrying the prior refresh token forward where the provider did not
    /// return a new one.
    pub fn from_response(
        access: String,
        refresh: Option<String>,
        prior_refresh: Option<String>,
        expires_in: Option<u64>,
        now: i64,
    ) -> (r: Result<Token, XTVError>)
        ensures
            match spec_token_from_response(
                access@,
                option_view(refresh),
                option_view(prior_refresh),
                expires_in,
                now as int,
            ) {
                Ok(t) => r is Ok && r->Ok_0@ == t,
                Err(kind) => r is Err && r->Err_0@.kind == kind,
            },
    {
        let lifetime = match expires_in {
            None => {
                return Err(
                    XTVError::new(
                        ErrorKind::Protocol,
                        String::from_str("token response carries no lifetime"),
                    ),
                );
            },
            Some(lifetime) => lifetime,
        };
        if lifetime > (i64::MAX as u64) || now > i64::MAX - (lifetime as i64) {
            return Err(
                XTVError::new(
                    ErrorKind::Protocol,
                    String::from_str("token lifetime overflows the expiry timestamp"),
                ),
            );
        }
        let expiry: i64 = now + (lifetime as i64);
        match (refresh, prior_refresh) {
            (None, None) => Err(
                XTVError::new(
                    ErrorKind::Auth,
                    String::from_str("token response carries no refresh token"),
                ),
            ),
            (Some(r), _) => Ok(Token { access, refresh: r, expiry }),
            (None, Some(r)) => Ok(Token { access, refresh: r, expiry }),
        }
    }

    /// The bearer string presented to the API.
    pub fn access(&self) -> (a: &String)
        ensures
            a@ == self@.access,
    {
        &self.access
    }

    /// The token presented to the provider to obtain a fresh credential.
    pub fn refresh(&self) -> (r: &String)
        ensures
            r@ == self@.refresh,
    {
        &self.refresh
    }

    /// The expiry as seconds since the Unix epoch.
    pub fn expiry(&self) -> (e: i64)
        ensures
            e as int == self@.expiry,
    {
        self.expiry
    }

    /// Whether the credential is expired as of the given instant.
    pub fn is_expired_at(&self, now: i64) -> (r: bool)
        ensures
            r == self@.expired_at(now as int),
    {
        now > self.expiry
    }

    /// Whether the credential is expired as of the wall clock now. The
    /// clock's reading is outside the library's control; callers that need
    /// a pinned-down answer use [`Token::is_expired_at`].
    pub fn is_expired(&self) -> bool {
        self.is_expired_at(now_seconds())
    }
}

/// The views of an optional string.
pub open spec fn option_view(o: Option<String>) -> Option<Seq<char>> {
    match o {
        None => None,
        Some(s) => Some(s@),
    }
}

} // verus!
