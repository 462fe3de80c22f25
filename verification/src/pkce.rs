//! The PKCE challenge pair: a randomly generated code verifier, held only for
//! the duration of one authorization-flow run, and the challenge derived
//! from it that is sent along with the authorize URL. Every run generates
//! a fresh pair.
use vstd::prelude::*;
use vstd::string::*;
use vstd::utf8::is_ascii_chars;

verus! {

/// What base64 encoding with the standard alphabet and padding returns:
/// a function of the input bytes alone.
pub uninterp spec fn base64_std_of(bytes: Seq<u8>) -> Seq<char>;

/// Relies on base64's `Engine::encode` with the `STANDARD` engine: the
/// output is four characters for every started group of three input
/// bytes, all from the base64 alphabet (ASCII), and a function of the
/// input bytes alone.
#[verifier::external_body]
pub(crate) fn b64_encode(bytes: &Vec<u8>) -> (r: String)
    ensures
        r@ == base64_std_of(bytes@),
        r@.len() == ((bytes@.len() + 2) / 3) * 4,
        is_ascii_chars(r@),
{
    base64::Engine::encode(&base64::engine::general_purpose::STANDARD, bytes)
}

/// What deriving a PKCE code challenge from a code verifier returns: the
/// base64url (unpadded) encoding of the verifier's SHA-256 digest, a
/// function of the verifier alone.
pub uninterp spec fn pkce_challenge_of(code_verifier: Seq<char>) -> Seq<char>;

/// Relies on oauth2's `PkceCodeChallenge::from_code_verifier_sha256`: the
/// challenge is computed from the verifier alone. The length bounds keep
/// clear of the assertion inside that function, which rejects verifiers
/// outside 43 to 128 bytes.
#[verifier::external_body]
pub(crate) fn derive_challenge(code_verifier: &str) -> (r: String)
    requires
        is_ascii(code_verifier),
        43 <= code_verifier@.len() <= 128,
    ensures
        r@ == pkce_challenge_of(code_verifier@),
{
    let v = oauth2::PkceCodeVerifier::new(code_verifier.to_string());
    oauth2::PkceCodeChallenge::from_code_verifier_sha256(&v).as_str().to_string()
}

/// Relies on `rand::random`: one random byte. Nothing is promised of the
/// value.
#[verifier::external_body]
fn random_u8() -> u8 {
    rand::random::<u8>()
}

fn random_bytes(n: usize) -> (v: Vec<u8>)
    ensures
        v@.len() == n as int,
{
    let mut v: Vec<u8> = Vec::new();
    let mut i: usize = 0;
    while i < n
        invariant
            i <= n,
            v@.len() == i as int,
        decreases n - i,
    {
        v.push(random_u8());
        i += 1;
    }
    v
}

/// A fresh code verifier: 32 random bytes, base64-encoded to 44 characters.
pub fn new_random_challenge() -> (s: String)
    ensures
        s@.len() == 44,
        is_ascii_chars(s@),
{
    let bytes = random_bytes(32);
    b64_encode(&bytes)
}

/// A fresh anti-forgery state token: 16 random bytes, base64-encoded to
/// 24 characters.
pub fn new_random_state() -> (s: String)
    ensures
        s@.len() == 24,
        is_ascii_chars(s@),
{
    let bytes = random_bytes(16);
    b64_encode(&bytes)
}

/// A PKCE code verifier together with the challenge derived from it.
pub struct PkcePair {
    code_verifier: String,
    challenge: String,
}

/// The mathematical content of a [`PkcePair`].
pub struct PkcePairView {
    pub code_verifier: Seq<char>,
    pub challenge: Seq<char>,
}

impl View for PkcePair {
    type V = PkcePairView;

    closed spec fn view(&self) -> PkcePairView {
        PkcePairView { code_verifier: self.code_verifier@, challenge: self.challenge@ }
    }
}

impl PkcePairView {
    /// The pair's one invariant: the challenge is exactly the one derived
    /// from the verifier.
    pub open spec fn wf(self) -> bool {
        self.challenge == pkce_challenge_of(self.code_verifier)
    }
}

impl PkcePair {
    /// Derives the challenge for a caller-supplied verifier.
    pub fn from_verifier(code_verifier: String) -> (p: PkcePair)
        requires
            is_ascii_chars(code_verifier@),
            43 <= code_verifier@.len() <= 128,
        ensures
            p@.wf(),
            p@.code_verifier == code_verifier@,
    {
        let challenge = derive_challenge(code_verifier.as_str());
        PkcePair { code_verifier, challenge }
    }

    /// Generates a fresh random pair.
    pub fn generate() -> (p: PkcePair)
        ensures
            p@.wf(),
            p@.code_verifier.len() == 44,
    {
        let code_verifier = new_random_challenge();
        PkcePair::from_verifier(code_verifier)
    }

    /// The code verifier, presented at the token exchange.
    pub fn code_verifier(&self) -> (v: &String)
        ensures
            v@ == self@.code_verifier,
    {
        &self.code_verifier
    }

    /// The challenge, sent in the authorize URL.
    pub fn challenge(&self) -> (c: &String)
        ensures
            c@ == self@.challenge,
    {
        &self.challenge
    }
}

} // verus!
