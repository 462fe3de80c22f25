use xtv::pkce::{new_random_challenge, new_random_state, PkcePair};

const B64: &str = "ABCDEFGHIJKLMNOPQRSTUVWXYZabcdefghijklmnopqrstuvwxyz0123456789+/=";

#[test]
fn known_verifier_hashes_to_the_published_challenge() {
    // The S256 example pair from the PKCE specification.
    let pair = PkcePair::from_verifier("dBjftJeZ4CVP-mB92K27uhbUJU1p1r_wW1gFWFOEjXk".to_string());
    assert_eq!(
        pair.challenge().as_str(),
        "E9Melhoa2OwvFrEMTJguCHaoeK1t8URWbuGJSstw-cM"
    );
    assert_eq!(
        pair.code_verifier().as_str(),
        "dBjftJeZ4CVP-mB92K27uhbUJU1p1r_wW1gFWFOEjXk"
    );
}

#[test]
fn generated_pair_has_fresh_verifier_and_derived_challenge() {
    let pair = PkcePair::generate();
    assert_eq!(pair.code_verifier().chars().count(), 44);
    assert_eq!(pair.challenge().chars().count(), 43);
    // The challenge is a digest, never the verifier itself.
    assert_ne!(pair.challenge(), pair.code_verifier());

    // Two runs generate distinct pairs.
    let other = PkcePair::generate();
    assert_ne!(pair.code_verifier(), other.code_verifier());
}

#[test]
fn random_challenge_is_44_base64_characters() {
    let c = new_random_challenge();
    assert_eq!(c.chars().count(), 44);
    assert!(c.chars().all(|ch| B64.contains(ch)));
}

#[test]
fn random_state_is_24_base64_characters() {
    let s = new_random_state();
    assert_eq!(s.chars().count(), 24);
    assert!(s.chars().all(|ch| B64.contains(ch)));
}
