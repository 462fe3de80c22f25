use xtv::errors::{ErrorKind, XTVError};
use xtv::lifecycle::{AcquireStep, TokenSlot};
use xtv::token::Token;

fn token(access: &str, refresh: &str, expiry: i64) -> Token {
    Token::new(access.to_string(), refresh.to_string(), expiry)
}

fn auth_error(msg: &str) -> XTVError {
    XTVError::new(ErrorKind::Auth, msg.to_string())
}

fn network_error(msg: &str) -> XTVError {
    XTVError::new(ErrorKind::Network, msg.to_string())
}

#[test]
fn fresh_credential_is_reused_without_any_flow() {
    // Both stub flows would fail; a valid cached credential must make
    // acquisition succeed without consulting either.
    let mut slot = TokenSlot::with_token(Some(token("A1", "R1", 5000)));
    let (result, refreshes, auths) =
        slot.acquire_with(4999, Err(network_error("down")), Err(auth_error("denied")));
    let got = result.expect("fresh credential must be returned");
    assert_eq!(got.access().as_str(), "A1");
    assert_eq!(got.refresh().as_str(), "R1");
    assert_eq!(refreshes, 0);
    assert_eq!(auths, 0);
}

#[test]
fn boundary_instant_is_not_expired() {
    let t = token("A1", "R1", 5000);
    assert!(!t.is_expired_at(5000));
    assert!(t.is_expired_at(5001));
}

#[test]
fn expired_credential_is_never_returned_unchanged() {
    let mut slot = TokenSlot::with_token(Some(token("OLD", "R1", 100)));
    let (result, refreshes, _auths) = slot.acquire_with(
        101,
        Ok(token("NEW", "R2", 4000)),
        Err(auth_error("unused")),
    );
    let got = result.expect("refresh outcome should be adopted");
    assert_eq!(got.access().as_str(), "NEW");
    assert_eq!(refreshes, 1);
    // The slot now holds the refreshed credential.
    assert_eq!(slot.cached().unwrap().access().as_str(), "NEW");
}

#[test]
fn refresh_failure_falls_back_to_one_authorization_run() {
    let mut slot = TokenSlot::with_token(Some(token("OLD", "R1", 100)));
    let (result, refreshes, auths) = slot.acquire_with(
        200,
        Err(network_error("refresh endpoint down")),
        Ok(token("FRESH", "R9", 9000)),
    );
    let got = result.expect("the fallback authorization result must be returned");
    assert_eq!(got.access().as_str(), "FRESH");
    assert_eq!(refreshes, 1);
    assert_eq!(auths, 1);
    assert_eq!(slot.cached().unwrap().access().as_str(), "FRESH");
}

#[test]
fn refresh_failure_fallback_surfaces_the_authorization_error_not_the_refresh_error() {
    let mut slot = TokenSlot::with_token(Some(token("OLD", "R1", 100)));
    let (result, refreshes, auths) = slot.acquire_with(
        200,
        Err(network_error("refresh transport failure")),
        Err(auth_error("user abandoned the browser")),
    );
    let err = result.expect_err("both flows failed");
    assert_eq!(err.kind(), ErrorKind::Auth);
    assert_eq!(err.message().as_str(), "user abandoned the browser");
    assert_eq!(refreshes, 1);
    assert_eq!(auths, 1);
    // A failed fallback leaves the stale credential in place.
    assert_eq!(slot.cached().unwrap().access().as_str(), "OLD");
}

#[test]
fn no_credential_runs_the_authorization_flow_once() {
    let mut slot = TokenSlot::new();
    assert!(slot.cached().is_none());
    let (result, refreshes, auths) = slot.acquire_with(
        0,
        Err(network_error("unused")),
        Ok(token("FIRST", "R1", 3600)),
    );
    assert_eq!(result.unwrap().access().as_str(), "FIRST");
    assert_eq!(refreshes, 0);
    assert_eq!(auths, 1);
}

#[test]
fn plan_asks_for_the_right_step() {
    let empty = TokenSlot::new();
    assert!(matches!(empty.plan_acquire(0), AcquireStep::Reauthenticate));

    let fresh = TokenSlot::with_token(Some(token("A", "R", 1000)));
    match fresh.plan_acquire(999) {
        AcquireStep::UseCached(t) => assert_eq!(t.access().as_str(), "A"),
        _ => panic!("a fresh credential must be reused"),
    }

    let stale = TokenSlot::with_token(Some(token("A", "R", 1000)));
    match stale.plan_acquire(1001) {
        AcquireStep::RefreshWith(r) => assert_eq!(r.as_str(), "R"),
        _ => panic!("an expired credential must be refreshed"),
    }
}

#[test]
fn complete_refresh_swallows_failures() {
    let mut slot = TokenSlot::with_token(Some(token("OLD", "R1", 100)));
    let next = slot.complete_refresh(Err(network_error("revoked")));
    assert!(next.is_none());
    assert_eq!(slot.cached().unwrap().access().as_str(), "OLD");

    let adopted = slot.complete_refresh(Ok(token("NEW", "R2", 900)));
    assert_eq!(adopted.unwrap().access().as_str(), "NEW");
    assert_eq!(slot.cached().unwrap().access().as_str(), "NEW");
}

#[test]
fn complete_authentication_surfaces_failures() {
    let mut slot = TokenSlot::new();
    let err = slot
        .complete_authentication(Err(auth_error("bind failed")))
        .expect_err("failure must surface");
    assert_eq!(err.kind(), ErrorKind::Auth);
    assert!(slot.cached().is_none());

    let ok = slot.complete_authentication(Ok(token("T", "R", 10)));
    assert_eq!(ok.unwrap().access().as_str(), "T");
    assert_eq!(slot.cached().unwrap().access().as_str(), "T");
}

#[test]
fn end_to_end_fresh_process_then_clock_forward() {
    // Fresh process, no persisted credential: one authorization run with a
    // stub provider granting access "A1", refresh "R1", lifetime 3600 s.
    let now = 1_000_000i64;
    let granted = Token::from_response(
        "A1".to_string(),
        Some("R1".to_string()),
        None,
        Some(3600),
        now,
    )
    .expect("a well-formed grant");
    assert_eq!(granted.expiry(), now + 3600);

    let mut slot = TokenSlot::new();
    let (result, refreshes, auths) =
        slot.acquire_with(now, Err(network_error("unused")), Ok(granted));
    let got = result.unwrap();
    assert_eq!(got.access().as_str(), "A1");
    assert!(!got.is_expired_at(now));
    assert_eq!((refreshes, auths), (0, 1));

    // Fast-forward the clock 3601 s: the next acquisition must attempt
    // exactly one refresh.
    let later = now + 3601;
    assert!(slot.cached().unwrap().is_expired_at(later));
    let refreshed = Token::from_response(
        "A2".to_string(),
        None,
        Some("R1".to_string()),
        Some(3600),
        later,
    )
    .unwrap();
    let (result2, refreshes2, auths2) =
        slot.acquire_with(later, Ok(refreshed), Err(auth_error("unused")));
    assert_eq!(result2.unwrap().access().as_str(), "A2");
    assert_eq!(refreshes2, 1);
    assert_eq!(auths2, 0);
}
