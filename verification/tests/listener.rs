use xtv::errors::{ErrorKind, XTVError};
use xtv::server::CallbackListener;
use xtv::token::Token;

fn token(access: &str) -> Token {
    Token::new(access.to_string(), "R".to_string(), 1000)
}

#[test]
fn listener_serves_exactly_one_request() {
    let mut l = CallbackListener::start();
    assert!(!l.served());
    assert!(!l.stop_requested());

    assert!(l.handle_callback(Ok(token("FIRST"))));
    assert!(l.served());
    assert!(l.stop_requested());

    // The second request is rejected and changes nothing.
    assert!(!l.handle_callback(Ok(token("SECOND"))));
    assert!(l.served());

    let delivered = l.into_outcome().expect("one outcome was delivered");
    assert_eq!(delivered.unwrap().access().as_str(), "FIRST");
}

#[test]
fn listener_stops_only_with_a_delivered_outcome() {
    let mut l = CallbackListener::start();
    // Before any request there is no stop signal and no outcome.
    assert!(!l.stop_requested());

    assert!(l.handle_callback(Err(XTVError::new(
        ErrorKind::Auth,
        "exchange failed".to_string()
    ))));
    // The failure is still delivered to the waiting flow, and only then is
    // the stop signalled.
    assert!(l.stop_requested());
    let delivered = l.into_outcome().expect("the failure must be observable");
    assert_eq!(delivered.expect_err("an exchange failure").kind(), ErrorKind::Auth);
}

#[test]
fn fresh_listener_has_no_outcome() {
    let l = CallbackListener::start();
    assert!(l.into_outcome().is_none());
}
