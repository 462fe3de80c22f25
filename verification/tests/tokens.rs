use xtv::errors::ErrorKind;
use xtv::errors::XTVError;
use xtv::recordings::Recording;
use xtv::search::{Entity, SearchResult};
use xtv::token::Token;

#[test]
fn from_response_computes_the_expiry() {
    let t = Token::from_response(
        "A1".to_string(),
        Some("R1".to_string()),
        None,
        Some(3600),
        1000,
    )
    .unwrap();
    assert_eq!(t.access().as_str(), "A1");
    assert_eq!(t.refresh().as_str(), "R1");
    assert_eq!(t.expiry(), 4600);
}

#[test]
fn from_response_carries_the_prior_refresh_token_forward() {
    let t = Token::from_response(
        "A2".to_string(),
        None,
        Some("R-old".to_string()),
        Some(60),
        0,
    )
    .unwrap();
    assert_eq!(t.refresh().as_str(), "R-old");

    // A rotated refresh token wins over the prior one.
    let rotated = Token::from_response(
        "A3".to_string(),
        Some("R-new".to_string()),
        Some("R-old".to_string()),
        Some(60),
        0,
    )
    .unwrap();
    assert_eq!(rotated.refresh().as_str(), "R-new");
}

#[test]
fn from_response_rejects_a_missing_lifetime() {
    let err = Token::from_response("A".to_string(), Some("R".to_string()), None, None, 0)
        .expect_err("no lifetime");
    assert_eq!(err.kind(), ErrorKind::Protocol);
}

#[test]
fn from_response_rejects_a_missing_refresh_token() {
    let err = Token::from_response("A".to_string(), None, None, Some(60), 0)
        .expect_err("no refresh token anywhere");
    assert_eq!(err.kind(), ErrorKind::Auth);
}

#[test]
fn from_response_rejects_an_overflowing_lifetime() {
    let err = Token::from_response(
        "A".to_string(),
        Some("R".to_string()),
        None,
        Some(u64::MAX),
        1,
    )
    .expect_err("lifetime overflows the timestamp");
    assert_eq!(err.kind(), ErrorKind::Protocol);

    let err2 = Token::from_response(
        "A".to_string(),
        Some("R".to_string()),
        None,
        Some(10),
        i64::MAX - 5,
    )
    .expect_err("expiry past the representable range");
    assert_eq!(err2.kind(), ErrorKind::Protocol);
}

#[test]
fn expiry_far_in_the_future_is_not_expired_now() {
    let t = Token::new("A".to_string(), "R".to_string(), i64::MAX);
    assert!(!t.is_expired());
    let past = Token::new("A".to_string(), "R".to_string(), 0);
    assert!(past.is_expired());
}

#[test]
fn error_kinds_are_distinguishable() {
    let kinds = [
        ErrorKind::Network,
        ErrorKind::Protocol,
        ErrorKind::Auth,
        ErrorKind::NotFound,
        ErrorKind::Persistence,
    ];
    for k in kinds {
        let e = XTVError::new(k, "m".to_string());
        assert_eq!(e.kind(), k);
        assert_eq!(e.message().as_str(), "m");
        assert_eq!(e.clone().kind(), k);
    }
}

#[test]
fn record_types_hold_their_fields() {
    let rec = Recording::new("Movie".to_string(), 1_700_000_000, "m-1".to_string());
    assert_eq!(rec.title().as_str(), "Movie");
    assert_eq!(rec.date_recorded(), 1_700_000_000);
    assert_eq!(rec.media_id().as_str(), "m-1");
    assert_eq!(rec.clone().title().as_str(), "Movie");

    let ent = Entity::new(7, "Show".to_string(), "About a show".to_string());
    let res = SearchResult::new("Show".to_string(), "S1".to_string(), ent);
    assert_eq!(res.name().as_str(), "Show");
    assert_eq!(res.subtitle().as_str(), "S1");
    assert_eq!(res.entity().merlin_id(), 7);
    assert_eq!(res.entity().description().as_str(), "About a show");
}
