use xtv::channels::group_channels;
use xtv::channels::Channel;
use xtv::errors::ErrorKind;
use xtv::response::{classify_response, ResponseKind, XTVResponse};
use xtv::strutil::{parse_u16, str_eq, u16_to_string, urlencode};
use xtv::{needs_channel_map, tune_request, TuningTarget};

#[test]
fn parse_u16_accepts_what_std_accepts() {
    assert_eq!(parse_u16("0"), Some(0));
    assert_eq!(parse_u16("2"), Some(2));
    assert_eq!(parse_u16("+7"), Some(7));
    assert_eq!(parse_u16("0042"), Some(42));
    assert_eq!(parse_u16("65535"), Some(65535));
    assert_eq!(parse_u16("65536"), None);
    assert_eq!(parse_u16("99999999999999999999"), None);
    assert_eq!(parse_u16(""), None);
    assert_eq!(parse_u16("+"), None);
    assert_eq!(parse_u16("-1"), None);
    assert_eq!(parse_u16("12a"), None);
    assert_eq!(parse_u16(" 1"), None);
    // Cross-check against the standard library on a few samples.
    for s in ["0", "2", "+7", "0042", "65535", "65536", "", "+", "-1", "12a", " 1"] {
        assert_eq!(parse_u16(s), s.parse::<u16>().ok(), "sample {:?}", s);
    }
}

#[test]
fn u16_to_string_formats_decimal() {
    assert_eq!(u16_to_string(0).as_str(), "0");
    assert_eq!(u16_to_string(7).as_str(), "7");
    assert_eq!(u16_to_string(42).as_str(), "42");
    assert_eq!(u16_to_string(65535).as_str(), "65535");
}

#[test]
fn str_eq_compares_contents() {
    assert!(str_eq("", ""));
    assert!(str_eq("abc", "abc"));
    assert!(!str_eq("abc", "abd"));
    assert!(!str_eq("abc", "abcd"));
}

#[test]
fn classify_response_knows_the_four_kinds() {
    assert_eq!(classify_response("Enumeration/ChannelMap").unwrap(), ResponseKind::Channels);
    assert_eq!(classify_response("Enumeration/Device").unwrap(), ResponseKind::Devices);
    assert_eq!(classify_response("Enumeration/Recording").unwrap(), ResponseKind::Recordings);
    assert_eq!(
        classify_response("Enumeration/SearchResult").unwrap(),
        ResponseKind::SearchResults
    );
    let err = classify_response("Enumeration/Nonsense").expect_err("unknown discriminator");
    assert_eq!(err.kind(), ErrorKind::Protocol);
}

#[test]
fn response_envelope_hands_out_its_records() {
    let envelope = XTVResponse::Channels(vec![Channel::new(
        "Alpha".to_string(),
        2,
        "ABC".to_string(),
        false,
    )]);
    let records = envelope.channels();
    assert_eq!(records.len(), 1);
    assert_eq!(records[0].call_sign().as_str(), "ABC");
}

#[test]
fn tune_by_number_normalizes_the_number() {
    let (path, param, value) =
        tune_request(&TuningTarget::Channel, &"0042".to_string(), "x1-1", None);
    assert_eq!(path.as_str(), "/devices/x1-1/remote/tune/channel/");
    assert_eq!(param.as_str(), "channelNumber");
    assert_eq!(value.as_str(), "42");
}

#[test]
fn tune_by_call_sign_resolves_through_the_directory() {
    let m = group_channels(vec![
        Channel::new("Alpha".to_string(), 2, "ABC".to_string(), false),
        Channel::new("Alpha HD".to_string(), 502, "ABC".to_string(), true),
    ]);
    assert!(needs_channel_map(&TuningTarget::Channel, "abc"));
    let (_, _, value) = tune_request(&TuningTarget::Channel, &"abc".to_string(), "x1-1", Some(&m));
    // The first listed channel's number wins.
    assert_eq!(value.as_str(), "2");

    // An unknown call sign passes through unchanged.
    let (_, _, raw) = tune_request(&TuningTarget::Channel, &"zzz".to_string(), "x1-1", Some(&m));
    assert_eq!(raw.as_str(), "zzz");
}

#[test]
fn tune_to_media_uses_the_identifier_as_is() {
    let (path, param, value) =
        tune_request(&TuningTarget::Recording, &"m-123".to_string(), "x1-1", None);
    assert_eq!(path.as_str(), "/devices/x1-1/remote/tune/recording/");
    assert_eq!(param.as_str(), "mediaId");
    assert_eq!(value.as_str(), "m-123");

    let (vod_path, vod_param, _) =
        tune_request(&TuningTarget::VOD, &"v-9".to_string(), "x1-1", None);
    assert_eq!(vod_path.as_str(), "/devices/x1-1/remote/tune/vod/");
    assert_eq!(vod_param.as_str(), "mediaId");
    assert!(!needs_channel_map(&TuningTarget::VOD, "v-9"));
    assert!(!needs_channel_map(&TuningTarget::Channel, "42"));
}

#[test]
fn urlencode_agrees_with_a_reference_on_ascii() {
    let input = "A z~!*'();:@&=+$,/?#[]-._";
    let encoded = urlencode(input);
    let mut expected = String::new();
    for b in input.bytes() {
        let unreserved = b.is_ascii_alphanumeric() || matches!(b, b'-' | b'.' | b'_' | b'~');
        if unreserved {
            expected.push(b as char);
        } else {
            expected.push('%');
            expected.push(char::from_digit((b >> 4) as u32, 16).unwrap().to_ascii_uppercase());
            expected.push(char::from_digit((b & 15) as u32, 16).unwrap().to_ascii_uppercase());
        }
    }
    assert_eq!(encoded.as_str(), expected.as_str());
}
