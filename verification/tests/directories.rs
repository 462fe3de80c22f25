use xtv::cache::LazyCache;
use xtv::channels::{group_channels, Channel, ChannelMap};
use xtv::devices::{key_devices, Device, DeviceMap};
use xtv::errors::ErrorKind;
use xtv::utils::FileBacked;

fn chan(name: &str, number: u16, call_sign: &str, hd: bool) -> Channel {
    Channel::new(name.to_string(), number, call_sign.to_string(), hd)
}

#[test]
fn grouping_groups_same_call_sign_in_arrival_order() {
    // Two records with call sign "ABC" end up as one two-element list,
    // oldest first.
    let m = group_channels(vec![
        chan("Alpha", 2, "ABC", false),
        chan("Alpha HD", 502, "ABC", true),
        chan("Beta", 7, "BET", false),
    ]);
    let abc = m.get(&"ABC".to_string()).expect("ABC must be filed");
    assert_eq!(abc.len(), 2);
    assert_eq!(abc[0].number(), 2);
    assert_eq!(abc[1].number(), 502);
    assert_eq!(abc[0].name().as_str(), "Alpha");
    assert!(abc[1].hd());

    let bet = m.get(&"BET".to_string()).unwrap();
    assert_eq!(bet.len(), 1);
    assert_eq!(bet[0].number(), 7);

    assert!(m.get(&"NOPE".to_string()).is_none());
}

#[test]
fn grouping_normalizes_call_signs_to_uppercase() {
    let m = group_channels(vec![chan("Mixed", 9, "abC", false)]);
    let list = m.get(&"ABC".to_string()).expect("keys are uppercased");
    assert_eq!(list[0].call_sign().as_str(), "ABC");
    // The raw, unnormalized key is not a directory key.
    assert!(m.get(&"abC".to_string()).is_none());
}

#[test]
fn channel_map_insert_and_keys() {
    let mut m = ChannelMap::new();
    assert!(m.insert("ONE".to_string(), vec![chan("One", 1, "ONE", false)]).is_none());
    assert!(m.insert("TWO".to_string(), vec![chan("Two", 2, "TWO", false)]).is_none());
    let replaced = m
        .insert("ONE".to_string(), vec![chan("One again", 11, "ONE", true)])
        .expect("the earlier list is handed back");
    assert_eq!(replaced[0].number(), 1);
    assert_eq!(m.get(&"ONE".to_string()).unwrap()[0].number(), 11);

    let mut keys: Vec<String> = m.keys();
    keys.sort();
    assert_eq!(keys, vec!["ONE".to_string(), "TWO".to_string()]);
}

#[test]
fn channel_map_get_mut_edits_in_place() {
    let mut m = ChannelMap::new();
    m.insert("ONE".to_string(), vec![chan("One", 1, "ONE", false)]);
    m.get_mut(&"ONE".to_string()).push(chan("One more", 101, "ONE", true));
    let list = m.get(&"ONE".to_string()).unwrap();
    assert_eq!(list.len(), 2);
    assert_eq!(list[1].number(), 101);
}

#[test]
fn device_map_keys_are_raw_names() {
    let m = key_devices(vec![
        Device::new("x1-1".to_string(), "Media Room".to_string()),
        Device::new("x1-2".to_string(), "living room".to_string()),
    ]);
    assert_eq!(m.get(&"Media Room".to_string()).unwrap().id().as_str(), "x1-1");
    // No normalization: the uppercased name is not a key.
    assert!(m.get(&"MEDIA ROOM".to_string()).is_none());
    assert_eq!(m.values().len(), 2);
}

#[test]
fn later_device_with_same_name_replaces_the_earlier() {
    let m = key_devices(vec![
        Device::new("x1-1".to_string(), "TV".to_string()),
        Device::new("x1-2".to_string(), "TV".to_string()),
    ]);
    assert_eq!(m.get(&"TV".to_string()).unwrap().id().as_str(), "x1-2");
    assert_eq!(m.values().len(), 1);
}

#[test]
fn lookup_device_answers_not_found() {
    let mut m = DeviceMap::new();
    m.insert("TV".to_string(), Device::new("x1-1".to_string(), "TV".to_string()));
    assert_eq!(m.lookup_device(&"TV".to_string()).unwrap().id().as_str(), "x1-1");
    let err = m.lookup_device(&"Garage".to_string()).expect_err("unknown device");
    assert_eq!(err.kind(), ErrorKind::NotFound);
}

#[test]
fn cache_fetches_at_most_once() {
    // Simulates two lookups: the remote is consulted only while the slot
    // is empty, so the fetch runs exactly once.
    let mut cache: LazyCache<DeviceMap> = LazyCache::from_persisted(None);
    let mut fetches = 0u32;

    for _ in 0..2 {
        if cache.needs_fetch() {
            fetches += 1;
            cache.populate(key_devices(vec![Device::new(
                "x1-1".to_string(),
                "TV".to_string(),
            )]));
        }
        let held = cache.get().expect("populated");
        assert_eq!(held.get(&"TV".to_string()).unwrap().id().as_str(), "x1-1");
    }
    assert_eq!(fetches, 1);
}

#[test]
fn cache_adopts_persisted_content_without_fetching() {
    let persisted = key_devices(vec![Device::new("x1-9".to_string(), "Den".to_string())]);
    let cache = LazyCache::from_persisted(Some(persisted));
    assert!(!cache.needs_fetch());
    assert_eq!(cache.get().unwrap().get(&"Den".to_string()).unwrap().id().as_str(), "x1-9");
}

#[test]
fn empty_cache_reports_a_needed_fetch() {
    let cache: LazyCache<ChannelMap> = LazyCache::empty();
    assert!(cache.needs_fetch());
    assert!(cache.get().is_none());
}

#[test]
fn persisted_files_live_under_the_config_directory() {
    assert_eq!(ChannelMap::path().as_str(), ".config/xtv/channels");
    assert_eq!(DeviceMap::path().as_str(), ".config/xtv/devices");
    assert_eq!(xtv::ClientConfig::path().as_str(), ".config/xtv/config");
}
