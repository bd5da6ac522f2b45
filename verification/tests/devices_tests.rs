use noise_cancellation::devices::{device_names, find_device, first_or_empty, requested_device_name};

fn listing() -> Vec<Option<String>> {
    vec![
        Some("Built-in Mic".to_string()),
        None,
        Some("USB Headset".to_string()),
        Some("USB Headset".to_string()),
    ]
}

#[test]
fn listing_skips_unreadable_devices() {
    assert_eq!(
        device_names(&listing()),
        vec!["Built-in Mic".to_string(), "USB Headset".to_string(), "USB Headset".to_string()]
    );
}

#[test]
fn empty_listing() {
    assert_eq!(device_names(&vec![]), Vec::<String>::new());
    assert_eq!(device_names(&vec![None, None]), Vec::<String>::new());
}

#[test]
fn lookup_finds_the_first_match() {
    assert_eq!(find_device(&listing(), &"USB Headset".to_string()), Some(2));
    assert_eq!(find_device(&listing(), &"Built-in Mic".to_string()), Some(0));
}

#[test]
fn lookup_without_match_falls_back() {
    assert_eq!(find_device(&listing(), &"default".to_string()), None);
    assert_eq!(find_device(&vec![], &"x".to_string()), None);
}

#[test]
fn every_listed_name_is_found() {
    let descs = listing();
    for name in device_names(&descs) {
        let i = find_device(&descs, &name).unwrap();
        assert_eq!(descs[i].as_deref(), Some(name.as_str()));
    }
}

#[test]
fn requested_name_defaults() {
    assert_eq!(requested_device_name(&None), "default");
    assert_eq!(requested_device_name(&Some("Speakers".to_string())), "Speakers");
}

#[test]
fn selector_shows_first_device() {
    assert_eq!(first_or_empty(&vec!["a".to_string(), "b".to_string()]), "a");
    assert_eq!(first_or_empty(&vec![]), "");
}
