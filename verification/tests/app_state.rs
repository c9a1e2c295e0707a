use maestro::app_state::{index_of, AudioDeviceCache, SoundfontFileCache};

fn cache(names: &[&str]) -> SoundfontFileCache {
    SoundfontFileCache {
        path: "/lists/a.json".to_string(),
        name: "a".to_string(),
        dirty: false,
        sublist_names: names.iter().map(|s| s.to_string()).collect(),
    }
}

#[test]
fn sublists_are_offered_in_text_order() {
    let c = cache(&["Piano", "Drums", "Strings", "Bass"]);
    assert_eq!(c.sorted_sublists(), vec!["Bass", "Drums", "Piano", "Strings"]);
    assert_eq!(c.sublist_name(1), Some("Drums".to_string()));
    assert_eq!(c.sublist_name(4), None);
    assert_eq!(c.sublist_name(-1), None);
}

#[test]
fn sublist_order_matches_string_order() {
    let names = ["b", "B", "a", "ä", "ab", "", "Z"];
    let c = cache(&names);
    let mut expected: Vec<String> = names.iter().map(|s| s.to_string()).collect();
    expected.sort();
    assert_eq!(c.sorted_sublists(), expected);
}

#[test]
fn a_list_without_sublists_offers_the_default() {
    let c = cache(&[]);
    assert_eq!(c.sorted_sublists(), vec!["Default"]);
    assert_eq!(c.sublist_name(0), Some("Default".to_string()));
}

#[test]
fn combo_indices_select_entries() {
    assert_eq!(index_of(0, 3), Some(0));
    assert_eq!(index_of(2, 3), Some(2));
    assert_eq!(index_of(3, 3), None);
    assert_eq!(index_of(-1, 3), None);
}

fn devices() -> AudioDeviceCache {
    let mut c = AudioDeviceCache::empty();
    c.refresh(
        vec![("alsa".to_string(), "ALSA".to_string()), ("jack".to_string(), "JACK".to_string())],
        vec![("hw:0".to_string(), "Card 0".to_string()), ("hw:1".to_string(), "Card 1".to_string())],
        Some((vec![44100, 48000], Some((64, 4096)))),
    );
    c
}

#[test]
fn host_and_device_indices_count_the_default_entry() {
    let c = devices();
    assert_eq!(c.host_index(None), 0);
    assert_eq!(c.host_index(Some("jack")), 2);
    assert_eq!(c.host_index(Some("pulse")), 0);
    assert_eq!(c.device_index(Some("hw:0")), 1);
    assert_eq!(c.host_id(0), None);
    assert_eq!(c.host_id(2), Some("jack".to_string()));
    assert_eq!(c.host_id(3), None);
    assert_eq!(c.device_id(1), Some("hw:0".to_string()));
    assert_eq!(c.device_id(-4), None);
    assert_eq!(c.sample_rates, vec![44100, 48000]);
    assert_eq!(c.buffer_range, Some((64, 4096)));
    assert_eq!(c.host_labels, vec!["ALSA", "JACK"]);
}

#[test]
fn jack_fixes_the_stream_format() {
    let c = devices();
    assert!(c.fixed_by_host(Some("jack")));
    assert!(c.fixed_by_host(Some("JACK")));
    assert!(c.fixed_by_host(Some("Jack")));
    assert!(!c.fixed_by_host(Some("jackd")));
    assert!(!c.fixed_by_host(None));
}

#[test]
fn a_refresh_without_capabilities_clears_them() {
    let mut c = devices();
    c.refresh(vec![], vec![], None);
    assert!(c.sample_rates.is_empty());
    assert_eq!(c.buffer_range, None);
    assert!(c.host_ids.is_empty());
}
