use maestro::daemon::ServiceEvent;
use maestro::watch::{classify, classify_from, service_event, ConfigWatchEvent};

#[test]
fn the_config_file_itself() {
    let dirs = vec!["/data/lists".to_string()];
    assert_eq!(
        classify("/cfg/components/system.json", "/cfg/components/system.json", &dirs),
        Some(ConfigWatchEvent::ConfigChanged)
    );
    // Paths compare by component.
    assert_eq!(
        classify("/cfg//components/system.json", "/cfg/components/system.json", &dirs),
        Some(ConfigWatchEvent::ConfigChanged)
    );
}

#[test]
fn json_files_in_list_folders() {
    let dirs = vec!["/data/lists".to_string(), "/home/u/more".to_string()];
    let cfg = "/cfg/components/system.json";
    assert_eq!(classify("/home/u/more/Pianos.json", cfg, &dirs), Some(ConfigWatchEvent::SoundfontsChanged));
    assert_eq!(classify("/data/lists/Default.json", cfg, &dirs), Some(ConfigWatchEvent::SoundfontsChanged));
    assert_eq!(classify("/data//lists/Default.json", cfg, &dirs), Some(ConfigWatchEvent::SoundfontsChanged));
    // Other components' files live in the config folder, not a list folder.
    assert_eq!(classify("/cfg/components/kdmapi.json", cfg, &dirs), None);
    // Not JSON, or in a sub-folder.
    assert_eq!(classify("/data/lists/Default.json.tmp", cfg, &dirs), None);
    assert_eq!(classify("/data/lists/sub/Default.json", cfg, &dirs), None);
    assert_eq!(classify("/data/lists/notes.txt", cfg, &dirs), None);
}

#[test]
fn classification_from_observations() {
    assert_eq!(classify_from(true, None, false), Some(ConfigWatchEvent::ConfigChanged));
    assert_eq!(classify_from(false, Some("json"), true), Some(ConfigWatchEvent::SoundfontsChanged));
    assert_eq!(classify_from(false, Some("json"), false), None);
    assert_eq!(classify_from(false, Some("JSON"), true), None);
    assert_eq!(classify_from(false, None, true), None);
}

#[test]
fn watch_events_become_service_events() {
    assert_eq!(service_event(ConfigWatchEvent::ConfigChanged), ServiceEvent::ConfigChanged);
    assert_eq!(service_event(ConfigWatchEvent::SoundfontsChanged), ServiceEvent::SoundfontsChanged);
}
