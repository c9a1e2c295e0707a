use maestro::component::ComponentProfile;
use maestro::editor::{
    get_component_files, load_values, read_loaded, repoint_sflist_references, report_repointed, save_keys,
    Loose, RepointSummary, SaveKey, Section, SflistRef,
};
use maestro::system_cfg::ConfigComponent;

fn cfg(name: &str, has: bool, list: &str) -> SflistRef {
    SflistRef { name: name.to_string(), has_sflist: has, sflist: list.to_string() }
}

#[test]
fn a_rename_repoints_configs_and_queue_entries() {
    let mut configs = vec![
        cfg("system", true, "Old"),
        cfg("converter", false, "Old"),
        cfg("kdmapi", true, "Other"),
    ];
    let mut queue = vec!["Old".to_string(), "Other".to_string(), "Old".to_string()];
    let summary = repoint_sflist_references(&mut configs, &mut queue, "Old", "New");
    assert_eq!(summary.configs, vec!["system"]);
    assert_eq!(summary.queue_entries, 2);
    assert_eq!(configs[0].sflist, "New");
    // The converter has no list of its own: untouched.
    assert_eq!(configs[1].sflist, "Old");
    assert_eq!(configs[2].sflist, "Other");
    assert_eq!(queue, vec!["New", "Other", "New"]);
}

#[test]
fn summaries_describe_what_changed() {
    let s = RepointSummary { configs: vec!["system".to_string(), "kdmapi".to_string()], queue_entries: 3 };
    assert!(!s.is_empty());
    assert_eq!(
        s.describe(),
        "component config(s) [system, kdmapi] and 3 render queue entrie(s)"
    );
    let only_queue = RepointSummary { configs: vec![], queue_entries: 1 };
    assert_eq!(only_queue.describe(), "1 render queue entrie(s)");
    let only_cfg = RepointSummary { configs: vec!["system".to_string()], queue_entries: 0 };
    assert_eq!(report_repointed(&only_cfg), Some("component config(s) [system]".to_string()));
    let none = RepointSummary { configs: vec![], queue_entries: 0 };
    assert!(none.is_empty());
    assert_eq!(report_repointed(&none), None);
}

#[test]
fn files_are_saved_with_the_sections_their_component_has() {
    let conv = ComponentProfile::for_kind(ConfigComponent::Converter);
    assert_eq!(
        save_keys(&conv, false, true),
        vec![
            SaveKey::ConfigVersion,
            SaveKey::AudioParams,
            SaveKey::Renderer,
            SaveKey::EventProcessor { on: false },
            SaveKey::PostProcessor { on: true },
            SaveKey::Custom(ConfigComponent::Converter),
        ]
    );
    let kdm = ComponentProfile::for_kind(ConfigComponent::KDMAPI);
    assert_eq!(
        save_keys(&kdm, true, false),
        vec![
            SaveKey::ConfigVersion,
            SaveKey::Enabled,
            SaveKey::Sflist,
            SaveKey::AudioParams,
            SaveKey::Realtime,
            SaveKey::Renderer,
            SaveKey::EventProcessor { on: true },
            SaveKey::PostProcessor { on: false },
        ]
    );
}

#[test]
fn loose_values_fall_back_and_mark_recovery() {
    let v = read_loaded(false, Loose::Missing, Loose::Missing, Section::Missing, Section::Missing, false);
    assert!(v.enabled);
    assert_eq!(v.sflist, "Default");
    assert!(!v.has_event_processor);
    assert!(v.has_post_processor);
    assert!(!v.recovered);

    let v = read_loaded(
        false,
        Loose::Present(false),
        Loose::Present("Mine".to_string()),
        Section::Value,
        Section::Null,
        false,
    );
    assert!(!v.enabled);
    assert_eq!(v.sflist, "Mine");
    assert!(v.has_event_processor);
    assert!(!v.has_post_processor);
    assert!(!v.recovered);

    let v = read_loaded(false, Loose::Invalid, Loose::Missing, Section::Null, Section::Value, false);
    assert!(v.enabled);
    assert!(v.recovered);
    assert!(!v.has_event_processor);
    let v = read_loaded(true, Loose::Missing, Loose::Missing, Section::Missing, Section::Missing, false);
    assert!(v.recovered);
}

#[test]
fn component_files_are_the_standard_ones_in_name_order() {
    let names = |v: Vec<(String, ConfigComponent)>| v.into_iter().map(|(n, _)| n).collect::<Vec<_>>();
    assert_eq!(names(get_component_files(&vec![])), vec!["converter", "kdmapi", "system"]);
    let listed = vec!["system".to_string(), "3rdparty/foo".to_string(), "kdmapi".to_string()];
    let files = get_component_files(&listed);
    assert_eq!(
        files,
        vec![
            ("converter".to_string(), ConfigComponent::Converter),
            ("kdmapi".to_string(), ConfigComponent::KDMAPI),
            ("system".to_string(), ConfigComponent::System),
        ]
    );
}

#[test]
fn a_saved_file_reads_back_its_loose_values() {
    let text = r#"{"config_version": 1, "enabled": false, "sflist": "Mine",
        "event_processor": {"transpose": 0}, "post_processor": null}"#;
    let v = load_values(Some(text), false);
    assert!(!v.enabled);
    assert_eq!(v.sflist, "Mine");
    assert!(v.has_event_processor);
    assert!(!v.has_post_processor);
    assert!(!v.recovered);
}

#[test]
fn a_missing_file_reads_as_defaults() {
    let v = load_values(None, false);
    assert!(v.enabled);
    assert_eq!(v.sflist, "Default");
    assert!(!v.has_event_processor);
    assert!(v.has_post_processor);
    assert!(!v.recovered);
    assert!(load_values(None, true).recovered);
}

#[test]
fn corrupt_text_reads_as_defaults_and_is_recovered() {
    let v = load_values(Some("{not json"), false);
    assert!(v.enabled);
    assert_eq!(v.sflist, "Default");
    assert!(!v.has_event_processor);
    assert!(v.has_post_processor);
    assert!(v.recovered);
}

#[test]
fn values_of_the_wrong_type_are_replaced() {
    let v = load_values(Some(r#"{"enabled": "yes", "sflist": 3, "event_processor": null}"#), false);
    assert!(v.enabled);
    assert_eq!(v.sflist, "Default");
    assert!(!v.has_event_processor);
    assert!(v.has_post_processor);
    assert!(v.recovered);
    let w = load_values(Some("[1, 2]"), false);
    assert!(w.enabled && !w.recovered);
}
