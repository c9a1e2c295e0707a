use maestro::launch::{drop_kind, initial_tab, launch_mode, newer_release, queue_sflist, DropKind, LaunchMode};
use maestro::ui_conv::Tab;

fn args(v: &[&str]) -> Vec<String> {
    v.iter().map(|s| s.to_string()).collect()
}

#[test]
fn launch_modes() {
    assert_eq!(launch_mode(&args(&["maestro"])), LaunchMode::Combined);
    assert_eq!(
        launch_mode(&args(&["maestro", "edit-list", "/a/b.json"])),
        LaunchMode::EditList("/a/b.json".to_string())
    );
    assert_eq!(
        launch_mode(&args(&["maestro", "edit-config", "/c.json", "extra"])),
        LaunchMode::EditConfig("/c.json".to_string())
    );
    // A mode without a path is the combined window.
    assert_eq!(launch_mode(&args(&["maestro", "edit-list"])), LaunchMode::Combined);
    assert_eq!(launch_mode(&args(&["maestro", "other", "x"])), LaunchMode::Combined);
}

#[test]
fn the_window_opens_on_the_remembered_tab() {
    assert_eq!(initial_tab(true, true, "device"), Tab::Device);
    assert_eq!(initial_tab(true, true, "nonsense"), Tab::Welcome);
    assert_eq!(initial_tab(true, false, "device"), Tab::Welcome);
    assert_eq!(initial_tab(false, true, "device"), Tab::Welcome);
}

#[test]
fn drops_by_extension() {
    assert_eq!(drop_kind("mid"), DropKind::Midi);
    assert_eq!(drop_kind("MIDI"), DropKind::Midi);
    assert_eq!(drop_kind("Kar"), DropKind::Midi);
    assert_eq!(drop_kind("rmi"), DropKind::Midi);
    assert_eq!(drop_kind("SF2"), DropKind::Soundfont);
    assert_eq!(drop_kind("sfz"), DropKind::Soundfont);
    assert_eq!(drop_kind("wav"), DropKind::Ignored);
    assert_eq!(drop_kind(""), DropKind::Ignored);
    assert_eq!(queue_sflist(&args(&["Pianos", "Default"])), "Pianos");
    assert_eq!(queue_sflist(&vec![]), "Default");
}

#[test]
fn release_tags() {
    assert_eq!(newer_release("v1.3.0", "1.2.0"), Some("1.3.0".to_string()));
    assert_eq!(newer_release("v1.2.0", "1.2.0"), None);
    assert_eq!(newer_release("1.2.0", "1.2.0"), None);
    assert_eq!(newer_release("vv2", "1"), Some("2".to_string()));
}
