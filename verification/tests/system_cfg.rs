use maestro::system_cfg::{ConfigComponent, MaestroGlobalConfig, SystemCustomSettings};

#[test]
fn builtin_component_roundtrip() {
    for c in [
        ConfigComponent::System,
        ConfigComponent::KDMAPI,
        ConfigComponent::Converter,
    ] {
        let name = c.to_filename();
        assert_eq!(ConfigComponent::from_name(&name), Some(c));
    }
}

#[test]
fn component_names_codes_and_labels() {
    assert_eq!(ConfigComponent::System.to_filename(), "system");
    assert_eq!(ConfigComponent::KDMAPI.display_name(), "KDMAPI");
    assert_eq!(ConfigComponent::System.display_name(), "Virtual Device");
    assert_eq!(ConfigComponent::from_name("System"), None);
    assert_eq!(ConfigComponent::from_name("3rdparty/foo"), None);
    for c in [
        ConfigComponent::System,
        ConfigComponent::KDMAPI,
        ConfigComponent::Converter,
    ] {
        assert_eq!(ConfigComponent::from_code(c.code()), Some(c));
    }
    assert_eq!(ConfigComponent::Converter.code(), 2);
    assert_eq!(ConfigComponent::from_code(3), None);
}

#[test]
fn default_settings() {
    let s = SystemCustomSettings::default();
    assert_eq!(s.device_name, "Maestro");
    assert_eq!(s.num_ports, 4);
    assert!(!s.midi2_enabled);
    assert_eq!(s.idle_timeout_minutes, 10);
    let g = MaestroGlobalConfig::default();
    assert_eq!(g.default_soundfont_list.as_deref(), Some("Default"));
    assert!(g.start_virtual_device_on_launch);
    assert!(!g.remember_last_tab);
    assert!(g.last_tab.is_empty());
}
