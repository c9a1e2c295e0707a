use maestro::daemon::{
    debounce, diff_configs, engine_ports, idle_action, next_wait, ready_message, reload_plan,
    IdleAction, MaestroSystemConfig, ReloadAction, ServiceEvent, DeviceSpec,
};

#[test]
fn identical_configs_produce_no_diff() {
    let a = MaestroSystemConfig::default();
    let b = MaestroSystemConfig::default();
    assert!(!diff_configs(&a, &b).any());
}

#[test]
fn port_count_change_rebuilds_engine_and_devices() {
    let a = MaestroSystemConfig::default();
    let mut b = MaestroSystemConfig::default();
    b.custom.num_ports = 8;
    let diff = diff_configs(&a, &b);
    assert!(diff.engine);
    assert!(diff.devices);
    assert!(!diff.soundfonts);
}

#[test]
fn port_count_is_ignored_in_midi2_mode() {
    let mut a = MaestroSystemConfig::default();
    a.custom.midi2_enabled = true;
    let mut b = a.clone();
    b.custom.num_ports = 12;
    assert!(!diff_configs(&a, &b).any());
}

#[test]
fn midi2_toggle_changes_engine_and_devices() {
    let a = MaestroSystemConfig::default();
    let mut b = MaestroSystemConfig::default();
    b.custom.midi2_enabled = true;
    let diff = diff_configs(&a, &b);
    assert!(diff.engine);
    assert!(diff.devices);
}

#[test]
fn sflist_change_only_reloads_soundfonts() {
    let a = MaestroSystemConfig::default();
    let mut b = MaestroSystemConfig::default();
    b.sflist = "other".to_string();
    let diff = diff_configs(&a, &b);
    assert!(!diff.engine);
    assert!(!diff.devices);
    assert!(diff.soundfonts);
}

#[test]
fn idle_timeout_change_is_seen_and_restarts_nothing() {
    let a = MaestroSystemConfig::default();
    let mut b = MaestroSystemConfig::default();
    b.custom.idle_timeout_minutes = 45;
    let diff = diff_configs(&a, &b);
    assert!(diff.any());
    assert!(diff.idle);
    assert!(!diff.engine);
    assert!(!diff.devices);
    assert!(!diff.soundfonts);
}

#[test]
fn engine_ports_follow_the_midi_mode() {
    let mut c = MaestroSystemConfig::default();
    assert_eq!(engine_ports(&c), 4);
    c.custom.num_ports = 0;
    assert_eq!(engine_ports(&c), 1);
    c.custom.midi2_enabled = true;
    assert_eq!(engine_ports(&c), 16);
    let spec = DeviceSpec::from_config(&c);
    assert_eq!(spec.num_ports, 1);
    assert!(spec.midi2);
    assert_eq!(spec.device_name, "Maestro");
}

#[test]
fn a_device_rename_recreates_the_devices_only() {
    let a = MaestroSystemConfig::default();
    let mut b = MaestroSystemConfig::default();
    b.custom.device_name = "Studio".to_string();
    let diff = diff_configs(&a, &b);
    assert!(diff.devices);
    assert!(!diff.engine);
    assert_eq!(reload_plan(&diff), (true, ReloadAction::Nothing));
}

#[test]
fn an_event_processor_turns_on_rebuilds_the_engine() {
    let a = MaestroSystemConfig::default();
    let mut b = MaestroSystemConfig::default();
    b.event_processor = Some(maestro::engine_cfg::EventProcessorConfig {
        bypass_ports: vec![],
        ignore_ports: vec![],
        bypass_channels: vec![9],
        ignore_channels: vec![],
        fixed_velocity: 0,
        transpose: 0,
        velocity_multiplier_bits: 1.0f32.to_bits(),
        velocity_threshold: 0,
        velocity_curve_bits: 1.0f32.to_bits(),
        key_range_low: 0,
        key_range_high: 127,
        ignore_program_change: false,
        ignore_sysex: false,
    });
    let diff = diff_configs(&a, &b);
    assert!(diff.engine);
    assert_eq!(reload_plan(&diff), (false, ReloadAction::RestartEngine));
    let mut c = b.clone();
    c.event_processor.as_mut().unwrap().bypass_channels = vec![10];
    assert!(diff_configs(&b, &c).engine);
    assert!(!diff_configs(&b, &b.clone()).any());
}

#[test]
fn reload_plans_follow_the_diff() {
    let a = MaestroSystemConfig::default();
    let mut b = MaestroSystemConfig::default();
    b.custom.idle_timeout_minutes = 45;
    assert_eq!(reload_plan(&diff_configs(&a, &b)), (false, ReloadAction::RearmIdle));
    b.sflist = "other".to_string();
    assert_eq!(reload_plan(&diff_configs(&a, &b)), (false, ReloadAction::ReloadSoundfonts));
    assert_eq!(reload_plan(&diff_configs(&a, &a)), (false, ReloadAction::Nothing));
}

#[test]
fn a_burst_of_changes_is_coalesced() {
    assert_eq!(debounce(ServiceEvent::SoundfontsChanged, &[ServiceEvent::SoundfontsChanged, ServiceEvent::WakeEngine]), ServiceEvent::SoundfontsChanged);
    assert_eq!(debounce(ServiceEvent::SoundfontsChanged, &[ServiceEvent::ConfigChanged, ServiceEvent::SoundfontsChanged]), ServiceEvent::ConfigChanged);
    assert_eq!(debounce(ServiceEvent::ConfigChanged, &[ServiceEvent::SoundfontsChanged, ServiceEvent::Shutdown, ServiceEvent::ConfigChanged]), ServiceEvent::Shutdown);
    assert_eq!(debounce(ServiceEvent::Shutdown, &[ServiceEvent::ConfigChanged]), ServiceEvent::Shutdown);
    assert_eq!(debounce(ServiceEvent::ConfigChanged, &[]), ServiceEvent::ConfigChanged);
}

#[test]
fn the_engine_is_paused_started_and_reminded_on_time() {
    let minute: u128 = 60_000_000_000;
    // No devices: a running engine is paused, a stopped one left alone.
    assert_eq!(idle_action(false, true, false, 10, 0, false), IdleAction::PauseNoDevices);
    assert_eq!(idle_action(false, false, true, 10, 0, false), IdleAction::Nothing);
    // Stopped: started only when MIDI asked for it.
    assert_eq!(idle_action(true, false, true, 10, 0, false), IdleAction::Start);
    assert_eq!(idle_action(true, false, false, 10, 0, false), IdleAction::Nothing);
    // Running with a timeout.
    assert_eq!(idle_action(true, true, false, 10, 10 * minute - 1, false), IdleAction::Nothing);
    assert_eq!(idle_action(true, true, false, 10, 10 * minute, false), IdleAction::PauseInactive);
    // Running without a timeout: a single reminder after half an hour.
    assert_eq!(idle_action(true, true, false, 0, 30 * minute, false), IdleAction::Remind);
    assert_eq!(idle_action(true, true, false, 0, 30 * minute, true), IdleAction::Nothing);
    assert_eq!(idle_action(true, true, false, 0, 29 * minute, false), IdleAction::Nothing);
}

#[test]
fn the_control_loop_waits_at_most_one_tick() {
    let second: u128 = 1_000_000_000;
    assert_eq!(next_wait(false, 10, 0), 3600 * 1_000_000_000);
    assert_eq!(next_wait(true, 10, 0), 5 * 1_000_000_000);
    assert_eq!(next_wait(true, 1, 58 * second), 2 * 1_000_000_000);
    assert_eq!(next_wait(true, 1, 61 * second), 0);
    assert_eq!(next_wait(true, 0, 1798 * second), 2 * 1_000_000_000);
}

#[test]
fn the_ready_notification_mentions_the_idle_start() {
    assert_eq!(ready_message(10), "Maestro will start when activity is detected.");
    assert_eq!(ready_message(0), "Maestro is loaded and running.");
}

#[test]
fn midi1_port_counts_are_kept_within_sixteen() {
    let mut c = MaestroSystemConfig::default();
    c.custom.num_ports = 255;
    assert_eq!(engine_ports(&c), 16);
    assert_eq!(DeviceSpec::from_config(&c).num_ports, 16);
    c.custom.num_ports = 16;
    assert_eq!(engine_ports(&c), 16);
    c.custom.num_ports = 12;
    assert_eq!(engine_ports(&c), 12);
    assert_eq!(DeviceSpec::from_config(&c).num_ports, 12);
}

#[test]
fn floats_are_compared_as_values() {
    let a = MaestroSystemConfig::default();
    let mut b = MaestroSystemConfig::default();
    b.renderer.render_fps_variation_bits = (-0.0f32).to_bits();
    assert!(!diff_configs(&a, &b).any());
    b.renderer.render_fps_variation_bits = 5.0f32.to_bits();
    assert!(diff_configs(&a, &b).engine);

    let mut c = MaestroSystemConfig::default();
    c.realtime.render_buffer_ms_bits = f32::NAN.to_bits();
    let d = c.clone();
    assert!(diff_configs(&c, &d).engine);

    let mut e = MaestroSystemConfig::default();
    e.post_processor = None;
    assert!(diff_configs(&a, &e).engine);
    assert_eq!(diff_configs(&a, &e), diff_configs(&e, &a));
}
