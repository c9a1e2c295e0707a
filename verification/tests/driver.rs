use maestro::driver::entry_name;
use maestro::driver::pick_entry;
use maestro::driver::check_status;
use maestro::daemon::ConfigDiff;
use maestro::driver::{
    callback_flags, driver_proc, driver_reload, finish_header, mod_message, num_output_devices,
    open_client, output_caps, port_name, utf16_name, DriverReload, EngineUsers, ModAction,
    DRV_LOAD, DRV_QUERYCONFIGURE, MIDIERR_UNPREPARED, MIDIOPENDESC, MMSYSERR_BADDEVICEID,
    MMSYSERR_INVALHANDLE, MMSYSERR_INVALPARAM, MMSYSERR_NOERROR, MMSYSERR_NOTSUPPORTED,
    MODM_CLOSE, MODM_DATA, MODM_GETDEVCAPS, MODM_GETNUMDEVS, MODM_INIT, MODM_LONGDATA,
    MODM_OPEN, MODM_PREPARE, MODM_RESET, MOD_SWSYNTH,
};

#[test]
fn driver_messages() {
    assert_eq!(driver_proc(DRV_LOAD), Some(1));
    assert_eq!(driver_proc(DRV_QUERYCONFIGURE), Some(0));
    assert_eq!(driver_proc(0x7777), None);
    assert_eq!(callback_flags(0x0003_0000), 3);
    assert_eq!(callback_flags(0xFFFF), 0);
}

#[test]
fn mod_messages_are_validated() {
    assert_eq!(mod_message(MODM_DATA, 0, 0, 0x90, 0, 4), ModAction::Reply(MMSYSERR_INVALHANDLE));
    assert_eq!(mod_message(MODM_DATA, 0, 8, 0x403C90, 0, 4), ModAction::Short(0x403C90));
    assert_eq!(mod_message(MODM_LONGDATA, 0, 8, 0, 2, 4), ModAction::Reply(MMSYSERR_INVALPARAM));
    assert_eq!(mod_message(MODM_LONGDATA, 0, 8, 100, 0, 4), ModAction::Reply(MIDIERR_UNPREPARED));
    assert_eq!(mod_message(MODM_LONGDATA, 0, 8, 100, 2, 4), ModAction::Long);
    assert_eq!(mod_message(MODM_INIT, 0, 0, 0, 0, 4), ModAction::Reply(MMSYSERR_NOERROR));
    assert_eq!(mod_message(MODM_GETNUMDEVS, 0, 0, 0, 0, 4), ModAction::Reply(4));
    assert_eq!(mod_message(MODM_GETDEVCAPS, 5, 0, 64, 0, 4), ModAction::Reply(MMSYSERR_BADDEVICEID));
    assert_eq!(mod_message(MODM_GETDEVCAPS, 1, 0, 0, 0, 4), ModAction::Reply(MMSYSERR_INVALPARAM));
    assert_eq!(mod_message(MODM_GETDEVCAPS, 1, 0, 64, 0, 4), ModAction::Caps);
    assert_eq!(mod_message(MODM_OPEN, 0, 0, 64, 0, 4), ModAction::Reply(MMSYSERR_INVALPARAM));
    assert_eq!(mod_message(MODM_OPEN, 4, 8, 64, 0, 4), ModAction::Reply(MMSYSERR_BADDEVICEID));
    assert_eq!(mod_message(MODM_OPEN, 3, 8, 64, 0, 4), ModAction::Open);
    assert_eq!(mod_message(MODM_CLOSE, 0, 8, 0, 0, 4), ModAction::Close);
    assert_eq!(mod_message(MODM_RESET, 0, 0, 0, 0, 4), ModAction::Reply(MMSYSERR_INVALHANDLE));
    assert_eq!(mod_message(MODM_RESET, 0, 8, 0, 0, 4), ModAction::Reset);
    assert_eq!(mod_message(MODM_PREPARE, 0, 8, 0, 0, 4), ModAction::Reply(MMSYSERR_NOTSUPPORTED));
}

#[test]
fn played_headers_are_done_and_dequeued() {
    assert_eq!(finish_header(0x2 | 0x4), 0x3);
    assert_eq!(finish_header(0xF0), 0xF1);
}

#[test]
fn an_open_records_the_callback() {
    let desc = MIDIOPENDESC { hMidi: 1, dwCallback: 2, dwInstance: 3, dnDevNode: 4, cIds: 0 };
    let c = open_client(2, &desc, 0x0003_0000);
    assert_eq!((c.port, c.callback, c.instance, c.hmidi, c.flags), (2, 2, 3, 1, 0x0003_0000));
}

#[test]
fn the_engine_lives_while_any_output_is_open() {
    let mut users = EngineUsers::new();
    assert!(users.needs_start());
    users.retain();
    users.retain();
    assert!(!users.needs_start());
    assert!(!users.release());
    assert!(users.running());
    assert!(users.release());
    assert!(!users.running());
    // A stray close leaves the count at zero.
    assert!(users.release());
    assert!(users.needs_start());
}

#[test]
fn devices_and_capabilities() {
    assert_eq!(num_output_devices(0), 1);
    assert_eq!(num_output_devices(4), 4);
    assert_eq!(num_output_devices(16), 16);
    assert_eq!(num_output_devices(40), 16);
    assert_eq!(port_name("Maestro", 0), "Maestro - Port 1");
    assert_eq!(port_name("Maestro", 11), "Maestro - Port 12");
    assert!(output_caps(4, 4, "Maestro").is_none());
    let caps = output_caps(1, 4, "Maestro").expect("device 1 exists");
    let expected: Vec<u16> = "Maestro - Port 2".encode_utf16().collect();
    assert_eq!(&caps.name[..expected.len()], &expected[..]);
    assert!(caps.name[expected.len()..].iter().all(|u| *u == 0));
    assert_eq!(caps.technology, MOD_SWSYNTH);
    assert_eq!(caps.driver_version, 0x0100);
    assert_eq!(caps.channel_mask, 0xFFFF);
}

#[test]
fn names_are_encoded_as_utf16_and_cut_at_31_units() {
    let name = "Ünïcödé 🎹 synth";
    let expected: Vec<u16> = name.encode_utf16().collect();
    let buf = utf16_name(name);
    assert_eq!(&buf[..expected.len()], &expected[..]);
    let long = "x".repeat(40);
    let buf = utf16_name(&long);
    assert!(buf[..31].iter().all(|u| *u == 'x' as u16));
    assert_eq!(buf[31], 0);
    // A pair that does not fit keeps only its first unit.
    let cut = format!("{}🎹", "y".repeat(30));
    let units: Vec<u16> = cut.encode_utf16().take(31).collect();
    let buf = utf16_name(&cut);
    assert_eq!(&buf[..31], &units[..]);
    assert_eq!(buf[31], 0);
}

#[test]
fn config_changes_pick_the_cheapest_reload() {
    let d = |engine, soundfonts| ConfigDiff { engine, devices: false, soundfonts, idle: false };
    assert_eq!(driver_reload(&d(true, true)), DriverReload::RestartEngine);
    assert_eq!(driver_reload(&d(false, true)), DriverReload::ReloadSoundfonts);
    assert_eq!(driver_reload(&d(false, false)), DriverReload::Nothing);
}

#[test]
fn registry_entry_names() {
    assert_eq!(&entry_name(0), b"midi\0\0");
    assert_eq!(&entry_name(1), b"midi1\0");
    assert_eq!(&entry_name(9), b"midi9\0");
}

fn entries(v: &[Option<&str>]) -> Vec<Option<String>> {
    v.iter().map(|e| e.map(|s| s.to_string())).collect()
}

#[test]
fn an_existing_entry_is_reused() {
    let e = entries(&[Some("wdmaud.drv"), None, Some("MaestroDrv.DLL"), None]);
    assert_eq!(pick_entry(&e), Some((2, false)));
}

#[test]
fn the_first_free_entry_is_taken() {
    let e = entries(&[Some("wdmaud.drv"), Some("other.dll"), Some(""), None]);
    assert_eq!(pick_entry(&e), Some((2, true)));
    let e = entries(&[None, Some("wdmaud.drv")]);
    assert_eq!(pick_entry(&e), Some((0, true)));
}

#[test]
fn a_full_table_gives_up_a_mapper_entry_but_not_the_first() {
    let e = entries(&[
        Some("wdmaud.drv"),
        Some("a.dll"),
        Some("WDMAUD.DRV"),
        Some("b.dll"),
        Some("wdmaud.drv"),
    ]);
    assert_eq!(pick_entry(&e), Some((2, true)));
    let e = entries(&[Some("wdmaud.drv"), Some("a.dll")]);
    assert_eq!(pick_entry(&e), None);
}

#[test]
fn check_bits() {
    assert_eq!(check_status(Some(true), Some(true), Some(true), true, true), 0);
    assert_eq!(check_status(Some(false), Some(true), Some(false), true, false), 1 | 4 | 16);
    assert_eq!(check_status(None, Some(true), Some(true), true, true), 255);
    assert_eq!(check_status(Some(true), Some(true), None, false, false), 255);
}
