use maestro::integration::item::IntegrationStatus;
use maestro::integration::kdmapi::{self, KdmapiAction, FOREIGN_HINT};
use maestro::integration::libraries::{self, LibSource, LibraryAction, LibraryStatus, LibraryStep};
use maestro::integration::service::{self, ServiceAction, ServiceCommand};
use maestro::integration::winmm::{self, WinmmStep};

#[test]
fn kdmapi_rows() {
    let target = kdmapi::kdmapi_target(true);
    assert_eq!(target, "/usr/lib64/libOmniMIDI.so");
    assert_eq!(kdmapi::kdmapi_target(false), "/usr/lib/libOmniMIDI.so");

    let s = kdmapi::probe(&target, false, true, false);
    assert_eq!(s.item.status, IntegrationStatus::Missing);
    assert_eq!(s.item.hint, "Not installed. Installing links it into /usr/lib64/libOmniMIDI.so.");
    assert!(!s.blocked);
    let s = kdmapi::probe(&target, false, false, false);
    assert_eq!(s.item.hint, "libOmniMIDI.so was not found in the Maestro program folder.");
    let s = kdmapi::probe(&target, true, true, true);
    assert_eq!(s.item.status, IntegrationStatus::Good);
    assert_eq!(s.item.detail, "Installed");
    let s = kdmapi::probe(&target, true, true, false);
    assert_eq!(s.item.status, IntegrationStatus::Warning);
    assert_eq!(s.item.hint, FOREIGN_HINT);
    assert!(s.blocked);
}

#[test]
fn kdmapi_links_and_actions() {
    let links = kdmapi::kdmapi_links(Some("/opt/a.so".to_string()), false, None, Some("/usr/lib32".to_string()));
    assert_eq!(links.len(), 2);
    assert_eq!(links[0], (Some("/opt/a.so".to_string()), "/usr/lib/libOmniMIDI.so".to_string()));
    assert_eq!(links[1], (None, "/usr/lib32/libOmniMIDI.so".to_string()));
    assert_eq!(kdmapi::command(KdmapiAction::Install), "install-kdmapi");
    assert_eq!(kdmapi::command(KdmapiAction::Uninstall), "uninstall-kdmapi");
    assert_eq!(kdmapi::act(Ok(0)), Ok(()));
    assert_eq!(kdmapi::act(Ok(2)), Err(FOREIGN_HINT.to_string()));
    assert_eq!(
        kdmapi::act(Ok(1)),
        Err("The KDMAPI library could not be linked into the system path.".to_string())
    );
    assert_eq!(
        kdmapi::act(Err("denied".to_string())),
        Err("Could not run the operation with elevated rights: denied".to_string())
    );
}

#[test]
fn library_rows_and_buttons() {
    let libs = vec![
        LibraryStatus {
            name: "FluidSynth".to_string(),
            filename: "libfluidsynth.so.3".to_string(),
            version: Some("2.4.0".to_string()),
            source: Some(LibSource::System),
            error: None,
        },
        LibraryStatus {
            name: "BASSMIDI".to_string(),
            filename: "libbassmidi.so".to_string(),
            version: None,
            source: None,
            error: Some("not found".to_string()),
        },
    ];
    let items = libraries::probe(&libs);
    assert_eq!(items[0].source, "system path");
    assert_eq!(items[0].status, IntegrationStatus::Good);
    assert_eq!(items[1].status, IntegrationStatus::Missing);
    assert_eq!(items[1].detail, "not found");
    assert_eq!(items[1].version, "");
    assert_eq!(libraries::source_label(LibSource::User), "user folder");
    assert_eq!(
        libraries::act(0, LibraryAction::Visit, &libs),
        Ok(LibraryStep::Open("https://www.fluidsynth.org/".to_string()))
    );
    assert_eq!(
        libraries::act(1, LibraryAction::Visit, &libs),
        Ok(LibraryStep::Open("https://www.un4seen.com/".to_string()))
    );
    assert_eq!(
        libraries::act(2, LibraryAction::Visit, &libs),
        Err("That library is no longer listed.".to_string())
    );
    assert_eq!(libraries::act(9, LibraryAction::Reveal, &libs), Ok(LibraryStep::RevealUserFolder));
}

#[test]
fn systemd_rows_and_commands() {
    let unit = service::user_unit("/home/u/.config");
    assert_eq!(unit, "/home/u/.config/systemd/user/maestrod.service");
    assert_eq!(service::user_unit("/cfg/"), "/cfg/systemd/user/maestrod.service");
    let s = service::probe(false, true, &unit, true);
    assert_eq!(s.item.detail, "Not installed");
    assert!(!s.installed && !s.autostart);
    let s = service::probe(true, false, &unit, true);
    assert_eq!(s.item.detail, "Broken");
    assert!(!s.installed && s.autostart);
    let s = service::probe(true, true, &unit, false);
    assert_eq!(s.item.status, IntegrationStatus::Good);
    assert!(s.item.hint.starts_with("Managed by systemd at /home/u/.config/systemd/user/maestrod.service."));
    assert!(s.installed && !s.autostart);

    let text = service::unit_text("/usr/bin/maestrod");
    assert!(text.contains("ExecStart=/usr/bin/maestrod\n"));
    assert!(text.starts_with("[Unit]\n"));
    assert!(text.ends_with("WantedBy=default.target\n"));

    let args = |v: &[&str]| ServiceCommand::Systemctl(v.iter().map(|s| s.to_string()).collect());
    assert_eq!(service::start(), args(&["--user", "start", "maestrod.service"]));
    assert_eq!(service::stop(), args(&["--user", "stop", "maestrod.service"]));
    assert_eq!(
        service::set_autostart(true, true, None, &unit),
        Ok(vec![args(&["--user", "enable", "maestrod.service"])])
    );
    assert_eq!(
        service::set_autostart(false, false, None, &unit),
        Err("The maestrod executable could not be found.".to_string())
    );
    let steps = service::set_autostart(false, false, Some("/bin/maestrod"), &unit).unwrap();
    assert_eq!(steps.len(), 3);
    assert_eq!(steps[1], args(&["--user", "daemon-reload"]));
    assert_eq!(steps[2], args(&["--user", "disable", "maestrod.service"]));
    let repair = service::act(ServiceAction::Repair, Some("/bin/maestrod"), &unit).unwrap();
    assert_eq!(repair.len(), 2);
    assert_eq!(service::act(ServiceAction::InstallFiles, None, &unit), Ok(vec![]));
    assert_eq!(
        service::run_failure("systemctl", &vec!["--user".to_string(), "start".to_string()], "boom"),
        "systemctl --user start failed. Check the System Integration tab to ensure Maestro is correctly installed.\n\nError:boom"
    );
}

#[test]
fn winmm_rows_and_steps() {
    assert_eq!(winmm::describe(0), "The driver is not registered");
    assert_eq!(winmm::describe(1), "The 64-bit registry entry is missing");
    assert_eq!(
        winmm::describe(4 | 16),
        "The device is not registered, maestrodrv.dll is missing from SysWOW64"
    );
    assert_eq!(winmm::describe(32), "The driver is not registered");
    let s = winmm::probe(Some(8), false);
    assert_eq!(s.item.hint, "Maestrodrv.dll is missing from System32. Repair fixes this.");
    assert_eq!(s.item.status, IntegrationStatus::Missing);
    assert!(!s.installed);
    let s = winmm::probe(Some(0), true);
    assert!(s.installed && s.autostart);
    assert_eq!(winmm::probe(None, false).item.status, IntegrationStatus::Unknown);
    assert_eq!(winmm::probe(Some(255), false).item.detail, "Unknown");

    assert_eq!(winmm::act(ServiceAction::Repair, Some(8)), vec![WinmmStep::LinkFiles]);
    assert_eq!(winmm::act(ServiceAction::Repair, Some(2)), vec![WinmmStep::Register]);
    assert_eq!(winmm::act(ServiceAction::Repair, None), vec![WinmmStep::LinkFiles, WinmmStep::Register]);
    assert_eq!(winmm::act(ServiceAction::Repair, Some(0)), vec![]);
    assert_eq!(
        winmm::act(ServiceAction::UninstallFiles, Some(0)),
        vec![WinmmStep::Unregister, WinmmStep::UnlinkFiles]
    );
    assert_eq!(winmm::stop(0), Err("Maestro does not appear to be running.".to_string()));
    assert_eq!(winmm::stop(2), Ok(()));
    assert_eq!(winmm::entry("C:\\m.dll", "Maestro_CheckReg"), "C:\\m.dll,Maestro_CheckReg");
    assert_eq!(
        winmm::registration_outcome(Ok(-5)),
        Err("The driver registration failed with code -5.".to_string())
    );
    assert_eq!(winmm::registration_outcome(Ok(0)), Ok(()));
    assert_eq!(
        winmm::link_outcome(Ok(3)),
        Err("The driver files could not be linked into the system folders.".to_string())
    );
}
