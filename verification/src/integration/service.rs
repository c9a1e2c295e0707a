//! The background service row on Linux: a systemd user unit that runs
//! `maestrod`. What the row shows, the unit file, and the commands each
//! action runs.

use crate::fmt::{joined, views};
use crate::integration::item::{item, item_view, IntegrationItem, IntegrationStatus, ItemView};
use vstd::prelude::*;

verus! {

pub const UNIT: &'static str = "maestrod.service";
pub const NAME: &'static str = "Maestro Service";

/// What the user asked for.
#[derive(Debug, Clone, Copy, PartialEq, Eq, Structural)]
pub enum ServiceAction {
    Repair,
    Start,
    Stop,
    InstallFiles,
    UninstallFiles,
}

/// The row, whether the service is usable, and whether it starts at login.
#[derive(Debug, Clone)]
pub struct ServiceState {
    pub item: IntegrationItem,
    pub installed: bool,
    pub autostart: bool,
}

/// `rest` (relative) appended to the folder `dir`, with one separator.
pub open spec fn joined_path(dir: Seq<char>, rest: Seq<char>) -> Seq<char> {
    if dir.len() > 0 && dir.last() == '/' {
        dir + rest
    } else {
        dir + "/"@ + rest
    }
}

pub fn join_path(dir: &str, rest: &str) -> (p: String)
    ensures
        p@ == joined_path(dir@, rest@),
{
    let n = dir.unicode_len();
    let mut p = String::from_str(dir);
    if !(n > 0 && dir.get_char(n - 1) == '/') {
        p.append("/");
    }
    p.append(rest);
    p
}

/// Where the user unit lives, under the user's configuration folder.
pub open spec fn user_unit_path(config_dir: Seq<char>) -> Seq<char> {
    joined_path(joined_path(config_dir, "systemd/user"@), UNIT@)
}

pub fn user_unit(config_dir: &str) -> (p: String)
    ensures
        p@ == user_unit_path(config_dir@),
{
    let d = join_path(config_dir, "systemd/user");
    join_path(d.as_str(), UNIT)
}

pub open spec fn unit_head() -> Seq<char> {
    "[Unit]\nDescription=Maestro virtual MIDI device service\nDocumentation=https://dimms.gr/maestro\nAfter=pipewire.service pipewire-pulse.service pulseaudio.service jack.service\n\n[Service]\nType=simple\nExecStart="@
}

pub open spec fn unit_tail() -> Seq<char> {
    "\nRestart=on-failure\nRestartSec=2\nLimitRTPRIO=95\nLimitMEMLOCK=64M\n\n[Install]\nWantedBy=default.target\n"@
}

/// The unit file that runs `exec`, restarts it on failure, and lets it use
/// realtime priority.
pub fn unit_text(exec: &str) -> (t: String)
    ensures
        t@ == unit_head() + exec@ + unit_tail(),
{
    let mut t = String::from_str(
        "[Unit]\nDescription=Maestro virtual MIDI device service\nDocumentation=https://dimms.gr/maestro\nAfter=pipewire.service pipewire-pulse.service pulseaudio.service jack.service\n\n[Service]\nType=simple\nExecStart=",
    );
    t.append(exec);
    t.append(
        "\nRestart=on-failure\nRestartSec=2\nLimitRTPRIO=95\nLimitMEMLOCK=64M\n\n[Install]\nWantedBy=default.target\n",
    );
    t
}

/// The row from what was found: no unit, a unit without the executable, or
/// a working unit; the service is usable only in the last case and starts at
/// login when its unit is enabled.
pub open spec fn service_row(installed: bool, has_exe: bool, unit_path: Seq<char>) -> ItemView {
    if !installed {
        item_view(
            NAME@,
            "Not installed"@,
            "Repair installs a user service unit for maestrod."@,
            IntegrationStatus::Missing,
        )
    } else if !has_exe {
        item_view(
            NAME@,
            "Broken"@,
            "The maestrod executable could not be found. Reinstall Maestro, then repair."@,
            IntegrationStatus::Warning,
        )
    } else {
        item_view(
            NAME@,
            "Installed"@,
            "Managed by systemd at "@ + unit_path
                + ". Maestro is switched on and off from the Virtual MIDI Device tab."@,
            IntegrationStatus::Good,
        )
    }
}

pub fn probe(installed: bool, has_exe: bool, unit_path: &str, enabled: bool) -> (s: ServiceState)
    ensures
        s.item@ == service_row(installed, has_exe, unit_path@),
        s.installed == (installed && has_exe),
        s.autostart == (installed && enabled),
{
    let row = if !installed {
        item(
            NAME,
            "Not installed",
            String::from_str("Repair installs a user service unit for maestrod."),
            IntegrationStatus::Missing,
        )
    } else if !has_exe {
        item(
            NAME,
            "Broken",
            String::from_str(
                "The maestrod executable could not be found. Reinstall Maestro, then repair.",
            ),
            IntegrationStatus::Warning,
        )
    } else {
        let mut h = String::from_str("Managed by systemd at ");
        h.append(unit_path);
        h.append(". Maestro is switched on and off from the Virtual MIDI Device tab.");
        item(NAME, "Installed", h, IntegrationStatus::Good)
    };
    ServiceState { item: row, installed: installed && has_exe, autostart: installed && enabled }
}

/// One step of an action.
#[derive(Debug, Clone, PartialEq)]
pub enum ServiceCommand {
    /// Write the unit file (creating its folder).
    WriteUnit { path: String, contents: String },
    /// Run `systemctl` with these arguments; a failure ends the action.
    Systemctl(Vec<String>),
}

fn systemctl(args: &[&str]) -> (c: ServiceCommand)
    ensures
        c matches ServiceCommand::Systemctl(v) && v@.len() == args@.len() && forall|i: int|
            0 <= i < args@.len() ==> v@[i]@ == args@[i]@,
{
    let mut v: Vec<String> = Vec::new();
    let mut i: usize = 0;
    while i < args.len()
        invariant
            0 <= i <= args@.len(),
            v@.len() == i,
            forall|j: int| 0 <= j < i ==> v@[j]@ == args@[j]@,
        decreases args@.len() - i,
    {
        v.push(String::from_str(args[i]));
        i = i + 1;
    }
    ServiceCommand::Systemctl(v)
}

/// `systemctl` run with exactly these arguments.
pub open spec fn is_systemctl(c: ServiceCommand, args: Seq<Seq<char>>) -> bool {
    c matches ServiceCommand::Systemctl(v) && views(v@) == args
}

proof fn lemma_systemctl_views(c: ServiceCommand, args: Seq<&str>)
    requires
        c matches ServiceCommand::Systemctl(v) && v@.len() == args.len() && forall|i: int|
            0 <= i < args.len() ==> v@[i]@ == args[i]@,
    ensures
        is_systemctl(c, args.map_values(|a: &str| a@)),
{
    if let ServiceCommand::Systemctl(v) = c {
        assert(views(v@) =~= args.map_values(|a: &str| a@));
    }
}

pub fn start() -> (c: ServiceCommand)
    ensures
        is_systemctl(c, seq!["--user"@, "start"@, UNIT@]),
{
    let c = systemctl(&["--user", "start", UNIT]);
    proof {
        lemma_systemctl_views(c, seq!["--user", "start", UNIT]);
        assert(seq!["--user", "start", UNIT].map_values(|a: &str| a@) =~= seq![
            "--user"@,
            "start"@,
            UNIT@,
        ]);
    }
    c
}

pub fn stop() -> (c: ServiceCommand)
    ensures
        is_systemctl(c, seq!["--user"@, "stop"@, UNIT@]),
{
    let c = systemctl(&["--user", "stop", UNIT]);
    proof {
        lemma_systemctl_views(c, seq!["--user", "stop", UNIT]);
        assert(seq!["--user", "stop", UNIT].map_values(|a: &str| a@) =~= seq![
            "--user"@,
            "stop"@,
            UNIT@,
        ]);
    }
    c
}

fn daemon_reload() -> (c: ServiceCommand)
    ensures
        is_systemctl(c, seq!["--user"@, "daemon-reload"@]),
{
    let c = systemctl(&["--user", "daemon-reload"]);
    proof {
        lemma_systemctl_views(c, seq!["--user", "daemon-reload"]);
        assert(seq!["--user", "daemon-reload"].map_values(|a: &str| a@) =~= seq![
            "--user"@,
            "daemon-reload"@,
        ]);
    }
    c
}

pub open spec fn missing_exe() -> Seq<char> {
    "The maestrod executable could not be found."@
}

/// Writing the unit for `exec` at `unit_path`, then reloading systemd.
pub open spec fn is_unit_install(steps: Seq<ServiceCommand>, unit_path: Seq<char>, exec: Seq<char>) -> bool {
    &&& steps.len() == 2
    &&& steps[0] matches ServiceCommand::WriteUnit { path, contents } && path@ == unit_path
        && contents@ == unit_head() + exec + unit_tail()
    &&& is_systemctl(steps[1], seq!["--user"@, "daemon-reload"@])
}

/// Turning start-at-login on or off: an uninstalled unit is written first
/// (which needs the executable), then the unit is enabled or disabled.
pub fn set_autostart(on: bool, installed: bool, exec: Option<&str>, unit_path: &str) -> (r: Result<
    Vec<ServiceCommand>,
    String,
>)
    ensures
        !installed && exec is None ==> (r matches Err(m) && m@ == missing_exe()),
        installed || exec is Some ==> (r matches Ok(steps) && {
            let last = steps@.last();
            &&& steps@.len() == if installed {
                1int
            } else {
                3
            }
            &&& !installed ==> is_unit_install(steps@.subrange(0, 2), unit_path@, exec->0@)
            &&& is_systemctl(
                last,
                seq![
                    "--user"@,
                    if on {
                        "enable"@
                    } else {
                        "disable"@
                    },
                    UNIT@,
                ],
            )
        }),
{
    let mut steps: Vec<ServiceCommand> = Vec::new();
    if !installed {
        match exec {
            None => {
                return Err(String::from_str("The maestrod executable could not be found."));
            },
            Some(e) => {
                steps.push(
                    ServiceCommand::WriteUnit {
                        path: String::from_str(unit_path),
                        contents: unit_text(e),
                    },
                );
                steps.push(daemon_reload());
            },
        }
    }
    let verb = if on {
        "enable"
    } else {
        "disable"
    };
    let c = systemctl(&["--user", verb, UNIT]);
    proof {
        lemma_systemctl_views(c, seq!["--user", verb, UNIT]);
        assert(seq!["--user", verb, UNIT].map_values(|a: &str| a@) =~= seq![
            "--user"@,
            if on {
                "enable"@
            } else {
                "disable"@
            },
            UNIT@,
        ]);
    }
    let ghost before = steps@;
    steps.push(c);
    proof {
        if !installed {
            assert(steps@.subrange(0, 2) =~= before);
        }
    }
    Ok(steps)
}

/// The steps of an action: repairing writes the unit and reloads systemd
/// (which needs the executable); start and stop run `systemctl`; the file
/// actions do nothing here.
pub fn act(action: ServiceAction, exec: Option<&str>, unit_path: &str) -> (r: Result<
    Vec<ServiceCommand>,
    String,
>)
    ensures
        action == ServiceAction::Repair ==> match exec {
            None => r matches Err(m) && m@ == missing_exe(),
            Some(e) => r matches Ok(steps) && is_unit_install(steps@, unit_path@, e@),
        },
        action == ServiceAction::Start ==> (r matches Ok(steps) && steps@.len() == 1
            && is_systemctl(steps@[0], seq!["--user"@, "start"@, UNIT@])),
        action == ServiceAction::Stop ==> (r matches Ok(steps) && steps@.len() == 1
            && is_systemctl(steps@[0], seq!["--user"@, "stop"@, UNIT@])),
        (action == ServiceAction::InstallFiles || action == ServiceAction::UninstallFiles) ==> (r
            matches Ok(steps) && steps@.len() == 0),
{
    let mut steps: Vec<ServiceCommand> = Vec::new();
    match action {
        ServiceAction::Repair => match exec {
            None => {
                return Err(String::from_str("The maestrod executable could not be found."));
            },
            Some(e) => {
                steps.push(
                    ServiceCommand::WriteUnit {
                        path: String::from_str(unit_path),
                        contents: unit_text(e),
                    },
                );
                steps.push(daemon_reload());
            },
        },
        ServiceAction::Start => {
            steps.push(start());
        },
        ServiceAction::Stop => {
            steps.push(stop());
        },
        _ => {},
    }
    Ok(steps)
}

/// The message of a `systemctl` run that failed with this (trimmed) error
/// output.
pub fn run_failure(program: &str, args: &Vec<String>, message: &str) -> (m: String)
    ensures
        m@ == program@ + " "@ + joined(views(args@), " "@)
            + " failed. Check the System Integration tab to ensure Maestro is correctly installed.\n\nError:"@
            + message@,
{
    let mut m = String::from_str(program);
    m.append(" ");
    let a = crate::fmt::join(args, " ");
    m.append(a.as_str());
    m.append(
        " failed. Check the System Integration tab to ensure Maestro is correctly installed.\n\nError:",
    );
    m.append(message);
    m
}

} // verus!
