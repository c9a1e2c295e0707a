//! The WinMM driver row on Windows: what the driver's registration check
//! reports, and the privileged steps each action takes.

use crate::fmt::{decimal, joined, push_decimal};
use crate::integration::item::{item, item_view, IntegrationStatus, ItemView};
use crate::integration::service::{ServiceAction, ServiceState};
use vstd::prelude::*;

verus! {

pub const NAME: &'static str = "WinMM Driver";

/// Check bits: the driver files are missing from a system folder.
pub const MISSING_FILES: u32 = 24;

/// Check bits: a registry entry is missing.
pub const MISSING_REG: u32 = 7;

/// Whether bit `k` of a check status is set.
pub open spec fn bit(status: u32, k: nat) -> bool {
    (status as nat / vstd::arithmetic::power2::pow2(k)) % 2 == 1
}

/// The reason behind check bit `k` (0..4), capitalised or not.
pub open spec fn reason(k: nat, capital: bool) -> Seq<char> {
    if k == 0 {
        if capital {
            "The 64-bit registry entry is missing"@
        } else {
            "the 64-bit registry entry is missing"@
        }
    } else if k == 1 {
        if capital {
            "The 32-bit registry entry is missing"@
        } else {
            "the 32-bit registry entry is missing"@
        }
    } else if k == 2 {
        if capital {
            "The device is not registered"@
        } else {
            "the device is not registered"@
        }
    } else if k == 3 {
        if capital {
            "Maestrodrv.dll is missing from System32"@
        } else {
            "maestrodrv.dll is missing from System32"@
        }
    } else {
        if capital {
            "Maestrodrv.dll is missing from SysWOW64"@
        } else {
            "maestrodrv.dll is missing from SysWOW64"@
        }
    }
}

/// The reasons among bits `0..n` of a status, in bit order, the first one
/// capitalised.
pub open spec fn reasons(status: u32, n: nat) -> Seq<Seq<char>>
    decreases n,
{
    if n == 0 {
        Seq::empty()
    } else {
        let pre = reasons(status, (n - 1) as nat);
        if bit(status, (n - 1) as nat) {
            pre.push(reason((n - 1) as nat, pre.len() == 0))
        } else {
            pre
        }
    }
}

/// What a check status says, as a sentence start: the reasons of its five
/// bits joined with commas, or a generic statement when none is set.
pub open spec fn describe_text(status: u32) -> Seq<char> {
    if reasons(status, 5).len() == 0 {
        "The driver is not registered"@
    } else {
        joined(reasons(status, 5), ", "@)
    }
}

fn reason_str(k: u32, capital: bool) -> (s: &'static str)
    requires
        k < 5,
    ensures
        s@ == reason(k as nat, capital),
{
    match (k, capital) {
        (0, true) => "The 64-bit registry entry is missing",
        (0, false) => "the 64-bit registry entry is missing",
        (1, true) => "The 32-bit registry entry is missing",
        (1, false) => "the 32-bit registry entry is missing",
        (2, true) => "The device is not registered",
        (2, false) => "the device is not registered",
        (3, true) => "Maestrodrv.dll is missing from System32",
        (3, false) => "maestrodrv.dll is missing from System32",
        (_, true) => "Maestrodrv.dll is missing from SysWOW64",
        (_, false) => "maestrodrv.dll is missing from SysWOW64",
    }
}

fn has_bit(status: u32, k: u32) -> (b: bool)
    requires
        k < 32,
    ensures
        b == bit(status, k as nat),
{
    let q = status >> k;
    let b = q & 1 == 1;
    proof {
        vstd::bits::lemma_u32_shr_is_div(status, k);
        assert((q & 1 == 1) == (q % 2 == 1)) by (bit_vector);
    }
    b
}

pub fn describe(status: u32) -> (s: String)
    ensures
        s@ == describe_text(status),
{
    let mut listed: Vec<String> = Vec::new();
    let mut k: u32 = 0;
    while k < 5
        invariant
            k <= 5,
            crate::fmt::views(listed@) == reasons(status, k as nat),
        decreases 5 - k,
    {
        if has_bit(status, k) {
            let first = listed.len() == 0;
            let ghost before = listed@;
            listed.push(String::from_str(reason_str(k, first)));
            proof {
                assert(crate::fmt::views(listed@) =~= crate::fmt::views(before).push(
                    reason(k as nat, first),
                ));
            }
        }
        k = k + 1;
    }
    if listed.len() == 0 {
        String::from_str("The driver is not registered")
    } else {
        crate::fmt::join(&listed, ", ")
    }
}

/// The row from the registration check: no check possible (the driver is
/// missing from the program folder), an unreadable registry (255), all good
/// (0), or what is missing.
pub open spec fn winmm_row(check: Option<u32>) -> ItemView {
    match check {
        None => item_view(
            NAME@,
            "Unknown"@,
            "maestrodrv.dll was not found in the Maestro program folder."@,
            IntegrationStatus::Unknown,
        ),
        Some(s) => if s == 255 {
            item_view(
                NAME@,
                "Unknown"@,
                "The driver registry could not be read."@,
                IntegrationStatus::Unknown,
            )
        } else if s == 0 {
            item_view(
                NAME@,
                "Registered"@,
                "Applications can use Maestro through WinMM."@,
                IntegrationStatus::Good,
            )
        } else {
            item_view(
                NAME@,
                "Not registered"@,
                describe_text(s) + ". Repair fixes this."@,
                IntegrationStatus::Missing,
            )
        },
    }
}

pub fn probe(check: Option<u32>, autostart: bool) -> (s: ServiceState)
    ensures
        s.item@ == winmm_row(check),
        s.installed == (s.item.status == IntegrationStatus::Good),
        s.autostart == autostart,
{
    let row = match check {
        None => item(
            NAME,
            "Unknown",
            String::from_str("maestrodrv.dll was not found in the Maestro program folder."),
            IntegrationStatus::Unknown,
        ),
        Some(255) => item(
            NAME,
            "Unknown",
            String::from_str("The driver registry could not be read."),
            IntegrationStatus::Unknown,
        ),
        Some(0) => item(
            NAME,
            "Registered",
            String::from_str("Applications can use Maestro through WinMM."),
            IntegrationStatus::Good,
        ),
        Some(status) => {
            let mut h = describe(status);
            h.append(". Repair fixes this.");
            item(NAME, "Not registered", h, IntegrationStatus::Missing)
        },
    };
    let installed = row.status == IntegrationStatus::Good;
    ServiceState { item: row, installed, autostart }
}

/// A privileged step of a WinMM action.
#[derive(Debug, Clone, Copy, PartialEq, Eq, Structural)]
pub enum WinmmStep {
    /// Link the driver files into the system folders.
    LinkFiles,
    /// Remove the links from the system folders.
    UnlinkFiles,
    /// Run the driver's registration entry point.
    Register,
    /// Run the driver's unregistration entry point.
    Unregister,
    /// Start the service executable, detached.
    StartService,
    /// Ask running instances to shut down.
    StopService,
}

/// The steps of an action, in order; each failure ends the action. A repair
/// links the files when a file bit is set and registers when a registry bit
/// is set, reading an unknown status as everything missing.
pub open spec fn winmm_steps(action: ServiceAction, check: Option<u32>) -> Seq<WinmmStep> {
    let status = match check {
        Some(s) => s,
        None => 255u32,
    };
    match action {
        ServiceAction::Repair => (if bit(status, 3) || bit(status, 4) {
            seq![WinmmStep::LinkFiles]
        } else {
            Seq::empty()
        }) + (if bit(status, 0) || bit(status, 1) || bit(status, 2) {
            seq![WinmmStep::Register]
        } else {
            Seq::empty()
        }),
        ServiceAction::Start => seq![WinmmStep::StartService],
        ServiceAction::Stop => seq![WinmmStep::StopService],
        ServiceAction::InstallFiles => seq![WinmmStep::LinkFiles],
        ServiceAction::UninstallFiles => seq![WinmmStep::Unregister, WinmmStep::UnlinkFiles],
    }
}

pub fn act(action: ServiceAction, check: Option<u32>) -> (steps: Vec<WinmmStep>)
    ensures
        steps@ == winmm_steps(action, check),
{
    let mut steps: Vec<WinmmStep> = Vec::new();
    match action {
        ServiceAction::Repair => {
            let status = match check {
                Some(s) => s,
                None => 255,
            };
            if has_bit(status, 3) || has_bit(status, 4) {
                steps.push(WinmmStep::LinkFiles);
            }
            if has_bit(status, 0) || has_bit(status, 1) || has_bit(status, 2) {
                steps.push(WinmmStep::Register);
            }
        },
        ServiceAction::Start => {
            steps.push(WinmmStep::StartService);
        },
        ServiceAction::Stop => {
            steps.push(WinmmStep::StopService);
        },
        ServiceAction::InstallFiles => {
            steps.push(WinmmStep::LinkFiles);
        },
        ServiceAction::UninstallFiles => {
            steps.push(WinmmStep::Unregister);
            steps.push(WinmmStep::UnlinkFiles);
        },
    }
    proof {
        assert(steps@ =~= winmm_steps(action, check));
    }
    steps
}

/// What stopping reports, from how many instances were asked to shut down.
pub fn stop(signalled: u32) -> (r: Result<(), String>)
    ensures
        signalled == 0 <==> r is Err,
        r matches Err(m) ==> m@ == "Maestro does not appear to be running."@,
{
    if signalled == 0 {
        Err(String::from_str("Maestro does not appear to be running."))
    } else {
        Ok(())
    }
}

/// The `rundll32` argument that runs an entry point of the driver library.
pub fn entry(dll: &str, function: &str) -> (s: String)
    ensures
        s@ == dll@ + ","@ + function@,
{
    let mut s = String::from_str(dll);
    s.append(",");
    s.append(function);
    s
}

/// An `i32` in decimal, with a minus sign when negative.
pub open spec fn signed_decimal(v: i32) -> Seq<char> {
    if v < 0 {
        "-"@ + decimal((-(v as int)) as nat)
    } else {
        decimal(v as nat)
    }
}

pub open spec fn elevation_failure(e: Seq<char>) -> Seq<char> {
    "Could not run the operation with elevated rights: "@ + e
}

/// What running a registration entry point with elevated rights reports.
pub fn registration_outcome(run: Result<i32, String>) -> (r: Result<(), String>)
    ensures
        match run {
            Ok(c) => if c == 0 {
                r is Ok
            } else {
                r matches Err(m) && m@ == "The driver registration failed with code "@
                    + signed_decimal(c) + "."@
            },
            Err(e) => r matches Err(m) && m@ == elevation_failure(e@),
        },
{
    match run {
        Ok(0) => Ok(()),
        Ok(code) => {
            let mut m = String::from_str("The driver registration failed with code ");
            if code < 0 {
                m.append("-");
                let magnitude: u64 = (0i64 - code as i64) as u64;
                push_decimal(&mut m, magnitude);
            } else {
                push_decimal(&mut m, code as u64);
            }
            m.append(".");
            Err(m)
        },
        Err(e) => {
            let mut m = String::from_str("Could not run the operation with elevated rights: ");
            m.append(e.as_str());
            Err(m)
        },
    }
}

/// What linking or unlinking the driver files with elevated rights reports.
pub fn link_outcome(run: Result<i32, String>) -> (r: Result<(), String>)
    ensures
        match run {
            Ok(c) => if c == 0 {
                r is Ok
            } else {
                r matches Err(m) && m@
                    == "The driver files could not be linked into the system folders."@
            },
            Err(e) => r matches Err(m) && m@ == elevation_failure(e@),
        },
{
    match run {
        Ok(0) => Ok(()),
        Ok(_) => Err(String::from_str("The driver files could not be linked into the system folders.")),
        Err(e) => {
            let mut m = String::from_str("Could not run the operation with elevated rights: ");
            m.append(e.as_str());
            Err(m)
        },
    }
}

} // verus!
