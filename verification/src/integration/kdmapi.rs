//! The KDMAPI row: whether Maestro's KDMAPI library is linked into the
//! system library folder, and what installing or removing it reports.

use crate::integration::item::{item, item_view, IntegrationItem, IntegrationStatus, ItemView};
use vstd::prelude::*;

verus! {

/// File name of the KDMAPI library on this platform.
pub const KDMAPI_FILENAME: &'static str = "libOmniMIDI.so";

/// Arguments of the privileged helper that links and unlinks the library.
pub const INSTALL_KDMAPI: &'static str = "install-kdmapi";
pub const UNINSTALL_KDMAPI: &'static str = "uninstall-kdmapi";

pub const FOREIGN_HINT: &'static str = "The system KDMAPI library belongs to OmniMIDI. Uninstall OmniMIDI before letting Maestro provide KDMAPI.";

/// What the user asked for.
#[derive(Debug, Clone, Copy, PartialEq, Eq, Structural)]
pub enum KdmapiAction {
    Install,
    Uninstall,
}

/// The row, and whether installing is blocked by a foreign library.
#[derive(Debug, Clone)]
pub struct KdmapiState {
    pub item: IntegrationItem,
    pub blocked: bool,
}

/// Where the system library goes: the 64-bit library folder where there is
/// one, else the plain one.
pub open spec fn kdmapi_target_path(lib64_is_dir: bool) -> Seq<char> {
    (if lib64_is_dir {
        "/usr/lib64"@
    } else {
        "/usr/lib"@
    }) + "/"@ + KDMAPI_FILENAME@
}

pub fn kdmapi_target(lib64_is_dir: bool) -> (p: String)
    ensures
        p@ == kdmapi_target_path(lib64_is_dir),
{
    let mut p = if lib64_is_dir {
        String::from_str("/usr/lib64")
    } else {
        String::from_str("/usr/lib")
    };
    p.append("/");
    p.append(KDMAPI_FILENAME);
    p
}

/// The links installing creates, as (source, link) pairs: the native library
/// at the system target, then the 32-bit library in the 32-bit folder when
/// the system has one. A source is `None` when the program folder lacks it.
pub fn kdmapi_links(
    native_source: Option<String>,
    lib64_is_dir: bool,
    x86_source: Option<String>,
    lib32_dir: Option<String>,
) -> (links: Vec<(Option<String>, String)>)
    ensures
        links@.len() == if lib32_dir is Some {
            2int
        } else {
            1
        },
        links@[0].0 == native_source,
        links@[0].1@ == kdmapi_target_path(lib64_is_dir),
        lib32_dir matches Some(d) ==> links@[1].0 == x86_source && links@[1].1@ == d@ + "/"@
            + KDMAPI_FILENAME@,
{
    let mut links: Vec<(Option<String>, String)> = Vec::new();
    links.push((native_source, kdmapi_target(lib64_is_dir)));
    match lib32_dir {
        Some(d) => {
            let mut target = d;
            target.append("/");
            target.append(KDMAPI_FILENAME);
            links.push((x86_source, target));
        },
        None => {},
    }
    links
}

/// What the row shows, from what was found at the target: nothing (and
/// whether the program folder has the library to link), Maestro's library,
/// or someone else's (which blocks installing).
pub open spec fn kdmapi_row(
    target: Seq<char>,
    target_exists: bool,
    library_found: bool,
    is_maestro: bool,
) -> (ItemView, bool) {
    if !target_exists {
        (
            item_view(
                "KDMAPI"@,
                "Not installed"@,
                if library_found {
                    "Not installed. Installing links it into "@ + target + "."@
                } else {
                    KDMAPI_FILENAME@ + " was not found in the Maestro program folder."@
                },
                IntegrationStatus::Missing,
            ),
            false,
        )
    } else if is_maestro {
        (
            item_view(
                "KDMAPI"@,
                "Installed"@,
                "Provided by Maestro at "@ + target + "."@,
                IntegrationStatus::Good,
            ),
            false,
        )
    } else {
        (
            item_view("KDMAPI"@, "Owned by OmniMIDI"@, FOREIGN_HINT@, IntegrationStatus::Warning),
            true,
        )
    }
}

pub fn probe(target: &str, target_exists: bool, library_found: bool, is_maestro: bool) -> (s:
    KdmapiState)
    ensures
        (s.item@, s.blocked) == kdmapi_row(target@, target_exists, library_found, is_maestro),
{
    if !target_exists {
        let hint = if library_found {
            let mut h = String::from_str("Not installed. Installing links it into ");
            h.append(target);
            h.append(".");
            h
        } else {
            let mut h = String::from_str(KDMAPI_FILENAME);
            h.append(" was not found in the Maestro program folder.");
            h
        };
        return KdmapiState {
            item: item("KDMAPI", "Not installed", hint, IntegrationStatus::Missing),
            blocked: false,
        };
    }
    if is_maestro {
        let mut h = String::from_str("Provided by Maestro at ");
        h.append(target);
        h.append(".");
        KdmapiState { item: item("KDMAPI", "Installed", h, IntegrationStatus::Good), blocked: false }
    } else {
        KdmapiState {
            item: item(
                "KDMAPI",
                "Owned by OmniMIDI",
                String::from_str(FOREIGN_HINT),
                IntegrationStatus::Warning,
            ),
            blocked: true,
        }
    }
}

/// The privileged helper command for an action.
pub fn command(action: KdmapiAction) -> (c: &'static str)
    ensures
        c@ == match action {
            KdmapiAction::Install => INSTALL_KDMAPI@,
            KdmapiAction::Uninstall => UNINSTALL_KDMAPI@,
        },
{
    match action {
        KdmapiAction::Install => INSTALL_KDMAPI,
        KdmapiAction::Uninstall => UNINSTALL_KDMAPI,
    }
}

/// What an action reports, from the helper's exit code or the reason it
/// could not be run: success for 0, the foreign-library hint for 2, a link
/// failure for any other code.
pub open spec fn act_outcome(run: Result<i32, Seq<char>>) -> Result<(), Seq<char>> {
    match run {
        Ok(code) => if code == 0 {
            Ok(())
        } else if code == 2 {
            Err(FOREIGN_HINT@)
        } else {
            Err("The KDMAPI library could not be linked into the system path."@)
        },
        Err(e) => Err("Could not run the operation with elevated rights: "@ + e),
    }
}

pub fn act(run: Result<i32, String>) -> (r: Result<(), String>)
    ensures
        match r {
            Ok(()) => act_outcome(match run {
                Ok(c) => Ok(c),
                Err(e) => Err(e@),
            }) == Ok::<(), Seq<char>>(()),
            Err(m) => act_outcome(match run {
                Ok(c) => Ok(c),
                Err(e) => Err(e@),
            }) == Err::<(), Seq<char>>(m@),
        },
{
    match run {
        Ok(0) => Ok(()),
        Ok(2) => Err(String::from_str(FOREIGN_HINT)),
        Ok(_) => Err(String::from_str("The KDMAPI library could not be linked into the system path.")),
        Err(e) => {
            let mut m = String::from_str("Could not run the operation with elevated rights: ");
            m.append(e.as_str());
            Err(m)
        },
    }
}

} // verus!
