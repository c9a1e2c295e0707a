//! The privileged helper's command line: the program is started again with
//! administrator rights and one argument naming what to link or unlink.

use crate::integration::kdmapi::{INSTALL_KDMAPI, UNINSTALL_KDMAPI};
use crate::text::str_eq;
use vstd::prelude::*;

verus! {

/// Arguments of the privileged helper that registers the WinMM driver.
pub const INSTALL_DRIVER: &'static str = "install-driver";
pub const UNINSTALL_DRIVER: &'static str = "uninstall-driver";

/// What the privileged helper is asked to do.
#[derive(Debug, Clone, Copy, PartialEq, Eq, Structural)]
pub enum PrivCommand {
    InstallKdmapi,
    UninstallKdmapi,
    InstallDriver,
    UninstallDriver,
}

/// The command named by the argument after the program name; the driver
/// commands exist only where the platform has the WinMM driver.
pub open spec fn command_for(args: Seq<Seq<char>>, with_driver: bool) -> Option<PrivCommand> {
    if args.len() < 2 {
        None
    } else if args[1] == INSTALL_KDMAPI@ {
        Some(PrivCommand::InstallKdmapi)
    } else if args[1] == UNINSTALL_KDMAPI@ {
        Some(PrivCommand::UninstallKdmapi)
    } else if with_driver && args[1] == INSTALL_DRIVER@ {
        Some(PrivCommand::InstallDriver)
    } else if with_driver && args[1] == UNINSTALL_DRIVER@ {
        Some(PrivCommand::UninstallDriver)
    } else {
        None
    }
}

/// Reads the privileged helper's command from the program's arguments;
/// `None` means the program was not started as the helper.
pub fn privileged_command(args: &Vec<String>, with_driver: bool) -> (c: Option<PrivCommand>)
    ensures
        c == command_for(crate::fmt::views(args@), with_driver),
{
    if args.len() < 2 {
        return None;
    }
    let arg = args[1].as_str();
    if str_eq(arg, INSTALL_KDMAPI) {
        Some(PrivCommand::InstallKdmapi)
    } else if str_eq(arg, UNINSTALL_KDMAPI) {
        Some(PrivCommand::UninstallKdmapi)
    } else if with_driver && str_eq(arg, INSTALL_DRIVER) {
        Some(PrivCommand::InstallDriver)
    } else if with_driver && str_eq(arg, UNINSTALL_DRIVER) {
        Some(PrivCommand::UninstallDriver)
    } else {
        None
    }
}

} // verus!
