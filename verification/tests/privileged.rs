use maestro::privileged::{privileged_command, PrivCommand};

fn args(v: &[&str]) -> Vec<String> {
    v.iter().map(|s| s.to_string()).collect()
}

#[test]
fn the_helper_commands_are_read_from_the_first_argument() {
    assert_eq!(
        privileged_command(&args(&["maestro", "install-kdmapi"]), false),
        Some(PrivCommand::InstallKdmapi)
    );
    assert_eq!(
        privileged_command(&args(&["maestro", "uninstall-kdmapi", "x"]), false),
        Some(PrivCommand::UninstallKdmapi)
    );
    assert_eq!(privileged_command(&args(&["maestro"]), true), None);
    assert_eq!(privileged_command(&args(&["maestro", "edit-list", "a.json"]), true), None);
}

#[test]
fn driver_commands_exist_only_with_the_driver() {
    assert_eq!(privileged_command(&args(&["maestro", "install-driver"]), false), None);
    assert_eq!(
        privileged_command(&args(&["maestro", "install-driver"]), true),
        Some(PrivCommand::InstallDriver)
    );
    assert_eq!(
        privileged_command(&args(&["maestro", "uninstall-driver"]), true),
        Some(PrivCommand::UninstallDriver)
    );
}
