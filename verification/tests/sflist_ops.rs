use maestro::sflist_ops::{
    create_check, delete_check, deleted_notice, is_valid_list_name, list_file_name, rename_check,
    renamed_notice, selection_after_delete, DeleteStep, RenameStep,
};

fn names(v: &[&str]) -> Vec<String> {
    v.iter().map(|s| s.to_string()).collect()
}

#[test]
fn list_names_are_plain_file_names() {
    assert!(is_valid_list_name("Pianos"));
    assert!(is_valid_list_name("my list.v2"));
    assert!(!is_valid_list_name(""));
    assert!(!is_valid_list_name("a/b"));
    assert!(!is_valid_list_name("a\\b"));
    assert!(!is_valid_list_name("."));
    assert!(!is_valid_list_name(".."));
    assert!(is_valid_list_name("..."));
    assert_eq!(list_file_name("Pianos"), "Pianos.json");
}

#[test]
fn creating_refuses_bad_and_taken_names() {
    let existing = names(&["Default", "Pianos"]);
    assert_eq!(create_check("Strings", &existing), Ok(()));
    assert_eq!(create_check("x/y", &existing), Err("Invalid SoundFont list name.".to_string()));
    assert_eq!(
        create_check("Pianos", &existing),
        Err("A SoundFont list named 'Pianos' already exists.".to_string())
    );
}

#[test]
fn the_default_list_cannot_be_deleted() {
    let existing = names(&["Default", "Pianos"]);
    assert_eq!(
        delete_check(0, &existing),
        DeleteStep::Refuse("The Default SoundFont list cannot be deleted.".to_string())
    );
    assert_eq!(delete_check(1, &existing), DeleteStep::Delete(1));
    assert_eq!(delete_check(2, &existing), DeleteStep::Nothing);
    assert_eq!(delete_check(-1, &existing), DeleteStep::Nothing);
}

#[test]
fn the_selection_follows_a_deletion() {
    // Nothing left.
    assert_eq!(selection_after_delete(0, 0, 0), -1);
    // A selection after the removed list moves up.
    assert_eq!(selection_after_delete(3, 1, 4), 2);
    // Before it, it stays.
    assert_eq!(selection_after_delete(0, 1, 4), 0);
    // The removed last list pulls the selection back into range.
    assert_eq!(selection_after_delete(4, 4, 4), 3);
    // No selection stays none.
    assert_eq!(selection_after_delete(-1, 2, 3), -1);
}

#[test]
fn renaming_checks_the_new_name() {
    let existing = names(&["Default", "Pianos", "Drums"]);
    assert_eq!(rename_check(1, "Keys", &existing), RenameStep::Rename(1));
    assert_eq!(rename_check(1, "Pianos", &existing), RenameStep::Nothing);
    assert_eq!(
        rename_check(1, "Drums", &existing),
        RenameStep::Refuse("A SoundFont list named 'Drums' already exists.".to_string())
    );
    assert_eq!(
        rename_check(1, "", &existing),
        RenameStep::Refuse("Invalid SoundFont list name.".to_string())
    );
    assert_eq!(rename_check(7, "Keys", &existing), RenameStep::Nothing);
}

#[test]
fn notices() {
    assert_eq!(
        deleted_notice("Pianos", "component config(s) [system]"),
        "References to 'Pianos' in component config(s) [system] were switched to the 'Default' list."
    );
    assert_eq!(
        renamed_notice("Pianos", "1 render queue entrie(s)", "Keys"),
        "References to 'Pianos' in 1 render queue entrie(s) were updated to 'Keys'."
    );
}
