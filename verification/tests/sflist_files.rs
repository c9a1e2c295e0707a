use maestro::sflist_files::{list_files_found, soundfont_list_files};

fn entries(v: &[(&str, &str)]) -> Vec<(String, String)> {
    v.iter().map(|(n, p)| (n.to_string(), p.to_string())).collect()
}

#[test]
fn lists_are_sorted_and_the_first_file_of_a_name_wins() {
    let found = entries(&[
        ("Strings", "/a/Strings.json"),
        ("Default", "/a/Default.json"),
        ("Pianos", "/a/Pianos.json"),
        ("Strings", "/b/Strings.json"),
    ]);
    let out = soundfont_list_files(&found, "/sflists/Default.json");
    assert_eq!(
        out,
        entries(&[
            ("Default", "/a/Default.json"),
            ("Pianos", "/a/Pianos.json"),
            ("Strings", "/a/Strings.json"),
        ])
    );
}

#[test]
fn a_missing_default_list_is_offered_first() {
    let found = entries(&[("Pianos", "/a/Pianos.json"), ("Bass", "/b/Bass.json")]);
    let out = soundfont_list_files(&found, "/sflists/Default.json");
    assert_eq!(
        out,
        entries(&[
            ("Default", "/sflists/Default.json"),
            ("Bass", "/b/Bass.json"),
            ("Pianos", "/a/Pianos.json"),
        ])
    );
}

#[test]
fn nothing_found_still_offers_the_default_list() {
    let out = soundfont_list_files(&Vec::new(), "/sflists/Default.json");
    assert_eq!(out, entries(&[("Default", "/sflists/Default.json")]));
}

#[test]
fn names_order_by_code_point() {
    let found = entries(&[("b", "/1"), ("B", "/2"), ("a", "/3"), ("Default", "/4")]);
    let out = soundfont_list_files(&found, "/d");
    let names: Vec<&str> = out.iter().map(|(n, _)| n.as_str()).collect();
    assert_eq!(names, vec!["B", "Default", "a", "b"]);
}

#[test]
fn only_json_files_are_lists() {
    let paths: Vec<String> = ["/a/Pianos.json", "/a/notes.txt", "/a/.json", "/b/Strings.v2.json", "/b/README"]
        .iter()
        .map(|s| s.to_string())
        .collect();
    assert_eq!(
        list_files_found(&paths),
        entries(&[("Pianos", "/a/Pianos.json"), ("Strings.v2", "/b/Strings.v2.json")])
    );
}
