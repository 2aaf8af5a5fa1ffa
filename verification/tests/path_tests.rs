use egui_file::entry::FileInfo;
use egui_file::filter::ends_with;
use egui_file::is_drive_root;
use egui_file::path_model::{file_name_of, is_hidden_name, join_path, parent_of, with_file_name};

#[test]
fn file_name_of_plain_paths() {
    assert_eq!(file_name_of(&"/tmp/a.txt".to_string()), "a.txt");
    assert_eq!(file_name_of(&"/tmp".to_string()), "tmp");
    assert_eq!(file_name_of(&"abc".to_string()), "abc");
    assert_eq!(file_name_of(&"/".to_string()), "");
    assert_eq!(file_name_of(&"".to_string()), "");
}

#[test]
fn parent_of_pops_one_component() {
    assert_eq!(parent_of(&"/tmp/a".to_string()), Some("/tmp".to_string()));
    assert_eq!(parent_of(&"/tmp".to_string()), Some("/".to_string()));
    assert_eq!(parent_of(&"/".to_string()), None);
    assert_eq!(parent_of(&"".to_string()), None);
    assert_eq!(parent_of(&"a".to_string()), Some("".to_string()));
}

#[test]
fn join_path_inserts_one_separator() {
    assert_eq!(join_path(&"/tmp".to_string(), &"a.txt".to_string()), "/tmp/a.txt");
    assert_eq!(join_path(&"/".to_string(), &"tmp".to_string()), "/tmp");
    assert_eq!(join_path(&"".to_string(), &"x".to_string()), "x");
}

#[test]
fn with_file_name_replaces_final_component() {
    assert_eq!(with_file_name(&"/tmp/a".to_string(), &"b".to_string()), "/tmp/b");
    assert_eq!(with_file_name(&"/a/b/c.txt".to_string(), &"d.md".to_string()), "/a/b/d.md");
    assert_eq!(with_file_name(&"a".to_string(), &"b".to_string()), "b");
}

#[test]
fn drive_roots_are_capital_colon_backslash() {
    assert!(is_drive_root(&"C:\\".to_string()));
    assert!(is_drive_root(&"A:\\".to_string()));
    assert!(!is_drive_root(&"c:\\".to_string()));
    assert!(!is_drive_root(&"C:/".to_string()));
    assert!(!is_drive_root(&"C:\\x".to_string()));
    assert!(!is_drive_root(&"".to_string()));
}

#[test]
fn hidden_names_start_with_a_dot() {
    assert!(is_hidden_name(&".git".to_string()));
    assert!(!is_hidden_name(&"git".to_string()));
    assert!(!is_hidden_name(&"".to_string()));
}

#[test]
fn ends_with_checks_suffix() {
    assert!(ends_with(&"a.txt".to_string(), &".txt".to_string()));
    assert!(!ends_with(&"a.md".to_string(), &".txt".to_string()));
    assert!(ends_with(&"x".to_string(), &"".to_string()));
    assert!(!ends_with(&"".to_string(), &"a".to_string()));
}

#[test]
fn display_name_of_drive_root_is_the_whole_path() {
    let drive = FileInfo::new("C:\\".to_string(), true);
    assert_eq!(egui_file::get_file_name(&drive), "C:\\");
    let file = FileInfo::new("/a/b.txt".to_string(), false);
    assert_eq!(egui_file::get_file_name(&file), "b.txt");
    assert!(!file.selected);
}
