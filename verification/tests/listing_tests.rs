use egui_file::filter::AcceptAll;
use egui_file::listing::build_listing;
use egui_file::RawEntry;
use egui_file::SuffixFilter;

fn raw(path: &str, dir: bool) -> RawEntry {
    RawEntry { path: path.to_string(), dir, regular_file: !dir }
}

fn names(listing: &[egui_file::FileInfo]) -> Vec<String> {
    listing.iter().map(egui_file::get_file_name).collect()
}

#[test]
fn directories_sort_before_files_lexicographically() {
    let entries = vec![
        raw("/d/b", false),
        raw("/d/a", true),
        raw("/d/a", false),
        raw("/d/z", true),
        raw("/d/c", false),
    ];
    let listing = build_listing(&AcceptAll, false, entries, Vec::new());
    assert_eq!(names(&listing), vec!["a", "z", "a", "b", "c"]);
    assert!(listing[0].dir && listing[1].dir);
    assert!(!listing[2].dir && !listing[3].dir && !listing[4].dir);
}

#[test]
fn hidden_entries_are_suppressed_until_toggled() {
    let entries = || {
        vec![raw("/d/.git", true), raw("/d/.env", false), raw("/d/src", true), raw("/d/a", false)]
    };
    let hidden_off = build_listing(&AcceptAll, false, entries(), Vec::new());
    assert_eq!(names(&hidden_off), vec!["src", "a"]);
    let hidden_on = build_listing(&AcceptAll, true, entries(), Vec::new());
    assert_eq!(names(&hidden_on), vec![".git", "src", ".env", "a"]);
}

#[test]
fn show_files_predicate_drops_files_but_never_directories() {
    let filter = SuffixFilter { suffix: ".txt".to_string() };
    let entries = vec![raw("/d/a.txt", false), raw("/d/b.md", false), raw("/d/sub", true)];
    let listing = build_listing(&filter, false, entries, Vec::new());
    assert_eq!(names(&listing), vec!["sub", "a.txt"]);
}

#[test]
fn inaccessible_regular_files_are_dropped() {
    let entries = vec![
        RawEntry { path: "/d/gone".to_string(), dir: false, regular_file: false },
        RawEntry { path: "/d/here".to_string(), dir: false, regular_file: true },
    ];
    let listing = build_listing(&AcceptAll, false, entries, Vec::new());
    assert_eq!(names(&listing), vec!["here"]);
}

#[test]
fn drive_roots_become_directory_entries() {
    let entries = vec![raw("/d/a", false), raw("/d/b", true)];
    let drives = vec!["C:\\".to_string(), "A:\\".to_string()];
    let listing = build_listing(&AcceptAll, false, entries, drives);
    assert_eq!(names(&listing), vec!["A:\\", "C:\\", "b", "a"]);
    assert!(listing[0].dir && listing[1].dir && listing[2].dir);
    assert!(!listing[3].dir);
}

#[test]
fn empty_input_gives_empty_listing() {
    let listing = build_listing(&AcceptAll, false, Vec::new(), Vec::new());
    assert!(listing.is_empty());
}
