use egui_file::dialog::{frame_transition, Action, Command, FileDialog};
use egui_file::filter::AcceptAll;
use egui_file::{DialogType, FileInfo, RawEntry, State, SuffixFilter};

fn raw(path: &str, dir: bool) -> RawEntry {
    RawEntry { path: path.to_string(), dir, regular_file: !dir }
}

fn listing_of(d: &FileDialog<AcceptAll, AcceptAll>) -> &Vec<FileInfo> {
    match &d.files {
        Ok(files) => files,
        Err(e) => panic!("unexpected listing error: {e}"),
    }
}

fn flags(d: &FileDialog<AcceptAll, AcceptAll>) -> Vec<bool> {
    listing_of(d).iter().map(|f| f.selected).collect()
}

fn open_multi_abc() -> FileDialog<AcceptAll, AcceptAll> {
    let mut d = FileDialog::open_file("/d".to_string(), false).multi_select(true);
    d.open();
    assert!(d.needs_refresh);
    d.provide_listing(Ok(vec![raw("/d/a", false), raw("/d/b", false), raw("/d/c", false)]), Vec::new());
    assert!(!d.needs_refresh);
    d
}

#[test]
fn save_file_scenario_confirms_joined_path() {
    let mut d = FileDialog::save_file("/tmp".to_string(), false)
        .filename_filter(SuffixFilter { suffix: ".txt".to_string() })
        .default_filename("a.txt".to_string());
    d.open();
    d.provide_listing(Ok(Vec::new()), Vec::new());
    assert_eq!(d.state(), State::Open);
    assert!(d.can_save());
    d.commit_filename(false, false);
    assert_eq!(d.state(), State::Selected);
    assert!(d.selected());
    assert_eq!(d.path().unwrap(), "/tmp/a.txt");
}

#[test]
fn save_is_refused_by_the_predicate() {
    let mut d = FileDialog::save_file("/tmp".to_string(), false)
        .filename_filter(SuffixFilter { suffix: ".txt".to_string() })
        .default_filename("a.md".to_string());
    d.open();
    d.provide_listing(Ok(Vec::new()), Vec::new());
    assert!(!d.can_save());
    d.commit_filename(false, false);
    assert_eq!(d.state(), State::Open);
    assert!(d.path().is_none());
}

#[test]
fn multi_select_range_scenario_confirms_all_three() {
    let mut d = open_multi_abc();
    d.select_exclusive(0);
    assert_eq!(flags(&d), vec![true, false, false]);
    d.select_range(2);
    assert_eq!(flags(&d), vec![true, true, true]);
    assert!(d.can_open());
    let act = d.execute(Command::OpenSelected);
    assert!(matches!(act, Action::Nothing));
    assert_eq!(d.state(), State::Selected);
    assert_eq!(d.selection(), vec!["/d/a", "/d/b", "/d/c"]);
}

#[test]
fn range_click_leaves_flags_outside_the_span_untouched() {
    let mut d = FileDialog::open_file("/d".to_string(), false).multi_select(true);
    d.open();
    d.provide_listing(
        Ok(vec![
            raw("/d/a", false),
            raw("/d/b", false),
            raw("/d/c", false),
            raw("/d/d", false),
            raw("/d/e", false),
        ]),
        Vec::new(),
    );
    d.select_toggle(4);
    d.select_toggle(1);
    assert_eq!(flags(&d), vec![false, true, false, false, true]);
    d.select_range(3);
    assert_eq!(flags(&d), vec![false, true, true, true, true]);
}

#[test]
fn exclusive_click_leaves_at_most_one_selected() {
    let mut d = open_multi_abc();
    d.select_toggle(0);
    d.select_toggle(1);
    assert_eq!(flags(&d), vec![true, true, false]);
    d.select_exclusive(2);
    assert_eq!(flags(&d), vec![false, false, true]);
    d.select_exclusive(2);
    assert_eq!(flags(&d), vec![false, false, false]);
}

#[test]
fn toggle_click_moves_the_anchor() {
    let mut d = open_multi_abc();
    d.select_toggle(1);
    assert_eq!(d.range_start, Some(1));
    d.select_toggle(1);
    assert_eq!(d.range_start, None);
    assert_eq!(flags(&d), vec![false, false, false]);
}

#[test]
fn stale_indices_are_tolerated() {
    let mut d = open_multi_abc();
    d.select_exclusive(7);
    assert_eq!(flags(&d), vec![false, false, false]);
    d.select_toggle(9);
    d.select_range(5);
    assert_eq!(flags(&d), vec![false, false, false]);
    assert_eq!(d.state(), State::Open);
}

#[test]
fn range_without_anchor_is_a_no_op() {
    let mut d = open_multi_abc();
    d.select_range(2);
    assert_eq!(flags(&d), vec![false, false, false]);
}

#[test]
fn empty_directory_scenario_disables_open_and_save() {
    let mut d = FileDialog::open_file("/d".to_string(), false).multi_select(true);
    d.open();
    d.set_path("/empty".to_string());
    d.provide_listing(Ok(Vec::new()), Vec::new());
    assert!(listing_of(&d).is_empty());
    assert!(!d.can_open());
    assert!(!d.can_save());
    assert!(!d.can_rename());
    d.select_exclusive(0);
    d.select_range(0);
    d.select_toggle(0);
    assert!(listing_of(&d).is_empty());
    d.execute(Command::Refresh);
    assert_eq!(d.state(), State::Open);
    assert!(d.selection().is_empty());
}

#[test]
fn create_directory_failure_leaves_the_dialog_unchanged() {
    let mut d = FileDialog::select_folder("/d".to_string());
    d.open();
    d.provide_listing(Ok(vec![raw("/d/existing", true)]), Vec::new());
    d.filename_edit = "existing".to_string();
    let act = d.execute(Command::CreateDirectory);
    match act {
        Action::CreateDir { path } => assert_eq!(path, "/d/existing"),
        _ => panic!("expected a create-directory action"),
    }
    assert_eq!(d.state(), State::Open);
    assert_eq!(listing_of(&d).len(), 1);
    assert_eq!(listing_of(&d)[0].path, "/d/existing");
    assert!(!d.needs_refresh);
}

#[test]
fn create_directory_defaults_to_new_folder() {
    let mut d = FileDialog::select_folder("/d".to_string());
    d.open();
    d.provide_listing(Ok(Vec::new()), Vec::new());
    let act = d.execute(Command::CreateDirectory);
    match act {
        Action::CreateDir { path } => assert_eq!(path, "/d/New folder"),
        _ => panic!("expected a create-directory action"),
    }
}

#[test]
fn successful_mutation_reselects_the_new_entry() {
    let mut d = FileDialog::open_file("/d".to_string(), false);
    d.open();
    d.provide_listing(Ok(vec![raw("/d/a", false)]), Vec::new());
    d.execute(Command::Select(FileInfo::new("/d/a".to_string(), false)));
    d.filename_edit = "b".to_string();
    assert!(d.can_rename());
    let (from, to) = match d.execute(Command::Rename("/d/a".to_string(), "/d/b".to_string())) {
        Action::RenameFile { from, to } => (from, to),
        _ => panic!("expected a rename action"),
    };
    assert_eq!((from.as_str(), to.as_str()), ("/d/a", "/d/b"));
    d.mutation_succeeded("/d/b".to_string(), false);
    assert!(d.needs_refresh);
    d.provide_listing(Ok(vec![raw("/d/b", false)]), Vec::new());
    assert_eq!(d.path().unwrap(), "/d/b");
    assert_eq!(d.filename_edit, "b");
}

#[test]
fn rename_to_the_same_name_is_never_enabled() {
    let mut d = FileDialog::open_file("/d".to_string(), false);
    d.open();
    d.provide_listing(Ok(vec![raw("/d/a", false)]), Vec::new());
    d.execute(Command::Select(FileInfo::new("/d/a".to_string(), false)));
    assert_eq!(d.filename_edit, "a");
    assert!(!d.can_rename());
    assert!(d.rename_target().is_none());
    d.filename_edit = "b".to_string();
    assert!(d.can_rename());
    assert_eq!(d.rename_target(), Some(("/d/a".to_string(), "/d/b".to_string())));
}

#[test]
fn empty_filename_never_saves() {
    let mut d = FileDialog::save_file("/d".to_string(), false);
    d.open();
    d.provide_listing(Ok(Vec::new()), Vec::new());
    d.filename_edit = String::new();
    assert!(!d.can_save());
    assert!(!d.can_open());
}

#[test]
fn selecting_a_directory_and_opening_navigates_into_it() {
    let mut d = FileDialog::open_file("/d".to_string(), false);
    d.open();
    d.provide_listing(Ok(vec![raw("/d/sub", true), raw("/d/a", false)]), Vec::new());
    d.execute(Command::Select(FileInfo::new("/d/sub".to_string(), true)));
    assert_eq!(d.filename_edit, "sub");
    d.execute(Command::OpenSelected);
    assert_eq!(d.directory(), "/d/sub");
    assert_eq!(d.path_edit, "/d/sub");
    assert!(d.needs_refresh);
    assert_eq!(d.state(), State::Open);
}

#[test]
fn opening_a_selected_file_confirms_an_open_dialog() {
    let mut d = FileDialog::open_file("/d".to_string(), false);
    d.open();
    d.provide_listing(Ok(vec![raw("/d/a", false)]), Vec::new());
    d.execute(Command::Open(FileInfo::new("/d/a".to_string(), false)));
    assert_eq!(d.state(), State::Selected);
    assert_eq!(d.path().unwrap(), "/d/a");
}

#[test]
fn up_directory_stops_at_the_root() {
    let mut d = FileDialog::select_folder("/tmp/sub".to_string());
    d.open();
    d.execute(Command::UpDirectory);
    assert_eq!(d.directory(), "/tmp");
    d.execute(Command::UpDirectory);
    assert_eq!(d.directory(), "/");
    d.execute(Command::UpDirectory);
    assert_eq!(d.directory(), "/");
}

#[test]
fn cancel_closes_the_dialog() {
    let mut d = FileDialog::select_folder("/d".to_string());
    d.open();
    assert!(d.visible());
    d.execute(Command::Cancel);
    assert_eq!(d.state(), State::Cancelled);
    assert!(!d.visible());
    assert!(!d.selected());
}

#[test]
fn folder_command_confirms_the_selected_or_current_directory() {
    let mut d = FileDialog::select_folder("/d".to_string());
    d.open();
    d.provide_listing(Ok(vec![raw("/d/sub", true)]), Vec::new());
    d.execute(Command::Folder);
    assert_eq!(d.state(), State::Selected);
    assert_eq!(d.path().unwrap(), "/d");
}

#[test]
fn commit_filename_dispatches_by_dialog_type() {
    let mut open_dialog = FileDialog::open_file("/d".to_string(), false);
    open_dialog.open();
    open_dialog.provide_listing(Ok(Vec::new()), Vec::new());
    open_dialog.filename_edit = "a".to_string();
    open_dialog.commit_filename(false, false);
    assert_eq!(open_dialog.state(), State::Open);
    open_dialog.commit_filename(true, false);
    assert_eq!(open_dialog.state(), State::Selected);
    assert_eq!(open_dialog.path().unwrap(), "/d/a");

    let mut save_dialog = FileDialog::save_file("/d".to_string(), false);
    save_dialog.open();
    save_dialog.provide_listing(Ok(Vec::new()), Vec::new());
    save_dialog.filename_edit = "sub".to_string();
    save_dialog.commit_filename(true, true);
    assert_eq!(save_dialog.directory(), "/d/sub");
    assert_eq!(save_dialog.state(), State::Open);
}

#[test]
fn listing_errors_make_list_commands_inert() {
    let mut d = FileDialog::open_file("/d".to_string(), false).multi_select(true);
    d.open();
    d.provide_listing(Err("permission denied".to_string()), Vec::new());
    assert!(matches!(&d.files, Err(e) if e == "permission denied"));
    assert!(!d.can_open());
    assert!(d.selection().is_empty());
    d.range_start = Some(1);
    d.select_exclusive(0);
    d.select_toggle(0);
    d.select_range(0);
    assert_eq!(d.range_start, Some(1));
    assert!(matches!(&d.files, Err(_)));
    assert_eq!(d.state(), State::Open);
}

#[test]
fn selecting_none_clears_selection_and_filename_buffer() {
    let mut d = FileDialog::open_file("/d".to_string(), false);
    d.open();
    d.provide_listing(Ok(vec![raw("/d/a", false)]), Vec::new());
    d.select(Some(FileInfo::new("/d/a".to_string(), false)));
    assert_eq!(d.filename_edit, "a");
    assert!(d.path().is_some());
    d.select(None);
    assert!(d.path().is_none());
    assert_eq!(d.filename_edit, "");
}

#[test]
fn frame_transition_decides_the_per_frame_state() {
    assert_eq!(frame_transition(State::Closed, State::Closed, true), State::Closed);
    assert_eq!(frame_transition(State::Selected, State::Selected, true), State::Closed);
    assert_eq!(frame_transition(State::Cancelled, State::Cancelled, true), State::Closed);
    assert_eq!(frame_transition(State::Open, State::Open, false), State::Cancelled);
    assert_eq!(frame_transition(State::Open, State::Selected, true), State::Selected);
    assert_eq!(frame_transition(State::Open, State::Open, true), State::Open);
}

#[test]
fn toggling_hidden_files_asks_for_a_fresh_listing() {
    let mut d = FileDialog::open_file("/d".to_string(), false);
    d.open();
    d.provide_listing(Ok(vec![raw("/d/.env", false), raw("/d/a", false)]), Vec::new());
    assert_eq!(listing_of(&d).len(), 1);
    d.set_show_hidden(true);
    assert!(d.needs_refresh);
    d.provide_listing(Ok(vec![raw("/d/.env", false), raw("/d/a", false)]), Vec::new());
    assert_eq!(listing_of(&d).len(), 2);
    assert_eq!(listing_of(&d)[0].path, "/d/.env");
}

#[test]
fn drives_are_listed_only_when_enabled() {
    let mut d = FileDialog::open_file("/d".to_string(), false).show_drives(false);
    d.open();
    d.provide_listing(Ok(vec![raw("/d/a", false)]), vec!["C:\\".to_string()]);
    assert_eq!(listing_of(&d).len(), 1);
    let mut d2 = FileDialog::open_file("/d".to_string(), false);
    d2.open();
    d2.provide_listing(Ok(vec![raw("/d/a", false)]), vec!["C:\\".to_string()]);
    assert_eq!(listing_of(&d2).len(), 2);
    assert_eq!(listing_of(&d2)[0].path, "C:\\");
}

#[test]
fn builders_set_their_fields() {
    let d = FileDialog::save_file("/d".to_string(), false)
        .title("Export".to_string())
        .resizable(false)
        .show_rename(false)
        .show_new_folder(false);
    assert_eq!(d.title, "Export");
    assert!(!d.resizable);
    assert!(!d.rename);
    assert!(!d.new_folder);
    assert_eq!(d.dialog_type(), DialogType::SaveFile);
    assert!(!d.has_multi_select());
    assert_eq!(d.state(), State::Closed);
}

#[test]
fn constructing_over_a_file_starts_in_its_parent() {
    let d = FileDialog::save_file("/tmp/report.txt".to_string(), true);
    assert_eq!(d.directory(), "/tmp");
    assert_eq!(d.filename_edit, "report.txt");
    assert_eq!(d.path_edit, "/tmp");
}

#[test]
fn open_resets_the_selection_and_asks_for_a_listing() {
    let mut d = FileDialog::open_file("/d".to_string(), false);
    d.open();
    d.provide_listing(Ok(vec![raw("/d/a", false)]), Vec::new());
    d.execute(Command::Select(FileInfo::new("/d/a".to_string(), false)));
    assert!(d.path().is_some());
    d.open();
    assert!(d.path().is_none());
    assert!(d.needs_refresh);
    assert!(d.visible());
}
