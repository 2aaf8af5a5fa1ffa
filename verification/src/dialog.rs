//! The dialog controller: the state machine over `State` that owns the
//! current directory, the listing, the selection and the two editable text
//! buffers, and decides what every user command means.
//!
//! The controller never touches the filesystem.  The host enumerates a
//! directory and hands the result to `provide_listing` whenever
//! `needs_refresh` is set; rename and create-directory come back from
//! `execute` as an `Action` for the host to perform, and on success the host
//! reports the new path through `mutation_succeeded`.

use vstd::prelude::*;
use vstd::string::*;
use crate::entry::{get_file_name, FileInfo};
use crate::filter::{AcceptAll, FileFilter, NameFilter};
use crate::listing::{build_listing, listing_candidates, listing_sorted, RawEntry};
use crate::path_model::{
    after_last_slash, display_name_spec, join_path, join_spec, parent_of, parent_spec,
    with_file_name, with_file_name_spec,
};
use crate::{DialogType, State};

verus! {

/// One discrete user intent, as the rendering layer reports it.
#[derive(Debug)]
pub enum Command {
    /// Plain click on a row (single-select mode).
    Select(FileInfo),
    /// Plain click on a row (multi-select mode).
    MultiSelect(usize),
    /// Toggle-key click on a row (multi-select mode).
    MultiSelectSwitch(usize),
    /// Range-key click on a row (multi-select mode).
    MultiSelectRange(usize),
    /// Confirm the current folder (select-folder type).
    Folder,
    /// Select the given entry and treat it as opened.
    Open(FileInfo),
    /// Open whatever is selected.
    OpenSelected,
    /// Double-click on a directory row.
    BrowseDirectory(FileInfo),
    /// Confirm the given entry as the file to save.
    Save(FileInfo),
    /// Dismiss the dialog.
    Cancel,
    /// Re-read the current directory.
    Refresh,
    /// Go to the parent directory.
    UpDirectory,
    /// Create a directory named from the filename buffer.
    CreateDirectory,
    /// Rename the first path to the second.
    Rename(String, String),
}

/// A filesystem side effect the host must perform on the controller's
/// behalf; on success it reports back through `mutation_succeeded`.
#[derive(Debug)]
pub enum Action {
    /// Nothing left to do.
    Nothing,
    /// Rename `from` to `to`.
    RenameFile { from: String, to: String },
    /// Create the directory at `path`.
    CreateDir { path: String },
}

/// The dialog controller.  `FF` filters which files the listing shows; `NF`
/// gates filenames for open, save and rename.  Both are fixed at
/// construction (the builders replace them wholesale before first use).
#[derive(Debug)]
pub struct FileDialog<FF: FileFilter, NF: NameFilter> {
    /// Current opened directory.
    pub current_path: String,
    /// Editable field with the path; reconciled on refresh.
    pub path_edit: String,
    /// Selected entry (single-select mode).
    pub selected_file: Option<FileInfo>,
    /// Editable field with the filename.
    pub filename_edit: String,
    /// Dialog title text.
    pub title: String,
    /// Entries of the current directory, or the captured listing error.
    pub files: Result<Vec<FileInfo>, String>,
    /// Current dialog state.
    pub state: State,
    /// Dialog type, fixed for the controller's life.
    pub dialog_type: DialogType,
    /// Filters which non-directory entries the listing shows.
    pub show_files_filter: FF,
    /// Gates filenames for open, save and rename.
    pub filename_filter: NF,
    /// Window is resizable (advisory to the rendering layer).
    pub resizable: bool,
    /// Show the rename button.
    pub rename: bool,
    /// Show the new-folder button.
    pub new_folder: bool,
    /// Multi-select mode, fixed for the controller's life.
    pub multi_select_enabled: bool,
    /// Anchor of the last click, for range extension.
    pub range_start: Option<usize>,
    /// Prepend the mounted drive roots to the listing.
    pub show_drives: bool,
    /// Show entries whose display name starts with a dot.
    pub show_hidden: bool,
    /// The host must re-enumerate the current directory.
    pub needs_refresh: bool,
    /// Entry to select once the pending refresh lands.
    pub pending_select: Option<FileInfo>,
}

/// Field-for-field equality across two filter instantiations, the filters
/// aside; what a filter builder leaves untouched.
pub open spec fn same_core<FFa: FileFilter, NFa: NameFilter, FFb: FileFilter, NFb: NameFilter>(
    a: FileDialog<FFa, NFa>,
    b: FileDialog<FFb, NFb>,
) -> bool {
    &&& a.current_path == b.current_path
    &&& a.path_edit == b.path_edit
    &&& a.selected_file == b.selected_file
    &&& a.filename_edit == b.filename_edit
    &&& a.title == b.title
    &&& a.files == b.files
    &&& a.state == b.state
    &&& a.dialog_type == b.dialog_type
    &&& a.resizable == b.resizable
    &&& a.rename == b.rename
    &&& a.new_folder == b.new_folder
    &&& a.multi_select_enabled == b.multi_select_enabled
    &&& a.range_start == b.range_start
    &&& a.show_drives == b.show_drives
    &&& a.show_hidden == b.show_hidden
    &&& a.needs_refresh == b.needs_refresh
    &&& a.pending_select == b.pending_select
}

/// The default window title for each dialog type.
pub open spec fn default_title_spec(dialog_type: DialogType) -> Seq<char> {
    match dialog_type {
        DialogType::SelectFolder => "Select Folder"@,
        DialogType::OpenFile => "Open File"@,
        DialogType::SaveFile => "Save File"@,
    }
}

impl<FF: FileFilter, NF: NameFilter> FileDialog<FF, NF> {
    /// The dialog after a refresh was requested: the path buffer is
    /// reconciled, the single selection is dropped, and the host owes a
    /// listing.
    pub open spec fn refresh_marked(pre: Self) -> Self {
        FileDialog {
            path_edit: pre.current_path,
            selected_file: None,
            needs_refresh: true,
            pending_select: None,
            ..pre
        }
    }

    /// The dialog after navigating to `path`.
    pub open spec fn navigated(pre: Self, path: String) -> Self {
        FileDialog {
            current_path: path,
            path_edit: path,
            selected_file: None,
            needs_refresh: true,
            pending_select: None,
            ..pre
        }
    }

    /// The dialog after its selection was confirmed.
    pub open spec fn confirmed(pre: Self) -> Self {
        FileDialog { state: State::Selected, ..pre }
    }

    /// The folder a Folder command confirms: the selected directory if any,
    /// else the current path.
    pub open spec fn folder_target(pre: Self) -> String {
        match pre.selected_file {
            Some(info) => if info.dir {
                info.path
            } else {
                pre.current_path
            },
            None => pre.current_path,
        }
    }

    /// The dialog after a Folder command: the target folder becomes the
    /// confirmed selection.
    pub open spec fn folder_confirmed(pre: Self) -> Self {
        FileDialog {
            selected_file: Some(
                FileInfo { path: Self::folder_target(pre), dir: true, selected: true },
            ),
            state: State::Selected,
            ..pre
        }
    }

    /// Save is permitted only for a non-empty filename the predicate
    /// accepts.
    pub open spec fn can_save_spec(self) -> bool {
        self.filename_edit@.len() > 0 && self.filename_filter.accepts(self.filename_edit@)
    }

    /// Open is permitted under the save rule in single-select mode, and in
    /// multi-select mode when some selected entry's display name passes the
    /// predicate.
    pub open spec fn can_open_spec(self) -> bool {
        if self.multi_select_enabled {
            match self.files {
                Ok(fs) => exists|i: int|
                    0 <= i < fs@.len() && #[trigger] fs@[i].selected && self.filename_filter.accepts(
                        display_name_spec(fs@[i].path@, fs@[i].dir),
                    ),
                Err(_) => false,
            }
        } else {
            self.can_save_spec()
        }
    }

    /// Rename is permitted only when an entry is selected and the filename
    /// buffer is non-empty and differs from its display name.
    pub open spec fn can_rename_spec(self) -> bool {
        self.filename_edit@.len() > 0 && match self.selected_file {
            Some(f) => display_name_spec(f.path@, f.dir) != self.filename_edit@,
            None => false,
        }
    }

    /// What selecting `file` does: `Some` copies the display name into the
    /// filename buffer; `None` clears both the selection and the buffer.
    pub open spec fn selected_rel(pre: Self, post: Self, file: Option<FileInfo>) -> bool {
        match file {
            Some(info) => {
                &&& post.filename_edit@ == display_name_spec(info.path@, info.dir)
                &&& post == (FileDialog {
                    selected_file: Some(info),
                    filename_edit: post.filename_edit,
                    ..pre
                })
            },
            None => {
                &&& post.filename_edit@ == Seq::<char>::empty()
                &&& post == (FileDialog {
                    selected_file: None,
                    filename_edit: post.filename_edit,
                    ..pre
                })
            },
        }
    }

    /// What an exclusive (plain) multi-select click on `idx` does: every
    /// other flag cleared, `idx`'s flag negated, anchor at `idx`; a stale
    /// index or an errored listing is a no-op.
    pub open spec fn sel_exclusive_rel(pre: Self, post: Self, idx: usize) -> bool {
        match pre.files {
            Ok(fs) => {
                if (idx as int) < fs@.len() {
                    &&& post.files matches Ok(fs2) && fs2@.len() == fs@.len() && (forall|j: int|
                        0 <= j < fs@.len() ==> #[trigger] fs2@[j] == (FileInfo {
                            path: fs@[j].path,
                            dir: fs@[j].dir,
                            selected: j == idx && !fs@[j].selected,
                        }))
                    &&& post == (FileDialog {
                        files: post.files,
                        range_start: Some(idx),
                        ..pre
                    })
                } else {
                    post == pre
                }
            },
            Err(_) => post == pre,
        }
    }

    /// What a toggle-key multi-select click on `idx` does: only `idx`'s
    /// flag flips; the anchor follows the new flag.  A stale index or an
    /// errored listing is a no-op.
    pub open spec fn sel_toggle_rel(pre: Self, post: Self, idx: usize) -> bool {
        match pre.files {
            Ok(fs) => {
                if (idx as int) < fs@.len() {
                    &&& post.files matches Ok(fs2) && fs2@ == fs@.update(
                        idx as int,
                        FileInfo {
                            path: fs@[idx as int].path,
                            dir: fs@[idx as int].dir,
                            selected: !fs@[idx as int].selected,
                        },
                    )
                    &&& post == (FileDialog {
                        files: post.files,
                        range_start: if !fs@[idx as int].selected {
                            Some(idx)
                        } else {
                            None
                        },
                        ..pre
                    })
                } else {
                    post == pre
                }
            },
            Err(_) => post == pre,
        }
    }

    /// What a range-key multi-select click on `idx` does: exactly the
    /// closed span between the anchor and `idx` becomes selected, flags
    /// outside the span keep their value; without an anchor, or with a
    /// stale index, a no-op.
    pub open spec fn sel_range_rel(pre: Self, post: Self, idx: usize) -> bool {
        match pre.files {
            Ok(fs) => match pre.range_start {
                Some(a) => {
                    if (a as int) < fs@.len() && (idx as int) < fs@.len() {
                        let lo = if a <= idx {
                            a as int
                        } else {
                            idx as int
                        };
                        let hi = if a <= idx {
                            idx as int
                        } else {
                            a as int
                        };
                        &&& post.files matches Ok(fs2) && fs2@.len() == fs@.len() && (forall|
                            j: int,
                        |
                            0 <= j < fs@.len() ==> #[trigger] fs2@[j] == (FileInfo {
                                path: fs@[j].path,
                                dir: fs@[j].dir,
                                selected: lo <= j <= hi || fs@[j].selected,
                            }))
                        &&& post == (FileDialog { files: post.files, ..pre })
                    } else {
                        post == pre
                    }
                },
                None => post == pre,
            },
            Err(_) => post == pre,
        }
    }

    /// What opening the current selection does: a directory is navigated
    /// into; a file confirms an open-file dialog; with no selection, a
    /// multi-select open-file dialog confirms the flagged set.
    pub open spec fn open_selected_rel(pre: Self, post: Self) -> bool {
        match pre.selected_file {
            Some(info) => {
                if info.dir {
                    post == Self::navigated(pre, info.path)
                } else if pre.dialog_type == DialogType::OpenFile {
                    post == Self::confirmed(pre)
                } else {
                    post == pre
                }
            },
            None => {
                if pre.multi_select_enabled && pre.dialog_type == DialogType::OpenFile {
                    post == Self::confirmed(pre)
                } else {
                    post == pre
                }
            },
        }
    }

    /// What selecting an entry with path view `pv` and kind `dir` and then
    /// opening it does.
    pub open spec fn select_open_view_rel(pre: Self, post: Self, pv: Seq<char>, dir: bool) -> bool {
        if dir {
            &&& post.filename_edit@ == display_name_spec(pv, true)
            &&& post.current_path@ == pv
            &&& post.path_edit == post.current_path
            &&& post == (FileDialog {
                current_path: post.current_path,
                path_edit: post.path_edit,
                filename_edit: post.filename_edit,
                selected_file: None,
                needs_refresh: true,
                pending_select: None,
                ..pre
            })
        } else {
            &&& post.filename_edit@ == display_name_spec(pv, false)
            &&& (post.selected_file matches Some(i) && i.path@ == pv && !i.dir)
            &&& post == (FileDialog {
                selected_file: post.selected_file,
                filename_edit: post.filename_edit,
                state: if pre.dialog_type == DialogType::OpenFile {
                    State::Selected
                } else {
                    pre.state
                },
                ..pre
            })
        }
    }

    /// What going to the parent directory does: navigate when a parent
    /// exists, nothing otherwise.
    pub open spec fn up_rel(pre: Self, post: Self) -> bool {
        match parent_spec(pre.current_path@) {
            Some(pp) => post.current_path@ == pp && post == Self::navigated(
                pre,
                post.current_path,
            ),
            None => post == pre,
        }
    }

    /// What committing the filename buffer does, given the host's probes of
    /// the resolved target (`join(current_path, filename_edit)`): nothing
    /// unless the predicate passes; then a select-folder dialog confirms its
    /// folder, an open-file dialog opens an existing target, and a save-file
    /// dialog navigates into a directory target or confirms a save.
    pub open spec fn commit_rel(pre: Self, post: Self, target_exists: bool, target_is_dir: bool) -> bool {
        let jp = join_spec(pre.current_path@, pre.filename_edit@);
        if !pre.filename_filter.accepts(pre.filename_edit@) {
            post == pre
        } else {
            match pre.dialog_type {
                DialogType::SelectFolder => post == Self::folder_confirmed(pre),
                DialogType::OpenFile => {
                    if target_exists {
                        &&& Self::select_open_view_rel(pre, post, jp, target_is_dir)
                        &&& (post.selected_file matches Some(i) ==> !i.selected)
                    } else {
                        post == pre
                    }
                },
                DialogType::SaveFile => {
                    if target_is_dir {
                        Self::select_open_view_rel(pre, post, jp, true)
                    } else {
                        &&& (post.selected_file matches Some(i) && i.path@ == jp && !i.dir
                            && !i.selected)
                        &&& post == (FileDialog {
                            selected_file: post.selected_file,
                            state: State::Selected,
                            ..pre
                        })
                    }
                },
            }
        }
    }

    /// Constructs a new controller showing `initial_path`.  When the
    /// initial path names a file (never legal for a select-folder dialog),
    /// the dialog starts in its parent with the file's name in the filename
    /// buffer.
    pub fn new(
        dialog_type: DialogType,
        initial_path: String,
        initial_is_file: bool,
        show_files_filter: FF,
        filename_filter: NF,
    ) -> (r: Self)
        requires
            initial_is_file ==> dialog_type != DialogType::SelectFolder,
        ensures
            r.dialog_type == dialog_type,
            r.state == State::Closed,
            r.files matches Ok(fs) && fs@ == Seq::<FileInfo>::empty(),
            r.show_files_filter == show_files_filter,
            r.filename_filter == filename_filter,
            initial_is_file ==> r.filename_edit@ == after_last_slash(initial_path@)
                && match parent_spec(initial_path@) {
                Some(p) => r.current_path@ == p,
                None => r.current_path == initial_path,
            },
            !initial_is_file ==> r.current_path == initial_path && r.filename_edit@
                == Seq::<char>::empty(),
            r.path_edit == r.current_path,
            r.title@ == default_title_spec(dialog_type),
            r.selected_file is None,
            r.state == State::Closed,
            !r.multi_select_enabled,
            r.range_start is None,
            r.resizable,
            r.rename,
            r.new_folder,
            r.show_drives,
            !r.show_hidden,
            !r.needs_refresh,
            r.pending_select is None,
    {
        let mut path = initial_path;
        let mut filename_edit = String::new();
        if initial_is_file {
            filename_edit = crate::path_model::file_name_of(&path);
            match parent_of(&path) {
                Some(p) => {
                    path = p;
                },
                None => {},
            }
        }
        let path_edit = path.clone();
        let title = match dialog_type {
            DialogType::SelectFolder => String::from_str("Select Folder"),
            DialogType::OpenFile => String::from_str("Open File"),
            DialogType::SaveFile => String::from_str("Save File"),
        };
        FileDialog {
            current_path: path,
            path_edit,
            selected_file: None,
            filename_edit,
            title,
            files: Ok(Vec::new()),
            state: State::Closed,
            dialog_type,
            show_files_filter,
            filename_filter,
            resizable: true,
            rename: true,
            new_folder: true,
            multi_select_enabled: false,
            range_start: None,
            show_drives: true,
            show_hidden: false,
            needs_refresh: false,
            pending_select: None,
        }
    }

    /// Set the default file name.
    pub fn default_filename(self, filename: String) -> (r: Self)
        ensures
            r == (FileDialog { filename_edit: filename, ..self }),
    {
        FileDialog { filename_edit: filename, ..self }
    }

    /// Set the window title text.
    pub fn title(self, title: String) -> (r: Self)
        ensures
            r == (FileDialog { title: title, ..self }),
    {
        FileDialog { title, ..self }
    }

    /// Enable/disable resizing the window.  Default is `true`.
    pub fn resizable(self, resizable: bool) -> (r: Self)
        ensures
            r == (FileDialog { resizable: resizable, ..self }),
    {
        FileDialog { resizable, ..self }
    }

    /// Show the Rename button.  Default is `true`.
    pub fn show_rename(self, rename: bool) -> (r: Self)
        ensures
            r == (FileDialog { rename: rename, ..self }),
    {
        FileDialog { rename, ..self }
    }

    /// Show the New Folder button.  Default is `true`.
    pub fn show_new_folder(self, new_folder: bool) -> (r: Self)
        ensures
            r == (FileDialog { new_folder: new_folder, ..self }),
    {
        FileDialog { new_folder, ..self }
    }

    /// Enable multi-select mode.  Fixed for the instance's life once it is
    /// opened.
    pub fn multi_select(self, multi_select: bool) -> (r: Self)
        ensures
            r == (FileDialog { multi_select_enabled: multi_select, ..self }),
    {
        FileDialog { multi_select_enabled: multi_select, ..self }
    }

    /// Whether multi-select mode is on.
    pub fn has_multi_select(&self) -> (r: bool)
        ensures
            r == self.multi_select_enabled,
    {
        self.multi_select_enabled
    }

    /// Show the mounted drive roots.  Default is `true`.
    pub fn show_drives(self, drives: bool) -> (r: Self)
        ensures
            r == (FileDialog { show_drives: drives, ..self }),
    {
        FileDialog { show_drives: drives, ..self }
    }

    /// Set a filter for listed files.
    pub fn show_files_filter<FF2: FileFilter>(self, filter: FF2) -> (r: FileDialog<FF2, NF>)
        ensures
            same_core(self, r),
            r.show_files_filter == filter,
            r.filename_filter == self.filename_filter,
    {
        FileDialog {
            current_path: self.current_path,
            path_edit: self.path_edit,
            selected_file: self.selected_file,
            filename_edit: self.filename_edit,
            title: self.title,
            files: self.files,
            state: self.state,
            dialog_type: self.dialog_type,
            show_files_filter: filter,
            filename_filter: self.filename_filter,
            resizable: self.resizable,
            rename: self.rename,
            new_folder: self.new_folder,
            multi_select_enabled: self.multi_select_enabled,
            range_start: self.range_start,
            show_drives: self.show_drives,
            show_hidden: self.show_hidden,
            needs_refresh: self.needs_refresh,
            pending_select: self.pending_select,
        }
    }

    /// Set a filter for the committed filename.
    pub fn filename_filter<NF2: NameFilter>(self, filter: NF2) -> (r: FileDialog<FF, NF2>)
        ensures
            same_core(self, r),
            r.filename_filter == filter,
            r.show_files_filter == self.show_files_filter,
    {
        FileDialog {
            current_path: self.current_path,
            path_edit: self.path_edit,
            selected_file: self.selected_file,
            filename_edit: self.filename_edit,
            title: self.title,
            files: self.files,
            state: self.state,
            dialog_type: self.dialog_type,
            show_files_filter: self.show_files_filter,
            filename_filter: filter,
            resizable: self.resizable,
            rename: self.rename,
            new_folder: self.new_folder,
            multi_select_enabled: self.multi_select_enabled,
            range_start: self.range_start,
            show_drives: self.show_drives,
            show_hidden: self.show_hidden,
            needs_refresh: self.needs_refresh,
            pending_select: self.pending_select,
        }
    }

    /// Get the dialog type.
    pub fn dialog_type(&self) -> (r: DialogType)
        ensures
            r == self.dialog_type,
    {
        self.dialog_type
    }

    /// Get the window's visibility.
    pub fn visible(&self) -> (r: bool)
        ensures
            r == (self.state == State::Open),
    {
        self.state == State::Open
    }

    /// Dialog state.
    pub fn state(&self) -> (r: State)
        ensures
            r == self.state,
    {
        self.state
    }

    /// Returns true if the file selection was confirmed.
    pub fn selected(&self) -> (r: bool)
        ensures
            r == (self.state == State::Selected),
    {
        self.state == State::Selected
    }

    /// Resulting file path.
    pub fn path(&self) -> (r: Option<&String>)
        ensures
            match self.selected_file {
                Some(info) => r matches Some(p) && *p == info.path,
                None => r is None,
            },
    {
        match &self.selected_file {
            Some(info) => Some(&info.path),
            None => None,
        }
    }

    /// Currently mounted directory that is being shown in the dialog box.
    pub fn directory(&self) -> (r: &String)
        ensures
            *r == self.current_path,
    {
        &self.current_path
    }

    /// Marks a refresh: reconciles the path buffer and drops the single
    /// selection; the host owes a fresh listing.
    fn mark_refresh(&mut self)
        ensures
            *final(self) == Self::refresh_marked(*old(self)),
    {
        self.path_edit = self.current_path.clone();
        self.selected_file = None;
        self.needs_refresh = true;
        self.pending_select = None;
    }

    /// Opens the dialog: resets the selection and asks for a fresh listing.
    pub fn open(&mut self)
        ensures
            *final(self) == (FileDialog { state: State::Open, ..Self::refresh_marked(*old(self)) }),
    {
        self.state = State::Open;
        self.mark_refresh();
    }

    /// Set the dialog's current opened path.
    pub fn set_path(&mut self, path: String)
        ensures
            *final(self) == Self::navigated(*old(self), path),
    {
        self.current_path = path;
        self.mark_refresh();
    }

    /// Toggling hidden-file visibility re-reads the directory; setting it
    /// to its current value changes nothing.
    pub fn set_show_hidden(&mut self, show: bool)
        ensures
            *final(self) == if show == old(self).show_hidden {
                *old(self)
            } else {
                (FileDialog { show_hidden: show, ..Self::refresh_marked(*old(self)) })
            },
    {
        if show != self.show_hidden {
            self.show_hidden = show;
            self.mark_refresh();
        }
    }

    /// Selects `file` (single-select mode): copies its display name into
    /// the filename buffer; `None` clears both the selection and the
    /// filename buffer.
    pub fn select(&mut self, file: Option<FileInfo>)
        ensures
            Self::selected_rel(*old(self), *final(self), file),
    {
        match file {
            Some(info) => {
                self.filename_edit = get_file_name(&info);
                self.selected_file = Some(info);
            },
            None => {
                self.filename_edit = String::new();
                self.selected_file = None;
            },
        }
    }

    /// A plain multi-select click: clears every flag, negates `idx`'s, and
    /// anchors there.  A stale index or an errored listing is a no-op.
    pub fn select_exclusive(&mut self, idx: usize)
        ensures
            Self::sel_exclusive_rel(*old(self), *final(self), idx),
    {
        match &self.files {
            Ok(files) => {
                if idx < files.len() {
                    let was = files[idx].selected;
                    let mut out: Vec<FileInfo> = Vec::new();
                    let mut j: usize = 0;
                    while j < files.len()
                        invariant
                            j <= files@.len(),
                            idx < files@.len(),
                            was == files@[idx as int].selected,
                            out@.len() == j,
                            forall|q: int|
                                0 <= q < j ==> #[trigger] out@[q] == (FileInfo {
                                    path: files@[q].path,
                                    dir: files@[q].dir,
                                    selected: q == idx && !files@[idx as int].selected,
                                }),
                        decreases files@.len() - j,
                    {
                        out.push(
                            FileInfo {
                                path: files[j].path.clone(),
                                dir: files[j].dir,
                                selected: j == idx && !was,
                            },
                        );
                        j = j + 1;
                    }
                    self.files = Ok(out);
                    self.range_start = Some(idx);
                }
            },
            Err(_) => {},
        }
    }

    /// A toggle-key multi-select click: flips only `idx`'s flag; the anchor
    /// follows the new flag.  A stale index or an errored listing is a
    /// no-op.
    pub fn select_toggle(&mut self, idx: usize)
        ensures
            Self::sel_toggle_rel(*old(self), *final(self), idx),
    {
        match &self.files {
            Ok(files) => {
                if idx < files.len() {
                    let was = files[idx].selected;
                    let mut out: Vec<FileInfo> = Vec::new();
                    let mut j: usize = 0;
                    while j < files.len()
                        invariant
                            j <= files@.len(),
                            idx < files@.len(),
                            was == files@[idx as int].selected,
                            out@.len() == j,
                            forall|q: int|
                                0 <= q < j ==> #[trigger] out@[q] == (if q == idx {
                                    FileInfo {
                                        path: files@[q].path,
                                        dir: files@[q].dir,
                                        selected: !files@[q].selected,
                                    }
                                } else {
                                    files@[q]
                                }),
                        decreases files@.len() - j,
                    {
                        out.push(
                            FileInfo {
                                path: files[j].path.clone(),
                                dir: files[j].dir,
                                selected: if j == idx {
                                    !was
                                } else {
                                    files[j].selected
                                },
                            },
                        );
                        j = j + 1;
                    }
                    proof {
                        assert(out@ =~= files@.update(
                            idx as int,
                            FileInfo {
                                path: files@[idx as int].path,
                                dir: files@[idx as int].dir,
                                selected: !files@[idx as int].selected,
                            },
                        ));
                    }
                    self.files = Ok(out);
                    self.range_start = if !was {
                        Some(idx)
                    } else {
                        None
                    };
                }
            },
            Err(_) => {},
        }
    }

    /// A range-key multi-select click: selects the whole closed span
    /// between the anchor and `idx`, leaving flags outside it untouched.
    pub fn select_range(&mut self, idx: usize)
        ensures
            Self::sel_range_rel(*old(self), *final(self), idx),
    {
        let anchor = match self.range_start {
            Some(a) => Some(a),
            None => None,
        };
        match &self.files {
            Ok(files) => {
                if let Some(a) = anchor {
                    if a < files.len() && idx < files.len() {
                        let lo = if a <= idx {
                            a
                        } else {
                            idx
                        };
                        let hi = if a <= idx {
                            idx
                        } else {
                            a
                        };
                        let mut out: Vec<FileInfo> = Vec::new();
                        let mut j: usize = 0;
                        while j < files.len()
                            invariant
                                j <= files@.len(),
                                lo <= hi < files@.len(),
                                out@.len() == j,
                                forall|q: int|
                                    0 <= q < j ==> #[trigger] out@[q] == (FileInfo {
                                        path: files@[q].path,
                                        dir: files@[q].dir,
                                        selected: lo <= q <= hi || files@[q].selected,
                                    }),
                            decreases files@.len() - j,
                        {
                            out.push(
                                FileInfo {
                                    path: files[j].path.clone(),
                                    dir: files[j].dir,
                                    selected: (lo <= j && j <= hi) || files[j].selected,
                                },
                            );
                            j = j + 1;
                        }
                        self.files = Ok(out);
                    }
                }
            },
            Err(_) => {},
        }
    }

    /// Exec form of `can_save_spec`.
    pub fn can_save(&self) -> (r: bool)
        ensures
            r == self.can_save_spec(),
    {
        !self.filename_edit.as_str().is_empty() && self.filename_filter.check(&self.filename_edit)
    }

    /// Exec form of `can_open_spec`.
    pub fn can_open(&self) -> (r: bool)
        ensures
            r == self.can_open_spec(),
    {
        if self.multi_select_enabled {
            match &self.files {
                Ok(files) => {
                    let r = any_selected_passes(&self.filename_filter, files);
                    proof {
                        assert(self.files == Ok::<Vec<FileInfo>, String>(*files));
                    }
                    r
                },
                Err(_) => false,
            }
        } else {
            self.can_save()
        }
    }

    /// Exec form of `can_rename_spec`.
    pub fn can_rename(&self) -> (r: bool)
        ensures
            r == self.can_rename_spec(),
    {
        if self.filename_edit.as_str().is_empty() {
            return false;
        }
        match &self.selected_file {
            Some(f) => {
                let name = get_file_name(f);
                !name.eq(&self.filename_edit)
            },
            None => false,
        }
    }

    /// The rename a Rename command would perform: the selected entry's path
    /// and that path with the filename buffer as its new final component;
    /// `None` whenever rename is not permitted.
    pub fn rename_target(&self) -> (r: Option<(String, String)>)
        ensures
            if self.can_rename_spec() {
                r matches Some((f, t)) && (self.selected_file matches Some(sel) && f == sel.path)
                    && t@ == with_file_name_spec(f@, self.filename_edit@)
            } else {
                r is None
            },
    {
        if !self.can_rename() {
            return None;
        }
        match &self.selected_file {
            Some(f) => {
                let from = f.path.clone();
                let to = with_file_name(&from, &self.filename_edit);
                Some((from, to))
            },
            None => None,
        }
    }

    /// The path a filename commit resolves: the buffer joined under the
    /// current directory.
    pub fn filename_target(&self) -> (r: String)
        ensures
            r@ == join_spec(self.current_path@, self.filename_edit@),
    {
        join_path(&self.current_path, &self.filename_edit)
    }

    /// The folder a Folder command confirms.
    pub fn get_folder(&self) -> (r: &String)
        ensures
            *r == Self::folder_target(*self),
    {
        match &self.selected_file {
            Some(info) => {
                if info.dir {
                    &info.path
                } else {
                    &self.current_path
                }
            },
            None => &self.current_path,
        }
    }

    /// Confirms the selection.
    fn confirm(&mut self)
        ensures
            *final(self) == Self::confirmed(*old(self)),
    {
        self.state = State::Selected;
    }

    /// Opens the current selection per `open_selected_rel`.
    fn open_selected(&mut self)
        ensures
            Self::open_selected_rel(*old(self), *final(self)),
    {
        let nav = match &self.selected_file {
            Some(info) => {
                if info.dir {
                    Some(info.path.clone())
                } else {
                    None
                }
            },
            None => None,
        };
        if let Some(p) = nav {
            self.set_path(p);
            return ;
        }
        match &self.selected_file {
            Some(_info) => {
                if self.dialog_type == DialogType::OpenFile {
                    self.confirm();
                }
            },
            None => {
                if self.multi_select_enabled && self.dialog_type == DialogType::OpenFile {
                    self.confirm();
                }
            },
        }
    }

    /// Confirms the target folder (Folder command).
    fn do_folder(&mut self)
        ensures
            *final(self) == Self::folder_confirmed(*old(self)),
    {
        let p = self.get_folder().clone();
        self.selected_file = Some(FileInfo { path: p, dir: true, selected: true });
        self.state = State::Selected;
    }

    /// Applies one user command; the returned `Action` is the filesystem
    /// work the host owes (rename, create-directory), with the state
    /// untouched until the host reports the outcome.
    pub fn execute(&mut self, cmd: Command) -> (r: Action)
        ensures
            match cmd {
                Command::Select(info) => Self::selected_rel(*old(self), *final(self), Some(info)) && r is Nothing,
                Command::MultiSelect(idx) => Self::sel_exclusive_rel(*old(self), *final(self), idx) && r is Nothing,
                Command::MultiSelectSwitch(idx) => Self::sel_toggle_rel(*old(self), *final(self), idx)
                    && r is Nothing,
                Command::MultiSelectRange(idx) => Self::sel_range_rel(*old(self), *final(self), idx) && r is Nothing,
                Command::Folder => *final(self) == Self::folder_confirmed(*old(self)) && r is Nothing,
                Command::Open(info) => Self::select_open_view_rel(
                    *old(self),
                    *final(self),
                    info.path@,
                    info.dir,
                ) && (!info.dir ==> final(self).selected_file == Some(info)) && r is Nothing,
                Command::OpenSelected => Self::open_selected_rel(*old(self), *final(self)) && r is Nothing,
                Command::BrowseDirectory(dir) => Self::open_selected_rel(
                    FileDialog { selected_file: Some(dir), ..*old(self) },
                    *final(self),
                ) && r is Nothing,
                Command::Save(file) => *final(self) == (FileDialog {
                    selected_file: Some(file),
                    state: State::Selected,
                    ..*old(self)
                }) && r is Nothing,
                Command::Cancel => *final(self) == (FileDialog { state: State::Cancelled, ..*old(self) })
                    && r is Nothing,
                Command::Refresh => *final(self) == Self::refresh_marked(*old(self)) && r is Nothing,
                Command::UpDirectory => Self::up_rel(*old(self), *final(self)) && r is Nothing,
                Command::CreateDirectory => *final(self) == *old(self) && (r matches Action::CreateDir {
                    path,
                } && path@ == join_spec(
                    old(self).current_path@,
                    if old(self).filename_edit@.len() == 0 {
                        "New folder"@
                    } else {
                        old(self).filename_edit@
                    },
                )),
                Command::Rename(from, to) => *final(self) == *old(self) && r == (Action::RenameFile {
                    from,
                    to,
                }),
            },
    {
        match cmd {
            Command::Select(info) => {
                self.select(Some(info));
                Action::Nothing
            },
            Command::MultiSelect(idx) => {
                self.select_exclusive(idx);
                Action::Nothing
            },
            Command::MultiSelectSwitch(idx) => {
                self.select_toggle(idx);
                Action::Nothing
            },
            Command::MultiSelectRange(idx) => {
                self.select_range(idx);
                Action::Nothing
            },
            Command::Folder => {
                self.do_folder();
                Action::Nothing
            },
            Command::Open(info) => {
                self.select(Some(info));
                self.open_selected();
                Action::Nothing
            },
            Command::OpenSelected => {
                self.open_selected();
                Action::Nothing
            },
            Command::BrowseDirectory(dir) => {
                self.selected_file = Some(dir);
                self.open_selected();
                Action::Nothing
            },
            Command::Save(file) => {
                self.selected_file = Some(file);
                self.confirm();
                Action::Nothing
            },
            Command::Cancel => {
                self.state = State::Cancelled;
                Action::Nothing
            },
            Command::Refresh => {
                self.mark_refresh();
                Action::Nothing
            },
            Command::UpDirectory => {
                match parent_of(&self.current_path) {
                    Some(p) => {
                        self.set_path(p);
                    },
                    None => {},
                }
                Action::Nothing
            },
            Command::CreateDirectory => {
                let name = if self.filename_edit.as_str().is_empty() {
                    String::from_str("New folder")
                } else {
                    self.filename_edit.clone()
                };
                let path = join_path(&self.current_path, &name);
                Action::CreateDir { path }
            },
            Command::Rename(from, to) => Action::RenameFile { from, to },
        }
    }

    /// Commits the filename buffer (Enter in the filename field), given the
    /// host's probes of whether the resolved target exists and is a
    /// directory.
    pub fn commit_filename(&mut self, target_exists: bool, target_is_dir: bool)
        ensures
            Self::commit_rel(*old(self), *final(self), target_exists, target_is_dir),
    {
        if !self.filename_filter.check(&self.filename_edit) {
            return ;
        }
        match self.dialog_type {
            DialogType::SelectFolder => {
                self.do_folder();
            },
            DialogType::OpenFile => {
                if target_exists {
                    let p = join_path(&self.current_path, &self.filename_edit);
                    let info = FileInfo::new(p, target_is_dir);
                    self.select(Some(info));
                    self.open_selected();
                }
            },
            DialogType::SaveFile => {
                let p = join_path(&self.current_path, &self.filename_edit);
                if target_is_dir {
                    let info = FileInfo::new(p, true);
                    self.select(Some(info));
                    self.open_selected();
                } else {
                    self.selected_file = Some(FileInfo::new(p, false));
                    self.confirm();
                }
            },
        }
    }

    /// The host reports a successful rename or create-directory: the
    /// listing is re-read and the entry at `path` will be selected once the
    /// fresh listing lands.
    pub fn mutation_succeeded(&mut self, path: String, is_dir: bool)
        ensures
            *final(self) == (FileDialog {
                pending_select: Some(FileInfo { path: path, dir: is_dir, selected: false }),
                ..Self::refresh_marked(*old(self))
            }),
    {
        self.mark_refresh();
        self.pending_select = Some(FileInfo::new(path, is_dir));
    }

    /// The host hands in the result of enumerating the current directory
    /// (and the mounted drive roots, used only when `show_drives` is on):
    /// the listing is rebuilt per the Lister rules, the path buffer is
    /// reconciled, and a pending mutation target becomes the selection.
    pub fn provide_listing(&mut self, entries: Result<Vec<RawEntry>, String>, drives: Vec<String>)
        ensures
            !final(self).needs_refresh,
            final(self).pending_select is None,
            final(self).path_edit == old(self).current_path,
            match entries {
                Ok(raw) => final(self).files matches Ok(fs) && listing_sorted(fs@)
                    && fs@.to_multiset() == listing_candidates(
                    old(self).show_files_filter,
                    old(self).show_hidden,
                    raw@,
                    if old(self).show_drives {
                        drives@
                    } else {
                        Seq::<String>::empty()
                    },
                ).to_multiset(),
                Err(e) => final(self).files == Err::<Vec<FileInfo>, String>(e),
            },
            match old(self).pending_select {
                Some(info) => final(self).selected_file == Some(info) && final(self).filename_edit@
                    == display_name_spec(info.path@, info.dir),
                None => final(self).selected_file is None && final(self).filename_edit == old(
                    self,
                ).filename_edit,
            },
            *final(self) == (FileDialog {
                files: final(self).files,
                path_edit: final(self).path_edit,
                selected_file: final(self).selected_file,
                filename_edit: final(self).filename_edit,
                needs_refresh: false,
                pending_select: None,
                ..*old(self)
            }),
    {
        match entries {
            Ok(raw) => {
                let ds = if self.show_drives {
                    drives
                } else {
                    Vec::new()
                };
                let listing = build_listing(&self.show_files_filter, self.show_hidden, raw, ds);
                self.files = Ok(listing);
            },
            Err(e) => {
                self.files = Err(e);
            },
        }
        self.path_edit = self.current_path.clone();
        self.needs_refresh = false;
        let pending = match &self.pending_select {
            Some(info) => Some(info.clone()),
            None => None,
        };
        self.pending_select = None;
        match pending {
            Some(info) => {
                self.select(Some(info));
            },
            None => {
                self.selected_file = None;
            },
        }
    }

    /// Retrieves the multi selection: the paths of the flagged entries, in
    /// listing order.
    pub fn selection(&self) -> (r: Vec<String>)
        ensures
            r@ == match self.files {
                Ok(fs) => selected_paths(fs@),
                Err(_) => Seq::<String>::empty(),
            },
    {
        match &self.files {
            Ok(files) => {
                let mut out: Vec<String> = Vec::new();
                let mut i: usize = 0;
                while i < files.len()
                    invariant
                        i <= files@.len(),
                        out@ == selected_paths(files@.take(i as int)),
                    decreases files@.len() - i,
                {
                    proof {
                        assert(files@.take(i + 1 as int).drop_last() =~= files@.take(i as int));
                        assert(files@.take(i + 1 as int).last() == files@[i as int]);
                    }
                    if files[i].selected {
                        out.push(files[i].path.clone());
                    }
                    i = i + 1;
                }
                proof {
                    assert(files@.take(files@.len() as int) =~= files@);
                }
                out
            },
            Err(_) => Vec::new(),
        }
    }
}

/// Whether some flagged entry's display name passes the filename predicate.
fn any_selected_passes<NF: NameFilter>(filter: &NF, files: &Vec<FileInfo>) -> (r: bool)
    ensures
        r == exists|i: int|
            0 <= i < files@.len() && #[trigger] files@[i].selected && filter.accepts(
                display_name_spec(files@[i].path@, files@[i].dir),
            ),
{
    let mut i: usize = 0;
    while i < files.len()
        invariant
            i <= files@.len(),
            forall|j: int|
                0 <= j < i ==> !(#[trigger] files@[j].selected && filter.accepts(
                    display_name_spec(files@[j].path@, files@[j].dir),
                )),
        decreases files@.len() - i,
    {
        if files[i].selected {
            let name = get_file_name(&files[i]);
            if filter.check(&name) {
                return true;
            }
        }
        i = i + 1;
    }
    false
}

/// The per-frame state decision of the host's render loop: a dialog that
/// was not open collapses to `Closed`; closing the window chrome while it
/// was open cancels; otherwise whatever state this frame's commands reached
/// stands.
pub fn frame_transition(
    pre_state: State,
    state_after_commands: State,
    window_still_open: bool,
) -> (r: State)
    ensures
        r == if pre_state != State::Open {
            State::Closed
        } else if !window_still_open {
            State::Cancelled
        } else {
            state_after_commands
        },
{
    if pre_state != State::Open {
        State::Closed
    } else if !window_still_open {
        State::Cancelled
    } else {
        state_after_commands
    }
}

/// The paths of the flagged entries, in listing order.
pub open spec fn selected_paths(s: Seq<FileInfo>) -> Seq<String>
    decreases s.len(),
{
    if s.len() == 0 {
        Seq::<String>::empty()
    } else {
        let rest = selected_paths(s.drop_last());
        if s.last().selected {
            rest.push(s.last().path)
        } else {
            rest
        }
    }
}

impl FileDialog<AcceptAll, AcceptAll> {
    /// Create a dialog that prompts the user to select a folder.
    pub fn select_folder(initial_path: String) -> (r: Self)
        ensures
            r.dialog_type == DialogType::SelectFolder,
            r.state == State::Closed,
            r.current_path == initial_path,
            r.path_edit == initial_path,
            r.filename_edit@ == Seq::<char>::empty(),
            r.selected_file is None,
            !r.multi_select_enabled,
            r.files matches Ok(fs) && fs@ == Seq::<FileInfo>::empty(),
    {
        FileDialog::new(DialogType::SelectFolder, initial_path, false, AcceptAll, AcceptAll)
    }

    /// Create a dialog that prompts the user to open a file.  When the
    /// initial path names a file, the dialog starts in its parent with the
    /// file's name in the filename buffer.
    pub fn open_file(initial_path: String, initial_is_file: bool) -> (r: Self)
        ensures
            r.dialog_type == DialogType::OpenFile,
            r.state == State::Closed,
            r.selected_file is None,
            !r.multi_select_enabled,
            r.files matches Ok(fs) && fs@ == Seq::<FileInfo>::empty(),
            !initial_is_file ==> r.current_path == initial_path && r.filename_edit@
                == Seq::<char>::empty(),
            initial_is_file ==> r.filename_edit@ == after_last_slash(initial_path@),
    {
        FileDialog::new(DialogType::OpenFile, initial_path, initial_is_file, AcceptAll, AcceptAll)
    }

    /// Create a dialog that prompts the user to save a file.  When the
    /// initial path names a file, the dialog starts in its parent with the
    /// file's name in the filename buffer.
    pub fn save_file(initial_path: String, initial_is_file: bool) -> (r: Self)
        ensures
            r.dialog_type == DialogType::SaveFile,
            r.state == State::Closed,
            r.selected_file is None,
            !r.multi_select_enabled,
            r.files matches Ok(fs) && fs@ == Seq::<FileInfo>::empty(),
            !initial_is_file ==> r.current_path == initial_path && r.filename_edit@
                == Seq::<char>::empty(),
            initial_is_file ==> r.filename_edit@ == after_last_slash(initial_path@),
    {
        FileDialog::new(DialogType::SaveFile, initial_path, initial_is_file, AcceptAll, AcceptAll)
    }
}

} // verus!
