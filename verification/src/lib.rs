//! A file/folder picker controller: directory listing, filtering and
//! sorting, single and multi selection, renaming, folder creation, and the
//! dialog state machine that turns user commands into a confirmed path or a
//! cancellation.  Rendering and filesystem access are left to the host
//! application; the controller works on plain path strings and on entry
//! records the host hands in.

use vstd::prelude::*;

pub mod path_model;
pub mod entry;
pub mod filter;
pub mod listing;
pub mod dialog;
pub mod laws;

pub use dialog::Action;
pub use dialog::Command;
pub use dialog::FileDialog;
pub use entry::get_file_name;
pub use entry::FileInfo;
pub use filter::AcceptAll;
pub use filter::SuffixFilter;
pub use listing::RawEntry;
pub use path_model::is_drive_root;

verus! {

/// Dialog state.
#[derive(Debug, PartialEq, Eq, Copy, Clone, Structural)]
pub enum State {
    /// Is currently visible.
    Open,
    /// Is currently not visible.
    Closed,
    /// Was canceled.
    Cancelled,
    /// File was selected.
    Selected,
}

/// Dialog type.
#[derive(Clone, Copy, Debug, Eq, PartialEq, Structural)]
pub enum DialogType {
    SelectFolder,
    OpenFile,
    SaveFile,
}

} // verus!
