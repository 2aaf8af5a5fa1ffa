//! The record for one filesystem entry shown in the dialog.

use vstd::prelude::*;
use crate::path_model::{display_name_spec, file_name_of, is_drive_root};

verus! {

/// One entry of the current listing: its path, whether it is a directory,
/// and its multi-select flag.  Identity is the path; `selected` is
/// meaningful only while the entry belongs to the current listing.
#[derive(Debug)]
pub struct FileInfo {
    pub path: String,
    pub dir: bool,
    pub selected: bool,
}

impl Clone for FileInfo {
    fn clone(&self) -> (r: Self)
        ensures
            r == *self,
    {
        FileInfo { path: self.path.clone(), dir: self.dir, selected: self.selected }
    }
}

impl FileInfo {
    /// A fresh, unselected entry for `path`; `dir` is the host's probe of
    /// whether the path names a directory.
    pub fn new(path: String, dir: bool) -> (r: Self)
        ensures
            r.path == path,
            r.dir == dir,
            !r.selected,
    {
        FileInfo { path, dir, selected: false }
    }
}

/// The name an entry is shown and sorted under: the whole path for a drive
/// root, the final path component otherwise.
pub fn get_file_name(info: &FileInfo) -> (r: String)
    ensures
        r@ == display_name_spec(info.path@, info.dir),
{
    if info.dir && is_drive_root(&info.path) {
        info.path.clone()
    } else {
        file_name_of(&info.path)
    }
}

} // verus!
