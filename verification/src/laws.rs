//! Selection laws, stated over the controller's transition relations and
//! proved once for every dialog.

use vstd::prelude::*;
use crate::dialog::FileDialog;
use crate::listing::{lemma_same_shape_keeps_sorted, listing_sorted};
use crate::entry::FileInfo;
use crate::filter::{FileFilter, NameFilter};
use crate::path_model::display_name_spec;
use crate::{DialogType, State};

verus! {

/// Number of flagged entries.
pub open spec fn count_selected(s: Seq<FileInfo>) -> nat
    decreases s.len(),
{
    if s.len() == 0 {
        0
    } else {
        count_selected(s.drop_last()) + if s.last().selected {
            1nat
        } else {
            0nat
        }
    }
}

proof fn lemma_count_selected_none(s: Seq<FileInfo>)
    requires
        forall|j: int| 0 <= j < s.len() ==> !s[j].selected,
    ensures
        count_selected(s) == 0,
    decreases s.len(),
{
    if s.len() > 0 {
        lemma_count_selected_none(s.drop_last());
    }
}

proof fn lemma_count_selected_one_candidate(s: Seq<FileInfo>, k: int)
    requires
        forall|j: int| 0 <= j < s.len() && j != k ==> !s[j].selected,
    ensures
        count_selected(s) <= 1,
    decreases s.len(),
{
    if s.len() > 0 {
        if k == s.len() - 1 {
            lemma_count_selected_none(s.drop_last());
        } else {
            lemma_count_selected_one_candidate(s.drop_last(), k);
        }
    }
}

/// An exclusive multi-select click always leaves at most one flagged entry
/// in the whole listing.
pub proof fn lemma_select_exclusive_at_most_one<FF: FileFilter, NF: NameFilter>(
    pre: FileDialog<FF, NF>,
    post: FileDialog<FF, NF>,
    idx: usize,
)
    requires
        pre.files matches Ok(fs) && (idx as int) < fs@.len(),
        FileDialog::sel_exclusive_rel(pre, post, idx),
    ensures
        post.files matches Ok(fs2) && count_selected(fs2@) <= 1,
{
    let fs2 = post.files->Ok_0;
    assert(forall|j: int| 0 <= j < fs2@.len() && j != idx ==> !fs2@[j].selected);
    lemma_count_selected_one_candidate(fs2@, idx as int);
}

/// A range click after an anchor at `a` selects exactly the closed span
/// between `a` and the clicked index, and leaves every flag outside the
/// span as it was.
pub proof fn lemma_select_range_span<FF: FileFilter, NF: NameFilter>(
    pre: FileDialog<FF, NF>,
    post: FileDialog<FF, NF>,
    a: usize,
    idx: usize,
)
    requires
        pre.files matches Ok(fs) && (a as int) < fs@.len() && (idx as int) < fs@.len(),
        pre.range_start == Some(a),
        FileDialog::sel_range_rel(pre, post, idx),
    ensures
        post.files matches Ok(fs2) && ({
            let fs = pre.files->Ok_0;
            let lo = if a <= idx {
                a as int
            } else {
                idx as int
            };
            let hi = if a <= idx {
                idx as int
            } else {
                a as int
            };
            &&& fs2@.len() == fs@.len()
            &&& forall|j: int| lo <= j <= hi ==> #[trigger] fs2@[j].selected
            &&& forall|j: int|
                0 <= j < fs@.len() && !(lo <= j <= hi) ==> #[trigger] fs2@[j].selected
                    == fs@[j].selected
        }),
{
}

/// Multi-select clicks touch selection flags alone, so every listing they
/// leave behind still satisfies the Listing invariant.
pub proof fn lemma_multi_select_keeps_sorted<FF: FileFilter, NF: NameFilter>(
    pre: FileDialog<FF, NF>,
    post: FileDialog<FF, NF>,
    idx: usize,
)
    requires
        pre.files matches Ok(fs) && listing_sorted(fs@),
        FileDialog::sel_exclusive_rel(pre, post, idx) || FileDialog::sel_toggle_rel(
            pre,
            post,
            idx,
        ) || FileDialog::sel_range_rel(pre, post, idx),
    ensures
        post.files matches Ok(fs2) && listing_sorted(fs2@),
{
    let fs = pre.files->Ok_0;
    if post.files == pre.files {
    } else {
        let fs2 = post.files->Ok_0;
        assert(fs2@.len() == fs@.len());
        assert forall|i: int|
            0 <= i < fs@.len() implies (#[trigger] fs2@[i]).path == fs@[i].path && fs2@[i].dir
            == fs@[i].dir by {}
        lemma_same_shape_keeps_sorted(fs@, fs2@);
    }
}

/// In a multi-select open-file dialog with no single selection, a plain
/// click on an unselected row at `a` followed by a range click at `b` flags
/// the whole closed span between them, and opening then confirms: the state
/// becomes `Selected` with the flagged entries — the span's paths — as the
/// result set.
pub proof fn lemma_multi_open_confirms_span<FF: FileFilter, NF: NameFilter>(
    d0: FileDialog<FF, NF>,
    d1: FileDialog<FF, NF>,
    d2: FileDialog<FF, NF>,
    d3: FileDialog<FF, NF>,
    a: usize,
    b: usize,
)
    requires
        d0.multi_select_enabled,
        d0.dialog_type == DialogType::OpenFile,
        d0.selected_file is None,
        d0.files matches Ok(fs) && (a as int) < fs@.len() && (b as int) < fs@.len() && !fs@[
            a as int
        ].selected,
        FileDialog::sel_exclusive_rel(d0, d1, a),
        FileDialog::sel_range_rel(d1, d2, b),
        FileDialog::open_selected_rel(d2, d3),
    ensures
        d3.state == State::Selected,
        d3.files == d2.files,
        d3.files matches Ok(fs3) && ({
            let fs = d0.files->Ok_0;
            let lo = if a <= b {
                a as int
            } else {
                b as int
            };
            let hi = if a <= b {
                b as int
            } else {
                a as int
            };
            &&& fs3@.len() == fs@.len()
            &&& forall|j: int|
                lo <= j <= hi ==> (#[trigger] fs3@[j]).selected && fs3@[j].path == fs@[j].path
        }),
{
    let fs = d0.files->Ok_0;
    let fs1 = d1.files->Ok_0;
    let fs2 = d2.files->Ok_0;
    assert(d1.range_start == Some(a));
    assert(fs1@.len() == fs@.len());
    assert(fs2@.len() == fs@.len());
    assert(d3 == FileDialog::confirmed(d2));
    let lo = if a <= b {
        a as int
    } else {
        b as int
    };
    let hi = if a <= b {
        b as int
    } else {
        a as int
    };
    assert forall|j: int|
        lo <= j <= hi implies (#[trigger] fs2@[j]).selected && fs2@[j].path == fs@[j].path by {
        assert(fs1@[j] == FileInfo {
            path: fs@[j].path,
            dir: fs@[j].dir,
            selected: j == a && !fs@[a as int].selected,
        });
        assert(fs2@[j] == FileInfo {
            path: fs1@[j].path,
            dir: fs1@[j].dir,
            selected: lo <= j <= hi || fs1@[j].selected,
        });
    }
}

/// Rename is never enabled when the filename buffer still holds the
/// selected entry's own display name.
pub proof fn lemma_rename_needs_new_name<FF: FileFilter, NF: NameFilter>(d: FileDialog<FF, NF>)
    requires
        match d.selected_file {
            Some(f) => d.filename_edit@ == display_name_spec(f.path@, f.dir),
            None => true,
        },
    ensures
        !d.can_rename_spec(),
{
}

/// Save is never permitted while the filename buffer is empty, whatever the
/// predicate says.
pub proof fn lemma_empty_filename_never_saves<FF: FileFilter, NF: NameFilter>(
    d: FileDialog<FF, NF>,
)
    requires
        d.filename_edit@.len() == 0,
    ensures
        !d.can_save_spec(),
{
}

} // verus!
