//! The directory lister: it takes the entries the host enumerated, applies
//! the show-files predicate, the dot-hidden-file rule and the synthetic
//! drive roots, and sorts the result with all directories before all files
//! and each group in lexicographic order of display name.

use vstd::prelude::*;
use vstd::string::*;
use vstd::seq_lib::group_seq_properties;
use vstd::multiset::Multiset;
use crate::entry::{get_file_name, FileInfo};
use crate::filter::FileFilter;
use crate::path_model::{display_name_spec, hidden_name_spec, is_hidden_name};

verus! {

/// One enumerated child of the current directory, as the host reports it:
/// the path together with the two filesystem probes the listing rules read.
pub struct RawEntry {
    pub path: String,
    pub dir: bool,
    /// Whether a non-directory entry is an accessible regular file.
    pub regular_file: bool,
}

/// Lexicographic order on character sequences, by code point.
pub open spec fn lex_le(a: Seq<char>, b: Seq<char>) -> bool
    decreases a.len(),
{
    if a.len() == 0 {
        true
    } else if b.len() == 0 {
        false
    } else if (a[0] as u32) < (b[0] as u32) {
        true
    } else if (b[0] as u32) < (a[0] as u32) {
        false
    } else {
        lex_le(a.skip(1), b.skip(1))
    }
}

pub proof fn lemma_lex_le_total(a: Seq<char>, b: Seq<char>)
    ensures
        lex_le(a, b) || lex_le(b, a),
    decreases a.len(),
{
    if a.len() > 0 && b.len() > 0 && !((a[0] as u32) < (b[0] as u32)) && !((b[0] as u32) < (a[0]
        as u32)) {
        lemma_lex_le_total(a.skip(1), b.skip(1));
    }
}

pub proof fn lemma_lex_le_trans(a: Seq<char>, b: Seq<char>, c: Seq<char>)
    requires
        lex_le(a, b),
        lex_le(b, c),
    ensures
        lex_le(a, c),
    decreases a.len(),
{
    if a.len() > 0 && b.len() > 0 && c.len() > 0 {
        if !((a[0] as u32) < (c[0] as u32)) && !((c[0] as u32) < (a[0] as u32)) {
            if (a[0] as u32) == (b[0] as u32) && (b[0] as u32) == (c[0] as u32) {
                lemma_lex_le_trans(a.skip(1), b.skip(1), c.skip(1));
            }
        }
    }
}

/// The listing order: directories strictly before files, and within each
/// group lexicographic by display name.
pub open spec fn entry_le(a: FileInfo, b: FileInfo) -> bool {
    if a.dir != b.dir {
        a.dir
    } else {
        lex_le(display_name_spec(a.path@, a.dir), display_name_spec(b.path@, b.dir))
    }
}

pub proof fn lemma_entry_le_total(a: FileInfo, b: FileInfo)
    ensures
        entry_le(a, b) || entry_le(b, a),
{
    if a.dir == b.dir {
        lemma_lex_le_total(
            display_name_spec(a.path@, a.dir),
            display_name_spec(b.path@, b.dir),
        );
    }
}

pub proof fn lemma_entry_le_trans(a: FileInfo, b: FileInfo, c: FileInfo)
    requires
        entry_le(a, b),
        entry_le(b, c),
    ensures
        entry_le(a, c),
{
    if a.dir == b.dir && b.dir == c.dir {
        lemma_lex_le_trans(
            display_name_spec(a.path@, a.dir),
            display_name_spec(b.path@, b.dir),
            display_name_spec(c.path@, c.dir),
        );
    }
}

/// The Listing invariant: every pair of entries is in order.
pub open spec fn listing_sorted(s: Seq<FileInfo>) -> bool {
    forall|i: int, j: int| 0 <= i < j < s.len() ==> entry_le(s[i], s[j])
}

/// Exec form of `lex_le`.
pub fn lex_le_exec(a: &String, b: &String) -> (r: bool)
    ensures
        r == lex_le(a@, b@),
{
    let n = a.as_str().unicode_len();
    let m = b.as_str().unicode_len();
    let mut k: usize = 0;
    proof {
        assert(a@.skip(0) =~= a@);
        assert(b@.skip(0) =~= b@);
    }
    while k < n && k < m
        invariant
            n == a@.len(),
            m == b@.len(),
            k <= n,
            k <= m,
            lex_le(a@, b@) == lex_le(a@.skip(k as int), b@.skip(k as int)),
        decreases n - k,
    {
        let ca = a.as_str().get_char(k);
        let cb = b.as_str().get_char(k);
        if (ca as u32) < (cb as u32) {
            return true;
        }
        if (cb as u32) < (ca as u32) {
            return false;
        }
        proof {
            assert(a@.skip(k as int).skip(1) =~= a@.skip(k + 1));
            assert(b@.skip(k as int).skip(1) =~= b@.skip(k + 1));
        }
        k = k + 1;
    }
    k == n
}

/// Exec form of `entry_le`.
pub fn entry_le_exec(a: &FileInfo, b: &FileInfo) -> (r: bool)
    ensures
        r == entry_le(*a, *b),
{
    if a.dir != b.dir {
        a.dir
    } else {
        let an = get_file_name(a);
        let bn = get_file_name(b);
        lex_le_exec(&an, &bn)
    }
}

/// Sorts entries per the Listing invariant; the result holds exactly the
/// entries that went in.
pub fn sort_listing(v: Vec<FileInfo>) -> (r: Vec<FileInfo>)
    ensures
        listing_sorted(r@),
        r@.to_multiset() == v@.to_multiset(),
{
    broadcast use vstd::seq_lib::group_to_multiset_ensures;

    let ghost v0 = v@;
    let mut rest = v;
    let mut out: Vec<FileInfo> = Vec::new();
    while rest.len() > 0
        invariant
            listing_sorted(out@),
            out@.to_multiset().add(rest@.to_multiset()) =~= v0.to_multiset(),
        decreases rest.len(),
    {
        let ghost out0 = out@;
        let ghost rest0 = rest@;
        let e = rest.remove(0);
        let mut p: usize = 0;
        while p < out.len() && entry_le_exec(&out[p], &e)
            invariant
                p <= out@.len(),
                out@ == out0,
                forall|q: int| 0 <= q < p ==> entry_le(out@[q], e),
            decreases out@.len() - p,
        {
            p = p + 1;
        }
        proof {
            if p < out@.len() {
                lemma_entry_le_total(out@[p as int], e);
            }
        }
        out.insert(p, e);
        proof {
            assert forall|i: int, j: int| 0 <= i < j < out@.len() implies entry_le(
                out@[i],
                out@[j],
            ) by {
                if j < p {
                    assert(entry_le(out0[i], out0[j]));
                } else if j == p {
                    assert(entry_le(out0[i], e));
                } else if i == p {
                    if j - 1 > p {
                        lemma_entry_le_trans(e, out0[p as int], out0[j - 1]);
                    }
                } else if i < p {
                    assert(entry_le(out0[i], out0[j - 1]));
                } else {
                    assert(entry_le(out0[i - 1], out0[j - 1]));
                }
            }
            vstd::seq_lib::to_multiset_insert(out0, p as int, e);
            assert(out@.to_multiset() =~= out0.to_multiset().insert(e));
            vstd::seq_lib::to_multiset_remove(rest0, 0);
            assert(rest@.to_multiset() =~= rest0.to_multiset().remove(e));
            assert(rest0.to_multiset().count(e) > 0) by {
                assert(rest0[0] == e);
                assert(rest0.contains(e));
                vstd::seq_lib::to_multiset_contains(rest0, e);
            }
            assert(out@.to_multiset().add(rest@.to_multiset()) =~= out0.to_multiset().add(
                rest0.to_multiset(),
            ));
        }
    }
    proof {
        assert(rest@.to_multiset() =~= Multiset::<FileInfo>::empty()) by {
            assert(rest@ =~= Seq::<FileInfo>::empty());
        }
        assert(out@.to_multiset().add(Multiset::<FileInfo>::empty()) =~= out@.to_multiset());
    }
    out
}

/// The Listing invariant depends only on each entry's path and kind, so any
/// operation that touches selection flags alone — every multi-select click —
/// keeps the listing sorted.
pub proof fn lemma_same_shape_keeps_sorted(a: Seq<FileInfo>, b: Seq<FileInfo>)
    requires
        listing_sorted(a),
        a.len() == b.len(),
        forall|i: int|
            0 <= i < a.len() ==> (#[trigger] b[i]).path == a[i].path && b[i].dir == a[i].dir,
    ensures
        listing_sorted(b),
{
    assert forall|i: int, j: int| 0 <= i < j < b.len() implies entry_le(b[i], b[j]) by {
        assert(entry_le(a[i], a[j]));
        assert(b[i].path == a[i].path && b[i].dir == a[i].dir);
        assert(b[j].path == a[j].path && b[j].dir == a[j].dir);
    }
}

/// The entry a raw child turns into.
pub open spec fn to_info(e: RawEntry) -> FileInfo {
    FileInfo { path: e.path, dir: e.dir, selected: false }
}

/// The inclusion rule for one enumerated child: directories always pass the
/// file predicate; non-directories must be accessible regular files that the
/// show-files predicate accepts; and with the hidden toggle off, nothing
/// whose display name starts with a dot passes.
pub open spec fn keeps_entry<FF: FileFilter>(ff: FF, show_hidden: bool, e: RawEntry) -> bool {
    &&& (e.dir || (e.regular_file && ff.shows(e.path@)))
    &&& (show_hidden || !hidden_name_spec(display_name_spec(e.path@, e.dir)))
}

/// The entries the inclusion rule keeps, in enumeration order.
pub open spec fn kept_infos<FF: FileFilter>(
    ff: FF,
    show_hidden: bool,
    raw: Seq<RawEntry>,
) -> Seq<FileInfo>
    decreases raw.len(),
{
    if raw.len() == 0 {
        Seq::<FileInfo>::empty()
    } else {
        let rest = kept_infos(ff, show_hidden, raw.drop_last());
        if keeps_entry(ff, show_hidden, raw.last()) {
            rest.push(to_info(raw.last()))
        } else {
            rest
        }
    }
}

/// The synthetic directory entries for the mounted drive roots.
pub open spec fn drive_infos(drives: Seq<String>) -> Seq<FileInfo>
    decreases drives.len(),
{
    if drives.len() == 0 {
        Seq::<FileInfo>::empty()
    } else {
        drive_infos(drives.drop_last()).push(
            FileInfo { path: drives.last(), dir: true, selected: false },
        )
    }
}

/// Everything one refresh puts into the listing, before sorting.
pub open spec fn listing_candidates<FF: FileFilter>(
    ff: FF,
    show_hidden: bool,
    raw: Seq<RawEntry>,
    drives: Seq<String>,
) -> Seq<FileInfo> {
    drive_infos(drives) + kept_infos(ff, show_hidden, raw)
}

/// Every kept entry comes from a raw child that the inclusion rule accepts.
pub proof fn lemma_kept_infos_membership<FF: FileFilter>(
    ff: FF,
    show_hidden: bool,
    raw: Seq<RawEntry>,
    x: FileInfo,
)
    requires
        kept_infos(ff, show_hidden, raw).contains(x),
    ensures
        exists|i: int|
            0 <= i < raw.len() && keeps_entry(ff, show_hidden, raw[i]) && x == to_info(raw[i]),
    decreases raw.len(),
{
    broadcast use group_seq_properties;

    if raw.len() > 0 {
        let rest = kept_infos(ff, show_hidden, raw.drop_last());
        if keeps_entry(ff, show_hidden, raw.last()) && x == to_info(raw.last()) {
            assert(keeps_entry(ff, show_hidden, raw[raw.len() - 1]));
        } else {
            assert(rest.contains(x));
            lemma_kept_infos_membership(ff, show_hidden, raw.drop_last(), x);
            let i = choose|i: int|
                0 <= i < raw.drop_last().len() && keeps_entry(ff, show_hidden, raw.drop_last()[i])
                    && x == to_info(raw.drop_last()[i]);
            assert(raw.drop_last()[i] == raw[i]);
        }
    }
}

/// Every drive entry is an unselected directory for one of the drive roots.
pub proof fn lemma_drive_infos_membership(drives: Seq<String>, x: FileInfo)
    requires
        drive_infos(drives).contains(x),
    ensures
        x.dir,
        !x.selected,
        exists|i: int| 0 <= i < drives.len() && x.path == drives[i],
    decreases drives.len(),
{
    broadcast use group_seq_properties;

    if drives.len() > 0 {
        let head = FileInfo { path: drives.last(), dir: true, selected: false };
        if x == head {
            assert(x.path == drives[drives.len() - 1]);
        } else {
            assert(drive_infos(drives.drop_last()).contains(x));
            lemma_drive_infos_membership(drives.drop_last(), x);
            let i = choose|i: int| 0 <= i < drives.drop_last().len() && x.path == drives.drop_last()[i];
            assert(drives.drop_last()[i] == drives[i]);
        }
    }
}

/// What holds of every entry of a listing built from `raw` and `drives`:
/// it starts unselected, and — the hidden-file suppression law — when the
/// hidden toggle is off and no drive roots were added, its display name
/// does not start with the hidden marker.
pub proof fn lemma_listing_entry_props<FF: FileFilter>(
    ff: FF,
    show_hidden: bool,
    raw: Seq<RawEntry>,
    drives: Seq<String>,
    s: Seq<FileInfo>,
    k: int,
)
    requires
        s.to_multiset() == listing_candidates(ff, show_hidden, raw, drives).to_multiset(),
        0 <= k < s.len(),
    ensures
        !s[k].selected,
        !show_hidden && drives.len() == 0 ==> !hidden_name_spec(
            display_name_spec(s[k].path@, s[k].dir),
        ),
{
    broadcast use vstd::seq_lib::group_to_multiset_ensures;
    broadcast use group_seq_properties;

    let x = s[k];
    let cand = listing_candidates(ff, show_hidden, raw, drives);
    assert(s.contains(x));
    assert(cand.to_multiset().contains(x));
    assert(cand.contains(x));
    let i = choose|i: int| 0 <= i < cand.len() && cand[i] == x;
    if i < drive_infos(drives).len() {
        assert(drive_infos(drives).contains(x)) by {
            assert(drive_infos(drives)[i] == x);
        }
        lemma_drive_infos_membership(drives, x);
    } else {
        let j = i - drive_infos(drives).len();
        assert(kept_infos(ff, show_hidden, raw).contains(x)) by {
            assert(kept_infos(ff, show_hidden, raw)[j] == x);
        }
        lemma_kept_infos_membership(ff, show_hidden, raw, x);
    }
}

/// Builds the listing for one refresh: keeps what the inclusion rule keeps,
/// adds a directory entry per drive root, sorts.
pub fn build_listing<FF: FileFilter>(
    ff: &FF,
    show_hidden: bool,
    raw: Vec<RawEntry>,
    drives: Vec<String>,
) -> (r: Vec<FileInfo>)
    ensures
        listing_sorted(r@),
        r@.to_multiset() == listing_candidates(*ff, show_hidden, raw@, drives@).to_multiset(),
{
    let mut out: Vec<FileInfo> = Vec::new();
    let mut i: usize = 0;
    while i < drives.len()
        invariant
            i <= drives@.len(),
            out@ == drive_infos(drives@.take(i as int)),
        decreases drives@.len() - i,
    {
        out.push(FileInfo { path: drives[i].clone(), dir: true, selected: false });
        proof {
            assert(drives@.take(i + 1 as int).drop_last() =~= drives@.take(i as int));
            assert(drives@.take(i + 1 as int).last() == drives@[i as int]);
        }
        i = i + 1;
    }
    proof {
        assert(drives@.take(drives@.len() as int) =~= drives@);
    }
    let mut j: usize = 0;
    while j < raw.len()
        invariant
            j <= raw@.len(),
            out@ == drive_infos(drives@) + kept_infos(*ff, show_hidden, raw@.take(j as int)),
        decreases raw@.len() - j,
    {
        let info = FileInfo { path: raw[j].path.clone(), dir: raw[j].dir, selected: false };
        let passes = if raw[j].dir {
            true
        } else {
            raw[j].regular_file && ff.check(&raw[j].path)
        };
        let kept = if !passes {
            false
        } else if show_hidden {
            true
        } else {
            let name = get_file_name(&info);
            !is_hidden_name(&name)
        };
        proof {
            assert(raw@.take(j + 1 as int).drop_last() =~= raw@.take(j as int));
            assert(raw@.take(j + 1 as int).last() == raw@[j as int]);
        }
        if kept {
            assert(info == to_info(raw@[j as int]));
            out.push(info);
        }
        j = j + 1;
    }
    proof {
        assert(raw@.take(raw@.len() as int) =~= raw@);
    }
    sort_listing(out)
}

} // verus!
