//! The two predicates a dialog is built with: one decides which files the
//! listing shows, one gates filenames for open, save and rename.  Both are
//! capability traits so that a host can inject its own rule; each exec
//! method must return exactly what its spec-level predicate says.

use vstd::prelude::*;
use vstd::string::*;

verus! {

/// Decides which non-directory entries the listing shows.
pub trait FileFilter: Sized {
    /// The predicate itself, over the entry's path.
    spec fn shows(&self, path: Seq<char>) -> bool;

    /// Exec form; must agree with `shows`.
    fn check(&self, path: &String) -> (r: bool)
        ensures
            r == self.shows(path@),
    ;
}

/// Gates a filename for save, open and rename commits.
pub trait NameFilter: Sized {
    /// The predicate itself, over the filename.
    spec fn accepts(&self, name: Seq<char>) -> bool;

    /// Exec form; must agree with `accepts`.
    fn check(&self, name: &String) -> (r: bool)
        ensures
            r == self.accepts(name@),
    ;
}

/// The default predicate: everything passes.
#[derive(Clone, Copy, Debug)]
pub struct AcceptAll;

impl FileFilter for AcceptAll {
    open spec fn shows(&self, path: Seq<char>) -> bool {
        true
    }

    fn check(&self, path: &String) -> (r: bool) {
        true
    }
}

impl NameFilter for AcceptAll {
    open spec fn accepts(&self, name: Seq<char>) -> bool {
        true
    }

    fn check(&self, name: &String) -> (r: bool) {
        true
    }
}

/// Accepts exactly the names that end in the given suffix.
#[derive(Debug)]
pub struct SuffixFilter {
    pub suffix: String,
}

impl NameFilter for SuffixFilter {
    open spec fn accepts(&self, name: Seq<char>) -> bool {
        self.suffix@.is_suffix_of(name)
    }

    fn check(&self, name: &String) -> (r: bool) {
        ends_with(name, &self.suffix)
    }
}

impl FileFilter for SuffixFilter {
    open spec fn shows(&self, path: Seq<char>) -> bool {
        self.suffix@.is_suffix_of(path)
    }

    fn check(&self, path: &String) -> (r: bool) {
        ends_with(path, &self.suffix)
    }
}

/// Whether `s` ends in `suffix`, character by character.
pub fn ends_with(s: &String, suffix: &String) -> (r: bool)
    ensures
        r == suffix@.is_suffix_of(s@),
{
    let n = s.as_str().unicode_len();
    let m = suffix.as_str().unicode_len();
    if m > n {
        return false;
    }
    let mut k: usize = 0;
    while k < m
        invariant
            m <= n,
            n == s@.len(),
            m == suffix@.len(),
            k <= m,
            forall|j: int| 0 <= j < k ==> s@[n - m + j] == suffix@[j],
        decreases m - k,
    {
        if s.as_str().get_char(n - m + k) != suffix.as_str().get_char(k) {
            proof {
                assert(s@.subrange(n - m, n as int)[k as int] != suffix@[k as int]);
            }
            return false;
        }
        k = k + 1;
    }
    proof {
        assert(suffix@ =~= s@.subrange(n - m, n as int));
    }
    true
}

} // verus!
