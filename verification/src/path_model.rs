//! Plain-string model of filesystem paths.
//!
//! A path is a `String` whose components are separated by `'/'`, normalized
//! so that only the root path `"/"` ends in a separator.  A drive root such
//! as `"C:\"` is a complete path of its own.  The controller never touches
//! the filesystem: these functions only take paths apart and put them
//! together.

use vstd::prelude::*;
use vstd::string::*;

verus! {

/// The final path component: everything after the last `'/'`, or the whole
/// string when it holds no `'/'`.
pub open spec fn after_last_slash(s: Seq<char>) -> Seq<char>
    decreases s.len(),
{
    if s.len() == 0 {
        s
    } else if s.last() == '/' {
        Seq::<char>::empty()
    } else {
        after_last_slash(s.drop_last()).push(s.last())
    }
}

/// When the string holds no separator, the final component is the string
/// itself.
pub proof fn lemma_after_last_slash_no_slash(s: Seq<char>)
    requires
        forall|j: int| 0 <= j < s.len() ==> s[j] != '/',
    ensures
        after_last_slash(s) == s,
    decreases s.len(),
{
    if s.len() > 0 {
        lemma_after_last_slash_no_slash(s.drop_last());
        assert(after_last_slash(s.drop_last()).push(s.last()) =~= s);
    }
}

/// When the last separator stands at index `i`, the final component is the
/// text after it.
pub proof fn lemma_after_last_slash_at(s: Seq<char>, i: int)
    requires
        0 <= i < s.len(),
        s[i] == '/',
        forall|j: int| i < j < s.len() ==> s[j] != '/',
    ensures
        after_last_slash(s) == s.subrange(i + 1, s.len() as int),
    decreases s.len(),
{
    if i == s.len() - 1 {
        assert(after_last_slash(s) =~= s.subrange(i + 1, s.len() as int));
    } else {
        lemma_after_last_slash_at(s.drop_last(), i);
        assert(s.drop_last().subrange(i + 1, s.len() - 1).push(s.last()) =~= s.subrange(
            i + 1,
            s.len() as int,
        ));
    }
}

/// The directory part of a path: `None` for the root `"/"` and for the empty
/// path, `Some` of everything before the last separator otherwise (the empty
/// string when there is no separator, `"/"` when the separator is the first
/// character).
pub open spec fn parent_spec(s: Seq<char>) -> Option<Seq<char>> {
    if s.len() == 0 {
        None
    } else if s.len() == 1 && s[0] == '/' {
        None
    } else if after_last_slash(s).len() == s.len() {
        Some(Seq::<char>::empty())
    } else {
        let i = s.len() - after_last_slash(s).len() - 1;
        if i == 0 {
            Some(seq!['/'])
        } else {
            Some(s.subrange(0, i as int))
        }
    }
}

/// `base` and `name` joined with a single separator.
pub open spec fn join_spec(base: Seq<char>, name: Seq<char>) -> Seq<char> {
    if base.len() == 0 {
        name
    } else if base.last() == '/' {
        base + name
    } else {
        base + seq!['/'] + name
    }
}

/// The path with its final component replaced by `name`.
pub open spec fn with_file_name_spec(path: Seq<char>, name: Seq<char>) -> Seq<char> {
    path.subrange(0, path.len() - after_last_slash(path).len()) + name
}

/// A drive root in the `"C:\"` shape: one ASCII capital, a colon, a
/// backslash.
pub open spec fn is_drive_root_spec(s: Seq<char>) -> bool {
    &&& s.len() == 3
    &&& ('A' as u32) <= (s[0] as u32)
    &&& (s[0] as u32) <= ('Z' as u32)
    &&& s[1] == ':'
    &&& s[2] == '\\'
}

/// What the listing shows for an entry: the whole path for a drive-root
/// directory, the final path component otherwise.
pub open spec fn display_name_spec(path: Seq<char>, dir: bool) -> Seq<char> {
    if dir && is_drive_root_spec(path) {
        path
    } else {
        after_last_slash(path)
    }
}

/// A display name under the dot-hidden-file convention.
pub open spec fn hidden_name_spec(name: Seq<char>) -> bool {
    name.len() > 0 && name[0] == '.'
}

/// Index of the last `'/'` in `s`, if any.
fn last_slash_index(s: &String) -> (r: Option<usize>)
    ensures
        match r {
            Some(i) => i < s@.len() && s@[i as int] == '/' && (forall|j: int|
                i < j < s@.len() ==> s@[j] != '/'),
            None => forall|j: int| 0 <= j < s@.len() ==> s@[j] != '/',
        },
{
    let n = s.as_str().unicode_len();
    let mut k = n;
    while k > 0
        invariant
            k <= n,
            n == s@.len(),
            forall|j: int| k <= j < s@.len() ==> s@[j] != '/',
        decreases k,
    {
        k = k - 1;
        if s.as_str().get_char(k) == '/' {
            return Some(k);
        }
    }
    None
}

/// Whether the path is a drive root such as `"C:\"`.
pub fn is_drive_root(path: &String) -> (r: bool)
    ensures
        r == is_drive_root_spec(path@),
{
    let n = path.as_str().unicode_len();
    if n != 3 {
        return false;
    }
    let c0 = path.as_str().get_char(0);
    let c1 = path.as_str().get_char(1);
    let c2 = path.as_str().get_char(2);
    ('A' as u32) <= (c0 as u32) && (c0 as u32) <= ('Z' as u32) && c1 == ':' && c2 == '\\'
}

/// The final path component of `path`.
pub fn file_name_of(path: &String) -> (r: String)
    ensures
        r@ == after_last_slash(path@),
{
    let n = path.as_str().unicode_len();
    match last_slash_index(path) {
        Some(i) => {
            proof {
                lemma_after_last_slash_at(path@, i as int);
            }
            let sub = path.as_str().substring_char(i + 1, n);
            String::from_str(sub)
        },
        None => {
            proof {
                lemma_after_last_slash_no_slash(path@);
            }
            path.clone()
        },
    }
}

/// The directory part of `path`, or `None` when it has no parent.
pub fn parent_of(path: &String) -> (r: Option<String>)
    ensures
        match r {
            Some(p) => parent_spec(path@) == Some(p@),
            None => parent_spec(path@) is None,
        },
{
    let n = path.as_str().unicode_len();
    if n == 0 {
        return None;
    }
    match last_slash_index(path) {
        None => {
            proof {
                lemma_after_last_slash_no_slash(path@);
            }
            Some(String::new())
        },
        Some(i) => {
            proof {
                lemma_after_last_slash_at(path@, i as int);
            }
            if i == 0 {
                if n == 1 {
                    None
                } else {
                    let root = path.as_str().substring_char(0, 1);
                    proof {
                        assert(path@.subrange(0, 1) =~= seq!['/']);
                    }
                    Some(String::from_str(root))
                }
            } else {
                Some(String::from_str(path.as_str().substring_char(0, i)))
            }
        },
    }
}

/// `base` and `name` joined with a single separator.
pub fn join_path(base: &String, name: &String) -> (r: String)
    ensures
        r@ == join_spec(base@, name@),
{
    let n = base.as_str().unicode_len();
    if n == 0 {
        return name.clone();
    }
    let last = base.as_str().get_char(n - 1);
    if last == '/' {
        base.clone().concat(name.as_str())
    } else {
        let mut r = base.clone();
        r.append("/");
        r.append(name.as_str());
        proof {
            reveal_strlit("/");
            assert(("/")@ =~= seq!['/']);
            assert(r@ =~= base@ + seq!['/'] + name@);
        }
        r
    }
}

/// The path with its final component replaced by `name`.
pub fn with_file_name(path: &String, name: &String) -> (r: String)
    ensures
        r@ == with_file_name_spec(path@, name@),
{
    let n = path.as_str().unicode_len();
    match last_slash_index(path) {
        None => {
            proof {
                lemma_after_last_slash_no_slash(path@);
                assert(with_file_name_spec(path@, name@) =~= name@);
            }
            name.clone()
        },
        Some(i) => {
            proof {
                lemma_after_last_slash_at(path@, i as int);
            }
            let prefix = path.as_str().substring_char(0, i + 1);
            String::from_str(prefix).concat(name.as_str())
        },
    }
}

/// Whether a display name falls under the dot-hidden-file convention.
pub fn is_hidden_name(name: &String) -> (r: bool)
    ensures
        r == hidden_name_spec(name@),
{
    let n = name.as_str().unicode_len();
    n > 0 && name.as_str().get_char(0) == '.'
}

} // verus!
