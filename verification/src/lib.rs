//! A regex-driven batch file operator: scans one directory's entries,
//! matches each base name against a regular expression, and applies a verb
//! (list, remove, copy, move, or extract into a new subfolder) to every
//! match, with independent per-entry outcomes.
//!
//! The library holds the verified core: command construction, pattern
//! matching through the `regex` crate behind a trusted interface, and the
//! per-entry plan each verb produces from one snapshot of entry names. The
//! filesystem calls that perform a plan live outside, in the command-line
//! shell around the library.

use vstd::prelude::*;

pub mod laws;
pub mod matcher;
pub mod plan;
pub mod query;

pub use crate::query::Query;

verus! {

/// Joins a directory path and an entry name with a single `/` separator,
/// matching how a path component is appended to a directory path.
pub open spec fn join_path(dir: Seq<char>, name: Seq<char>) -> Seq<char> {
    if dir.len() > 0 && dir.last() == '/' {
        dir + name
    } else {
        dir + seq!['/'] + name
    }
}

/// Appends `name` to `dir`, inserting a `/` unless `dir` already ends in one.
pub fn join(dir: &str, name: &str) -> (r: String)
    ensures
        r@ == join_path(dir@, name@),
{
    let n = dir.unicode_len();
    let mut out = dir.to_owned();
    if n == 0 || dir.get_char(n - 1) != '/' {
        proof {
            reveal_strlit("/");
        }
        out.append("/");
        assert(out@ =~= dir@ + seq!['/']);
    }
    out.append(name);
    assert(out@ =~= join_path(dir@, name@));
    out
}

/// The path with any trailing `/` separators removed.
pub open spec fn strip_trailing_slashes(p: Seq<char>) -> Seq<char>
    decreases p.len(),
{
    if p.len() > 0 && p.last() == '/' {
        strip_trailing_slashes(p.drop_last())
    } else {
        p
    }
}

/// The characters after the last `/` of the path (the whole path when it
/// holds no `/`).
pub open spec fn suffix_after_slash(p: Seq<char>) -> Seq<char>
    decreases p.len(),
{
    if p.len() == 0 {
        p
    } else if p.last() == '/' {
        Seq::empty()
    } else {
        suffix_after_slash(p.drop_last()).push(p.last())
    }
}

/// The final component of a path: what remains after stripping trailing
/// separators and taking the part after the last `/`.
pub open spec fn base_name_spec(p: Seq<char>) -> Seq<char> {
    suffix_after_slash(strip_trailing_slashes(p))
}

/// Computes the final component of `path`, as [`base_name_spec`] describes.
pub fn base_name(path: &str) -> (r: String)
    ensures
        r@ == base_name_spec(path@),
{
    let n = path.unicode_len();
    proof {
        assert(path@.subrange(0, n as int) =~= path@);
    }
    let mut end: usize = n;
    while end > 0 && path.get_char(end - 1) == '/'
        invariant
            end <= n,
            n == path@.len(),
            strip_trailing_slashes(path@) == strip_trailing_slashes(path@.subrange(0, end as int)),
        decreases end,
    {
        proof {
            let p = path@.subrange(0, end as int);
            assert(p.drop_last() =~= path@.subrange(0, end - 1));
        }
        end -= 1;
    }
    proof {
        let p = path@.subrange(0, end as int);
        assert(strip_trailing_slashes(p) == p);
    }
    let mut start: usize = end;
    while start > 0 && path.get_char(start - 1) != '/'
        invariant
            start <= end <= n,
            n == path@.len(),
            strip_trailing_slashes(path@) == path@.subrange(0, end as int),
            forall|j: int| start <= j < end ==> #[trigger] path@[j] != '/',
            suffix_after_slash(path@.subrange(0, end as int)) == suffix_after_slash(
                path@.subrange(0, start as int),
            ) + path@.subrange(start as int, end as int),
        decreases start,
    {
        proof {
            let q = path@.subrange(0, start as int);
            assert(q.drop_last() =~= path@.subrange(0, start - 1));
            assert(suffix_after_slash(q) == suffix_after_slash(q.drop_last()).push(q.last()));
            assert(suffix_after_slash(path@.subrange(0, start - 1)) + path@.subrange(
                start - 1,
                end as int,
            ) =~= suffix_after_slash(path@.subrange(0, start - 1)).push(path@[start - 1])
                + path@.subrange(start as int, end as int));
        }
        start -= 1;
    }
    proof {
        if start == 0 {
            assert(path@.subrange(0, 0) =~= Seq::<char>::empty());
            assert(suffix_after_slash(path@.subrange(0, 0)) =~= Seq::<char>::empty());
        } else {
            let q = path@.subrange(0, start as int);
            assert(q.last() == '/');
            assert(suffix_after_slash(q) =~= Seq::<char>::empty());
        }
        assert(base_name_spec(path@) =~= path@.subrange(start as int, end as int));
    }
    let r = path.substring_char(start, end).to_owned();
    r
}

} // verus!
