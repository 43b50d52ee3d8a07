//! Plain-string path handling.
//!
//! Paths are modeled as plain strings of characters separated by `'/'`, with
//! no normalization: repeated or trailing separators are kept as written.
//! The only operations the library needs are finding a path's parent
//! directory and gluing a directory and a file name together.

use vstd::prelude::*;
use vstd::string::StrSliceExecFns;
use vstd::string::StringExecFns;

verus! {

/// Index of the last `'/'` in `p`, or `-1` if `p` holds none.
pub open spec fn last_slash_idx(p: Seq<char>) -> int
    decreases p.len(),
{
    if p.len() == 0 {
        -1
    } else if p.last() == '/' {
        p.len() - 1
    } else {
        last_slash_idx(p.drop_last())
    }
}

/// The parent directory of `p` under the simplified path model: everything
/// before the last `'/'`. A bare file name has parent `"."`, the root `"/"`
/// and the empty path have none, and a path such as `"/x"` has parent `"/"`.
pub open spec fn parent_spec(p: Seq<char>) -> Option<Seq<char>> {
    let i = last_slash_idx(p);
    if p.len() == 0 {
        None
    } else if i == -1 {
        Some("."@)
    } else if i == 0 {
        if p.len() == 1 {
            None
        } else {
            Some(seq!['/'])
        }
    } else {
        Some(p.subrange(0, i))
    }
}

/// `base` and `name` glued with a `'/'` separator.
pub open spec fn join_spec(base: Seq<char>, name: Seq<char>) -> Seq<char> {
    base + seq!['/'] + name
}

proof fn lemma_last_slash_at(p: Seq<char>, i: int)
    requires
        0 <= i < p.len(),
        p[i] == '/',
        forall|j: int| i < j < p.len() ==> p[j] != '/',
    ensures
        last_slash_idx(p) == i,
    decreases p.len(),
{
    if i < p.len() - 1 {
        lemma_last_slash_at(p.drop_last(), i);
    }
}

proof fn lemma_no_slash(p: Seq<char>)
    requires
        forall|j: int| 0 <= j < p.len() ==> p[j] != '/',
    ensures
        last_slash_idx(p) == -1,
    decreases p.len(),
{
    if p.len() > 0 {
        lemma_no_slash(p.drop_last());
    }
}

/// The parent directory of `p`, with a bare file name mapped to `"."` so the
/// result is always usable as a directory to place temporary files in.
/// `None` is returned only for the root and for the empty path, where no
/// enclosing directory exists.
pub fn safe_parent(p: &str) -> (r: Option<String>)
    ensures
        match r {
            Some(d) => parent_spec(p@) == Some(d@),
            None => parent_spec(p@) is None,
        },
{
    let n = p.unicode_len();
    if n == 0 {
        return None;
    }
    let mut i: usize = n;
    while i > 0
        invariant
            i <= n,
            n == p@.len(),
            forall|j: int| i <= j < n ==> p@[j] != '/',
        decreases i,
    {
        i = i - 1;
        if p.get_char(i) == '/' {
            proof {
                lemma_last_slash_at(p@, i as int);
            }
            if i == 0 {
                if n == 1 {
                    return None;
                } else {
                    let root = String::from_str("/");
                    proof {
                        reveal_strlit("/");
                        assert(root@ =~= seq!['/']);
                    }
                    return Some(root);
                }
            } else {
                return Some(String::from_str(p.substring_char(0, i)));
            }
        }
    }
    proof {
        lemma_no_slash(p@);
    }
    Some(String::from_str("."))
}

/// Glues a directory and a name into one path, as `join_spec` describes.
pub fn join(base: &str, name: &str) -> (r: String)
    ensures
        r@ == join_spec(base@, name@),
{
    let mut s = String::from_str(base);
    s.append("/");
    s.append(name);
    proof {
        reveal_strlit("/");
        assert(s@ =~= base@ + seq!['/'] + name@);
    }
    s
}

} // verus!
