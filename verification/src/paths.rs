//! Unix path arithmetic on text.
use vstd::prelude::*;
use vstd::string::*;

use crate::text::chars_of;

verus! {

/// Whether a Unix path is absolute: it begins at the root.
pub open spec fn is_absolute(path: Seq<char>) -> bool {
    path.len() > 0 && path[0] == '/'
}

/// `path` as seen from `base`: an absolute path stands for itself, any other is appended to
/// `base` with exactly one separator added where `base` is not empty and does not end in one.
pub open spec fn joined(base: Seq<char>, path: Seq<char>) -> Seq<char> {
    if is_absolute(path) {
        path
    } else if base.len() == 0 || base.last() == '/' {
        base + path
    } else {
        base.push('/') + path
    }
}

/// Joins `path` to `base`.
pub fn join(base: &str, path: &str) -> (r: String)
    ensures
        r@ == joined(base@, path@),
{
    let head = chars_of(base);
    let tail = chars_of(path);
    if tail.len() > 0 && tail[0] == '/' {
        return path.to_string();
    }
    let mut out: String = base.to_string();
    if head.len() > 0 && head[head.len() - 1] != '/' {
        out.append("/");
        proof {
            reveal_strlit("/");
        }
        assert(out@ =~= base@.push('/'));
    }
    out.append(path);
    out
}

/// An absolute path stands for itself, whatever the base.
pub proof fn law_absolute_path_stands_for_itself(base: Seq<char>, rest: Seq<char>)
    ensures
        joined(base, seq!['/'] + rest) == seq!['/'] + rest,
{
}

/// Any other path comes after the base, with one separator between them.
pub proof fn law_relative_path_follows_the_base(base: Seq<char>, path: Seq<char>)
    requires
        path.len() == 0 || path[0] != '/',
    ensures
        joined(Seq::empty(), path) == path,
        joined(base.push('/'), path) == base + seq!['/'] + path,
        base.len() > 0 && base.last() != '/' ==> joined(base, path) == base + seq!['/'] + path,
{
    assert(joined(Seq::empty(), path) =~= path);
    assert(joined(base.push('/'), path) =~= base + seq!['/'] + path);
    if base.len() > 0 && base.last() != '/' {
        assert(joined(base, path) =~= base + seq!['/'] + path);
    }
}

} // verus!
