//! Paths as text.

use vstd::prelude::*;
use vstd::string::*;

verus! {

/// The character that separates the components of a path, on every platform.
pub open spec fn separator() -> char {
    '/'
}

/// The path of `child` below `base`.
///
/// A `child` that begins at the root stands for itself. Otherwise it follows
/// `base`, with a separator between the two unless `base` is empty or already
/// ends in one.
pub open spec fn join_spec(base: Seq<char>, child: Seq<char>) -> Seq<char> {
    if child.len() > 0 && child[0] == separator() {
        child
    } else if base.len() > 0 && base.last() != separator() {
        base + seq![separator()] + child
    } else {
        base + child
    }
}

/// Builds the path of `child` below `base`.
pub fn join(base: &str, child: &str) -> (path: String)
    ensures
        path@ == join_spec(base@, child@),
{
    let child_len: usize = child.unicode_len();
    if child_len > 0 && child.get_char(0) == '/' {
        return String::from_str(child);
    }
    let base_len: usize = base.unicode_len();
    let mut path = String::from_str(base);
    if base_len > 0 && base.get_char(base_len - 1) != '/' {
        proof {
            reveal_strlit("/");
            assert("/"@ =~= seq![separator()]);
        }
        path.append("/");
    }
    path.append(child);
    path
}

} // verus!
