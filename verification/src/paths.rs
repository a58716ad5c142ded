//! File paths kept as text.

use vstd::prelude::*;
use vstd::string::*;
use crate::text::{has_prefix, has_suffix, ends_with, starts_with};

verus! {

/// `dir` joined with the path `name`, as `Path::join` does: an absolute
/// `name` (starting with `/`) replaces `dir`; otherwise a separator goes
/// between them unless `dir` is empty or already ends with one.
pub open spec fn joined(dir: Seq<char>, name: Seq<char>) -> Seq<char> {
    if has_prefix(name, "/"@) {
        name
    } else if dir.len() == 0 {
        name
    } else if has_suffix(dir, "/"@) {
        dir + name
    } else {
        dir + "/"@ + name
    }
}

/// Joins a directory and a path.
pub fn join_path(dir: &str, name: &str) -> (r: String)
    ensures
        r@ == joined(dir@, name@),
{
    if starts_with(name, "/") {
        return name.to_string();
    }
    let mut r = dir.to_string();
    if dir.unicode_len() == 0 {
        return name.to_string();
    }
    if !ends_with(dir, "/") {
        r.append("/");
    }
    r.append(name);
    r
}

} // verus!
