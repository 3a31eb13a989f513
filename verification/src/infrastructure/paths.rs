//! Slash-separated file paths as text.

use vstd::prelude::*;
use vstd::string::*;

use crate::text::characters;

verus! {

/// Whether a path names one file whatever the working directory is.
pub open spec fn is_absolute(path: Seq<char>) -> bool {
    path.len() > 0 && path[0] == '/'
}

/// A relative path below another path.
pub open spec fn joined_path(base: Seq<char>, part: Seq<char>) -> Seq<char> {
    if base.len() == 0 || base.last() == '/' {
        base + part
    } else {
        base + "/"@ + part
    }
}

pub fn absolute(path: &str) -> (answer: bool)
    ensures
        answer == is_absolute(path@),
{
    if path.unicode_len() == 0 {
        return false;
    }
    path.get_char(0) == '/'
}

pub fn join(base: &str, part: &str) -> (path: String)
    ensures
        path@ == joined_path(base@, part@),
{
    let chars = characters(base);
    let mut path = base.to_owned();
    if chars.len() > 0 && chars[chars.len() - 1] != '/' {
        path.append("/");
    }
    path.append(part);
    path
}

} // verus!
