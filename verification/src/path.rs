//! The path sandbox: which names may be joined under a directory, and how
//! a child path is formed. Paths are texts whose components are separated
//! by `/`.

use vstd::prelude::*;
use vstd::string::StringExecFns;
use crate::text::chars_of;

verus! {

/// A character that separates path components on some platform.
pub open spec fn is_separator(c: char) -> bool {
    c == '/' || c == '\\'
}

/// Whether `name` holds a path separator anywhere.
pub open spec fn has_separator(name: Seq<char>) -> bool {
    exists|i: int| 0 <= i < name.len() && is_separator(#[trigger] name[i])
}

/// Whether `name` holds two dots in a row, the marker of a parent directory.
pub open spec fn has_parent_marker(name: Seq<char>) -> bool {
    exists|i: int| 0 <= i && i + 1 < name.len() && #[trigger] name[i] == '.' && name[i + 1] == '.'
}

/// The name by which a directory refers to itself.
pub open spec fn is_self_marker(name: Seq<char>) -> bool {
    name.len() == 1 && name[0] == '.'
}

/// The name by which a directory refers to its parent.
pub open spec fn is_parent_marker(name: Seq<char>) -> bool {
    name.len() == 2 && name[0] == '.' && name[1] == '.'
}

/// A name that can name a child of a directory: not empty, free of
/// separators (so it cannot be absolute either), and neither `.` nor
/// `..`.
pub open spec fn names_child(name: Seq<char>) -> bool {
    &&& name.len() > 0
    &&& !has_separator(name)
    &&& !is_self_marker(name)
    &&& !is_parent_marker(name)
}

/// A name that the sandbox lets through: one that can name a child of
/// the directory it is joined under and holds no `..` anywhere.
pub open spec fn single_component(name: Seq<char>) -> bool {
    &&& names_child(name)
    &&& !has_parent_marker(name)
}

/// Decides `names_child` for a name.
pub fn is_child_name(name: &str) -> (ok: bool)
    ensures
        ok == names_child(name@),
{
    let chars = chars_of(name);
    if chars.len() == 0 || (chars.len() == 1 && chars[0] == '.') || (chars.len() == 2 && chars[0]
        == '.' && chars[1] == '.') {
        return false;
    }
    let mut i: usize = 0;
    while i < chars.len()
        invariant
            i <= chars.len(),
            chars@ == name@,
            forall|k: int| 0 <= k < i ==> !is_separator(#[trigger] chars@[k]),
        decreases chars.len() - i,
    {
        let c = chars[i];
        if c == '/' || c == '\\' {
            assert(is_separator(name@[i as int]));
            return false;
        }
        i += 1;
    }
    true
}

/// Decides `single_component` for a name.
pub fn is_single_component(name: &str) -> (ok: bool)
    ensures
        ok == single_component(name@),
{
    let chars = chars_of(name);
    if chars.len() == 0 || (chars.len() == 1 && chars[0] == '.') {
        return false;
    }
    let mut i: usize = 0;
    while i < chars.len()
        invariant
            i <= chars.len(),
            chars@ == name@,
            forall|k: int| 0 <= k < i ==> !is_separator(#[trigger] chars@[k]),
            forall|k: int| 0 <= k && k + 1 < i ==> !(#[trigger] chars@[k] == '.' && chars@[k + 1] == '.'),
        decreases chars.len() - i,
    {
        let c = chars[i];
        if c == '/' || c == '\\' {
            assert(is_separator(name@[i as int]));
            return false;
        }
        if c == '.' && i > 0 && chars[i - 1] == '.' {
            assert(name@[i - 1] == '.' && name@[i - 1 + 1] == '.');
            return false;
        }
        i += 1;
    }
    assert(!is_parent_marker(name@)) by {
        if is_parent_marker(name@) {
            let first: int = 0;
            assert(name@[first] == '.' && name@[first + 1] == '.');
        }
    }
    true
}

/// The path of the child `name` of the directory `dir`: the two joined by
/// one `/`, unless `dir` is empty or already ends in one.
pub open spec fn child_of(dir: Seq<char>, name: Seq<char>) -> Seq<char> {
    if dir.len() == 0 {
        name
    } else if dir.last() == '/' {
        dir + name
    } else {
        dir + seq!['/'] + name
    }
}

/// Joins `name` under `dir`.
pub fn join(dir: &str, name: &str) -> (path: String)
    ensures
        path@ == child_of(dir@, name@),
{
    let chars = chars_of(dir);
    let mut path = String::from_str(dir);
    if chars.len() > 0 && chars[chars.len() - 1] != '/' {
        proof {
            reveal_strlit("/");
            assert("/"@ =~= seq!['/']);
        }
        path.append("/");
    }
    path.append(name);
    proof {
        assert(path@ =~= child_of(dir@, name@));
    }
    path
}

} // verus!
