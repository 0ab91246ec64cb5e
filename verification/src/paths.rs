//! Parts of the path of a file.
//!
//! How a path is taken apart differs between systems, so what is said here holds on each of them.

use vstd::prelude::*;

verus! {

/// `c` separates the parts of a path, on some system at least.
pub open spec fn is_separator(c: char) -> bool {
    c == '/' || c == '\\'
}

/// `name` can be the name of a file: it is not one of the two special names, and it holds no
/// separator.
pub open spec fn is_name(name: Seq<char>) -> bool {
    &&& name.len() > 0
    &&& name != seq!['.']
    &&& name != seq!['.', '.']
    &&& forall|i: int| 0 <= i < name.len() ==> !is_separator(#[trigger] name[i])
}

/// `path` begins with one character and a colon, which some systems take for a drive.
pub open spec fn has_drive(path: Seq<char>) -> bool {
    path.len() > 1 && path[1] == ':'
}

/// `path` does not begin like the name of a share or a device.
pub open spec fn has_plain_start(path: Seq<char>) -> bool {
    path.len() > 1 && is_separator(path[0]) ==> !is_separator(path[1]) && path[1] != '?'
}

/// `end` adds nothing to the path that it ends: it is made of slashes, and of single dots between
/// and behind them.
pub open spec fn is_idle_end(end: Seq<char>) -> bool {
    forall|i: int| 0 <= i < end.len() ==> is_idle_at(end, i)
}

/// The character of `end` at `i` is a slash, or a dot that stands alone behind one.
pub open spec fn is_idle_at(end: Seq<char>, i: int) -> bool {
    ||| end[i] == '/'
    ||| {
        &&& end[i] == '.'
        &&& i > 0
        &&& end[i - 1] == '/'
        &&& i + 1 == end.len() || end[i + 1] == '/'
    }
}

/// `path` is the file name `name` alone, but for an idle end.
pub open spec fn is_file_alone(path: Seq<char>, name: Seq<char>, end: Seq<char>) -> bool {
    &&& path == name + end
    &&& is_name(name)
    &&& is_idle_end(end)
}

/// `path` is the file `name` in the directory `dir`, but for an idle end.
pub open spec fn is_file_in(
    path: Seq<char>,
    dir: Seq<char>,
    name: Seq<char>,
    end: Seq<char>,
) -> bool {
    &&& path == dir + seq!['/'] + name + end
    &&& is_name(name)
    &&& is_idle_end(end)
    &&& has_plain_start(path)
}

/// `path` is `name` behind a backslash, but for an idle end. Some systems take this for the file
/// `name` in `dir`; others take the backslash for a character like any other.
pub open spec fn is_file_behind_backslash(
    path: Seq<char>,
    dir: Seq<char>,
    name: Seq<char>,
    end: Seq<char>,
) -> bool {
    &&& path == dir + seq!['\\'] + name + end
    &&& is_name(name)
    &&& is_idle_end(end)
    &&& has_plain_start(path)
}

/// The last slash of `path` stands at `k`.
pub open spec fn is_last_slash(path: Seq<char>, k: int) -> bool {
    &&& 0 <= k < path.len()
    &&& path[k] == '/'
    &&& forall|i: int| k < i < path.len() ==> path[i] != '/'
}

/// `tail` is what follows the last slash of `path`, or all of it if it has none.
pub open spec fn is_behind_last_slash(path: Seq<char>, tail: Seq<char>) -> bool {
    if path.contains('/') {
        exists|k: int| #[trigger] is_last_slash(path, k) && tail == path.skip(k + 1)
    } else {
        tail == path
    }
}

/// `path` ends with a step to a parent directory, or leads to the root, or nowhere.
pub open spec fn has_no_name(path: Seq<char>) -> bool {
    let n = path.len() as int;
    ||| n == 0
    ||| path == seq!['/']
    ||| path == seq!['.']
    ||| path == seq!['.', '.']
    ||| has_plain_start(path) && n > 2 && path[n - 3] == '/' && path[n - 2] == '.' && path[n - 1]
        == '.'
}

/// `dir` is written in full: nothing at its end is left out when it stands alone, and it is not a
/// drive.
pub open spec fn is_plain_dir(dir: Seq<char>) -> bool {
    &&& dir.len() > 0
    &&& !is_separator(dir.last())
    &&& !(dir.len() == 2 && has_drive(dir))
    &&& dir.last() == '.' && dir.len() > 1 ==> !is_separator(dir[dir.len() - 2]) && dir[dir.len()
        - 2] != ':'
}

/// `name` can be the file name of `path`. There is just one for a file in a directory and for a
/// name alone; with a drive or a backslash there is one for each way to read the path.
pub open spec fn can_be_file_name(path: Seq<char>, name: Option<Seq<char>>) -> bool {
    &&& has_no_name(path) ==> name is None
    &&& forall|n: Seq<char>, end: Seq<char>| #[trigger]
        is_file_alone(path, n, end) && !has_drive(path) ==> name == Some(n)
    &&& forall|n: Seq<char>, end: Seq<char>| #[trigger]
        is_file_alone(path, n, end) && has_drive(path) && is_name(n.skip(2)) ==> name == Some(n)
            || name == Some(n.skip(2))
    &&& forall|dir: Seq<char>, n: Seq<char>, end: Seq<char>| #[trigger]
        is_file_in(path, dir, n, end) ==> name == Some(n)
    &&& forall|dir: Seq<char>, n: Seq<char>, end: Seq<char>| #[trigger]
        is_file_behind_backslash(path, dir, n, end) ==> {
            ||| name == Some(n)
            ||| name is Some && is_behind_last_slash(dir + seq!['\\'] + n, name->Some_0)
        }
}

/// `parent` can be the directory of `path`. There is just one for a file in a directory that is
/// written in full or in the root, and for a name alone, whose directory is empty; with a
/// backslash there is one for each way to read the path.
pub open spec fn can_be_parent(path: Seq<char>, parent: Option<Seq<char>>) -> bool {
    &&& path.len() == 0 || path == seq!['/'] ==> parent is None
    &&& forall|n: Seq<char>, end: Seq<char>| #[trigger]
        is_file_alone(path, n, end) && !has_drive(path) ==> parent == Some(Seq::<char>::empty())
    &&& forall|dir: Seq<char>, n: Seq<char>, end: Seq<char>| #[trigger]
        is_file_in(path, dir, n, end) ==> is_dir_of_file(dir, parent)
    &&& forall|dir: Seq<char>, n: Seq<char>, end: Seq<char>| #[trigger]
        is_file_behind_backslash(path, dir, n, end) && is_plain_dir(dir) ==> {
            ||| parent == Some(dir)
            ||| is_slash_parent(dir + seq!['\\'] + n, parent)
        }
}

/// `parent` can be the directory of a file in `dir`: `dir` itself if it is written in full, and the
/// root if it is empty.
pub open spec fn is_dir_of_file(dir: Seq<char>, parent: Option<Seq<char>>) -> bool {
    &&& is_plain_dir(dir) ==> parent == Some(dir)
    &&& dir.len() == 0 ==> parent == Some(seq!['/'])
}

/// `parent` can be the directory of `path` where only slashes separate the parts of a path.
pub open spec fn is_slash_parent(path: Seq<char>, parent: Option<Seq<char>>) -> bool {
    &&& !path.contains('/') ==> parent == Some(Seq::<char>::empty())
    &&& forall|k: int| #[trigger] is_last_slash(path, k) ==> is_dir_of_file(path.take(k), parent)
}

/// The text of a string that may be missing.
pub open spec fn optional_text(s: Option<String>) -> Option<Seq<char>> {
    match s {
        Some(text) => Some(text@),
        None => None,
    }
}

/// `std::path::Path::file_name`: the last part of the path, if it is the name of a file. It is the
/// name at the end of the path, behind a slash or alone, whatever slashes follow; there is none
/// behind the root or where the path ends with a step to a parent directory. Where it depends on
/// the system whether a backslash or a drive separates the name from the rest, it is one of the
/// two. What it gives for a path that begins like a share or a device is not said here.
#[verifier::external_body]
pub(crate) fn file_name(path: &str) -> (r: Option<String>)
    ensures
        can_be_file_name(path@, optional_text(r)),
{
    match std::path::Path::new(path).file_name() {
        Some(name) => Some(name.to_string_lossy().into_owned()),
        None => None,
    }
}

/// `std::path::Path::parent`: the path without its last part, if it has one. It is what stands
/// before the slash in front of a name at the end, the root if that is the first character, and
/// empty for a name alone. Where it depends on the system whether a backslash separates the name
/// from the rest, it is one of the two. What it gives for a path that begins like a share, a
/// device or a drive alone, or whose directory ends with a separator or a single dot, is not said
/// here.
#[verifier::external_body]
pub(crate) fn parent(path: &str) -> (r: Option<String>)
    ensures
        can_be_parent(path@, optional_text(r)),
{
    match std::path::Path::new(path).parent() {
        Some(dir) => Some(dir.to_string_lossy().into_owned()),
        None => None,
    }
}

/// The file name and the directory of a path are those that it was put together from.
pub proof fn law_path_comes_apart(
    path: Seq<char>,
    dir: Seq<char>,
    name: Seq<char>,
    end: Seq<char>,
    found_name: Option<Seq<char>>,
    found_dir: Option<Seq<char>>,
)
    requires
        is_file_in(path, dir, name, end),
        can_be_file_name(path, found_name),
        can_be_parent(path, found_dir),
    ensures
        found_name == Some(name),
        is_plain_dir(dir) ==> found_dir == Some(dir),
        dir.len() == 0 ==> found_dir == Some(seq!['/']),
{
}

} // verus!
