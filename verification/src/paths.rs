//! Paths as text, with `/` between their components, and how one is put
//! under a directory.

use vstd::prelude::*;
use vstd::string::*;

verus! {

/// Whether a path starts at the root.
pub open spec fn is_absolute(path: Seq<char>) -> bool {
    path.len() > 0 && path[0] == '/'
}

/// A path joined to a directory, as `std::path::Path::join` joins them where
/// `/` separates components: a path that starts at the root stands for
/// itself; any other follows the directory, after a `/` unless the directory
/// is empty or ends in one.
pub open spec fn joined_path(dir: Seq<char>, path: Seq<char>) -> Seq<char> {
    if is_absolute(path) {
        path
    } else if dir.len() == 0 || dir.last() == '/' {
        dir + path
    } else {
        dir + seq!['/'] + path
    }
}

/// Joins a path to a directory.
pub fn join_path(dir: &str, path: &str) -> (r: String)
    ensures
        r@ == joined_path(dir@, path@),
{
    let n: usize = path.unicode_len();
    if n > 0 && path.get_char(0) == '/' {
        return String::from_str(path);
    }
    let m: usize = dir.unicode_len();
    let mut joined = String::from_str(dir);
    if m > 0 && dir.get_char(m - 1) != '/' {
        proof {
            reveal_strlit("/");
            assert("/"@ =~= seq!['/']);
        }
        joined.append("/");
    }
    joined.append(path);
    joined
}

/// A path that does not start at the root, joined to a directory that has a
/// name and does not end in `/`, is the directory, a `/` and the path.
pub proof fn relative_path_goes_under_the_directory(dir: Seq<char>, path: Seq<char>)
    requires
        !is_absolute(path),
        dir.len() > 0,
        dir.last() != '/',
    ensures
        joined_path(dir, path) == dir + seq!['/'] + path,
{
}

/// Whatever is joined to a directory that starts at the root starts at the
/// root itself, and joining it to that directory once more changes nothing.
pub proof fn joining_again_changes_nothing(dir: Seq<char>, path: Seq<char>)
    requires
        is_absolute(dir),
    ensures
        is_absolute(joined_path(dir, path)),
        joined_path(dir, joined_path(dir, path)) == joined_path(dir, path),
{
}

} // verus!
