//! Path and file-name forms used throughout a build: in-archive names,
//! destination paths, and bundle member names.

use vstd::prelude::*;

verus! {

/// The in-archive name of an installed file: the absolute path with
/// exactly one leading separator removed. Archive containers must never
/// store absolute paths.
pub open spec fn strip_root(path: Seq<char>) -> Seq<char> {
    if path.len() > 0 && path[0] == '/' {
        path.subrange(1, path.len() as int)
    } else {
        path
    }
}

/// `dir` and `name` joined with a single separator.
pub open spec fn joined(dir: Seq<char>, name: Seq<char>) -> Seq<char> {
    dir + seq!['/'] + name
}

/// The extension appended to a package's canonical name to form its
/// standalone archive's file name.
pub open spec fn deb_suffix() -> Seq<char> {
    seq!['.', 'd', 'e', 'b']
}

/// The current-directory marker prefixed to a member's file name when it
/// is folded into a shared bundle, so that extraction reproduces a flat
/// layout.
pub open spec fn member_prefix() -> Seq<char> {
    seq!['.', '/']
}

/// Strips exactly one leading separator from an installed file's absolute
/// path, yielding the name it is archived under.
pub fn in_archive_name(path: &str) -> (r: String)
    ensures
        r@ == strip_root(path@),
{
    let n = path.unicode_len();
    if n > 0 && path.get_char(0) == '/' {
        String::from_str(path.substring_char(1, n))
    } else {
        String::from_str(path)
    }
}

/// Joins a directory path and an entry name with a single separator.
pub fn join_path(dir: &str, name: &str) -> (r: String)
    ensures
        r@ == joined(dir@, name@),
{
    let mut r = String::from_str(dir);
    r.append("/");
    r.append(name);
    proof {
        reveal_strlit("/");
        assert(r@ =~= joined(dir@, name@));
    }
    r
}

/// The file name of a package's standalone archive: its canonical name
/// with the archive extension appended.
pub fn deb_file_name(canonical_name: &str) -> (r: String)
    ensures
        r@ == canonical_name@ + deb_suffix(),
{
    let mut r = String::from_str(canonical_name);
    r.append(".deb");
    proof {
        reveal_strlit(".deb");
        assert(r@ =~= canonical_name@ + deb_suffix());
    }
    r
}

/// The name a standalone archive is stored under inside a shared bundle:
/// the current-directory marker followed by its file name.
pub fn bundle_member_name(file_name: &str) -> (r: String)
    ensures
        r@ == member_prefix() + file_name@,
{
    let mut r = String::from_str("./");
    r.append(file_name);
    proof {
        reveal_strlit("./");
        assert(r@ =~= member_prefix() + file_name@);
    }
    r
}

/// An in-archive name never begins with the path separator, provided the
/// installed path does not begin with a doubled separator.
pub proof fn lemma_in_archive_name_relative(path: Seq<char>)
    requires
        !(path.len() >= 2 && path[0] == '/' && path[1] == '/'),
    ensures
        strip_root(path).len() > 0 ==> strip_root(path)[0] != '/',
{
}

} // verus!
