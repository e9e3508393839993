//! Path handling shared by the adapters: the empty listing path denotes
//! the root, and a child's absolute path is derived by joining the
//! parent listing path with the child's name.

use vstd::prelude::*;

verus! {

/// What a listing path means: the empty path denotes the root "/".
pub open spec fn normalized_path(p: Seq<char>) -> Seq<char> {
    if p.len() == 0 {
        "/"@
    } else {
        p
    }
}

/// The parent path with every trailing '/' removed.
pub open spec fn trim_trailing_slashes(p: Seq<char>) -> Seq<char>
    decreases p.len(),
{
    if p.len() > 0 && p[p.len() - 1] == '/' {
        trim_trailing_slashes(p.drop_last())
    } else {
        p
    }
}

/// The path with every leading '/' removed.
pub open spec fn trim_leading_slashes(p: Seq<char>) -> Seq<char>
    decreases p.len(),
{
    if p.len() > 0 && p[0] == '/' {
        trim_leading_slashes(p.drop_first())
    } else {
        p
    }
}

/// A child's absolute path: the parent without trailing slashes, one
/// '/', then the child's name.
pub open spec fn joined_child(parent: Seq<char>, name: Seq<char>) -> Seq<char> {
    trim_trailing_slashes(parent) + seq!['/'] + name
}

/// Law: the empty listing path and "/" denote the same root.
pub proof fn lemma_root_equivalence()
    ensures
        normalized_path(""@) == normalized_path("/"@),
{
    reveal_strlit("");
    reveal_strlit("/");
}

/// Law: joining a child onto the root "/" and onto the empty path give
/// the same absolute path.
pub proof fn lemma_join_root(name: Seq<char>)
    ensures
        joined_child("/"@, name) == joined_child(""@, name),
        joined_child("/"@, name) == seq!['/'] + name,
{
    reveal_strlit("");
    reveal_strlit("/");
    assert("/"@.drop_last() =~= ""@);
    assert(trim_trailing_slashes(""@) == ""@);
    assert(trim_trailing_slashes("/"@) == trim_trailing_slashes("/"@.drop_last()));
    assert(trim_trailing_slashes("/"@) + seq!['/'] + name =~= seq!['/'] + name);
    assert(trim_trailing_slashes(""@) + seq!['/'] + name =~= seq!['/'] + name);
}

/// Turns a listing path into the path actually listed: "" becomes "/".
pub fn normalize_list_path(path: &str) -> (r: String)
    ensures
        r@ == normalized_path(path@),
        r@.len() > 0,
{
    if path.is_empty() {
        proof {
            reveal_strlit("/");
        }
        String::from_str("/")
    } else {
        path.to_owned()
    }
}

/// The index just past the last character that is not a trailing '/'.
fn trailing_cut(parent: &str) -> (cut: usize)
    ensures
        cut <= parent@.len(),
        trim_trailing_slashes(parent@) == parent@.subrange(0, cut as int),
{
    let n = parent.unicode_len();
    let mut cut = n;
    proof {
        assert(parent@.subrange(0, n as int) =~= parent@);
    }
    while cut > 0 && parent.get_char(cut - 1) == '/'
        invariant
            cut <= n,
            n == parent@.len(),
            trim_trailing_slashes(parent@) == trim_trailing_slashes(
                parent@.subrange(0, cut as int),
            ),
        decreases cut,
    {
        proof {
            assert(parent@.subrange(0, cut as int).drop_last() =~= parent@.subrange(
                0,
                cut - 1,
            ));
        }
        cut = cut - 1;
    }
    proof {
        let pre = parent@.subrange(0, cut as int);
        if cut > 0 {
            assert(pre[pre.len() - 1] == parent@[cut - 1]);
            assert(trim_trailing_slashes(pre) == pre);
        } else {
            assert(pre.len() == 0);
        }
    }
    cut
}

/// Joins a parent listing path and a child name into the child's
/// absolute path, exactly as every adapter derives it.
pub fn join_child_path(parent: &str, name: &str) -> (r: String)
    ensures
        r@ == joined_child(parent@, name@),
{
    let cut = trailing_cut(parent);
    let head = parent.substring_char(0, cut);
    let mut r = String::from_str(head);
    r.append("/");
    r.append(name);
    proof {
        reveal_strlit("/");
        assert("/"@ =~= seq!['/']);
        assert(r@ =~= trim_trailing_slashes(parent@) + seq!['/'] + name@);
    }
    r
}

/// Strips every trailing '/' from a path.
pub fn strip_trailing_slashes(path: &str) -> (r: String)
    ensures
        r@ == trim_trailing_slashes(path@),
{
    let cut = trailing_cut(path);
    let head = path.substring_char(0, cut);
    head.to_owned()
}

/// The index of the first character that is not a leading '/'.
fn leading_cut(path: &str) -> (cut: usize)
    ensures
        cut <= path@.len(),
        trim_leading_slashes(path@) == path@.subrange(cut as int, path@.len() as int),
{
    let n = path.unicode_len();
    let mut cut: usize = 0;
    proof {
        assert(path@.subrange(0, n as int) =~= path@);
    }
    while cut < n && path.get_char(cut) == '/'
        invariant
            cut <= n,
            n == path@.len(),
            trim_leading_slashes(path@) == trim_leading_slashes(
                path@.subrange(cut as int, n as int),
            ),
        decreases n - cut,
    {
        proof {
            assert(path@.subrange(cut as int, n as int).drop_first() =~= path@.subrange(
                cut + 1,
                n as int,
            ));
        }
        cut = cut + 1;
    }
    proof {
        let rest = path@.subrange(cut as int, n as int);
        if cut < n {
            assert(rest[0] == path@[cut as int]);
            assert(trim_leading_slashes(rest) == rest);
        } else {
            assert(rest.len() == 0);
        }
    }
    cut
}

/// Strips every leading '/' from a remote path, leaving the part
/// relative to a mount point.
pub fn strip_leading_slashes(path: &str) -> (r: String)
    ensures
        r@ == trim_leading_slashes(path@),
{
    let n = path.unicode_len();
    let cut = leading_cut(path);
    let tail = path.substring_char(cut, n);
    tail.to_owned()
}

} // verus!
