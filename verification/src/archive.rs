//! The archive-export pipeline's decision core. Exporting stages the
//! remote tree into a private local directory and then hands the
//! staged tree to a compressor: this module parses the requested
//! format, derives the staging name from the remote path, and plans
//! the depth-first mirror of a remote directory one listing at a
//! time. Running the downloads, the local filesystem work and the
//! compressor is the caller's business; the export aborts on the
//! first failure anywhere in the subtree.

use vstd::prelude::*;

use crate::entry::FileEntry;
use crate::errors::{adapter_err, prefixed, stage_err};
use crate::paths::{joined_child, join_child_path, strip_trailing_slashes, trim_trailing_slashes};

verus! {

/// The four archive formats the export supports.
#[derive(Debug, Clone, Copy, PartialEq, Eq, Structural)]
pub enum ArchiveFormat {
    Zip,
    Tar,
    TarGz,
    TarBz2,
}

/// Parses the requested archive format: exactly "zip", "tar",
/// "tar.gz" or "tar.bz2"; anything else is the unsupported-format
/// failure.
pub fn parse_format(format: &str) -> (r: Result<ArchiveFormat, String>)
    ensures
        r == Result::<ArchiveFormat, String>::Ok(ArchiveFormat::Zip) <==> format@ == "zip"@,
        r == Result::<ArchiveFormat, String>::Ok(ArchiveFormat::Tar) <==> format@ == "tar"@,
        r == Result::<ArchiveFormat, String>::Ok(ArchiveFormat::TarGz) <==> format@ == "tar.gz"@,
        r == Result::<ArchiveFormat, String>::Ok(ArchiveFormat::TarBz2) <==> format@
            == "tar.bz2"@,
        r is Err ==> prefixed(r->Err_0@, "Unsupported format: "@) && adapter_err(r->Err_0@),
{
    proof {
        reveal_strlit("Unsupported format: ");
        reveal_strlit("zip");
        reveal_strlit("tar");
        reveal_strlit("tar.gz");
        reveal_strlit("tar.bz2");
        assert("zip"@.len() == 3 && "tar"@.len() == 3 && "tar.gz"@.len() == 6 && "tar.bz2"@.len()
            == 7);
        assert("zip"@[0] == 'z' && "tar"@[0] == 't');
        assert("zip"@ != "tar"@ && "zip"@ != "tar.gz"@ && "zip"@ != "tar.bz2"@);
        assert("tar"@ != "tar.gz"@ && "tar"@ != "tar.bz2"@ && "tar.gz"@ != "tar.bz2"@);
    }
    let owned = format.to_owned();
    if owned == String::from_str("zip") {
        Result::Ok(ArchiveFormat::Zip)
    } else if owned == String::from_str("tar") {
        Result::Ok(ArchiveFormat::Tar)
    } else if owned == String::from_str("tar.gz") {
        Result::Ok(ArchiveFormat::TarGz)
    } else if owned == String::from_str("tar.bz2") {
        Result::Ok(ArchiveFormat::TarBz2)
    } else {
        Result::Err(stage_err("Unsupported format: ", owned))
    }
}

/// The characters after the last '/' of a path that does not end in
/// '/': the leaf the staging area is named after.
pub open spec fn leaf_of(s: Seq<char>) -> Seq<char>
    decreases s.len(),
{
    if s.len() == 0 {
        s
    } else if s[s.len() - 1] == '/' {
        Seq::<char>::empty()
    } else {
        leaf_of(s.drop_last()).push(s[s.len() - 1])
    }
}

/// The name the staged copy of the remote path gets: the path's leaf
/// component, or "file" when the path has none.
pub open spec fn staged_name(p: Seq<char>) -> Seq<char> {
    let leaf = leaf_of(trim_trailing_slashes(p));
    if leaf.len() == 0 {
        "file"@
    } else {
        leaf
    }
}

fn leaf_of_exec(s: &str) -> (r: String)
    ensures
        r@ == leaf_of(s@),
    decreases s@.len(),
{
    let n = s.unicode_len();
    if n == 0 {
        String::new()
    } else {
        let c = s.get_char(n - 1);
        if c == '/' {
            String::new()
        } else {
            let head = s.substring_char(0, n - 1);
            proof {
                assert(head@ =~= s@.drop_last());
            }
            let mut r = leaf_of_exec(head);
            r.append(s.substring_char(n - 1, n));
            proof {
                assert(r@ =~= leaf_of(s@.drop_last()).push(s@[s@.len() - 1]));
            }
            r
        }
    }
}

/// Derives the staging name for a remote path: its leaf component,
/// or "file" when the path has none.
pub fn staged_file_name(path: &str) -> (r: String)
    ensures
        r@ == staged_name(path@),
{
    let trimmed = strip_trailing_slashes(path);
    let leaf = leaf_of_exec(trimmed.as_str());
    if leaf.as_str().is_empty() {
        proof {
            reveal_strlit("file");
        }
        String::from_str("file")
    } else {
        leaf
    }
}

/// One step of the depth-first mirror of a remote tree into the
/// staging area.
pub enum MirrorStep {
    /// Create the local directory, then list the remote directory and
    /// expand its entries the same way.
    EnterDir { remote: String, local: String },
    /// Download the remote file into the local path.
    CopyFile { remote: String, local: String },
}

/// How one listing entry maps to its mirror step under a local base
/// directory.
pub open spec fn mirror_step_for(base: Seq<char>, e: FileEntry, s: MirrorStep) -> bool {
    if e.is_directory {
        s matches MirrorStep::EnterDir { remote, local } && remote@ == e.path@ && local@
            == joined_child(base, e.name@)
    } else {
        s matches MirrorStep::CopyFile { remote, local } && remote@ == e.path@ && local@
            == joined_child(base, e.name@)
    }
}

/// Plans one level of the recursive mirror: for every listed entry,
/// in listing order, the directory to enter or the file to download,
/// each landing beside the others under the local base directory.
pub fn mirror_steps(local_base: &str, entries: &Vec<FileEntry>) -> (r: Vec<MirrorStep>)
    ensures
        r@.len() == entries@.len(),
        forall|k: int|
            0 <= k < entries@.len() ==> mirror_step_for(
                local_base@,
                entries@[k],
                #[trigger] r@[k],
            ),
{
    let n = entries.len();
    let mut r: Vec<MirrorStep> = Vec::new();
    let mut i: usize = 0;
    while i < n
        invariant
            n == entries@.len(),
            i <= n,
            r@.len() == i,
            forall|k: int|
                0 <= k < i ==> mirror_step_for(local_base@, entries@[k], #[trigger] r@[k]),
        decreases n - i,
    {
        let local = join_child_path(local_base, entries[i].name.as_str());
        let remote = entries[i].path.clone();
        let step = if entries[i].is_directory {
            MirrorStep::EnterDir { remote, local }
        } else {
            MirrorStep::CopyFile { remote, local }
        };
        r.push(step);
        i = i + 1;
    }
    r
}

} // verus!
