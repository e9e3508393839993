//! The SMB adapter. SMB access works by mounting the remote share on a
//! deterministic local mount point (derived from host and share) and
//! treating every operation as a local-filesystem operation under it.
//! Running the mount command and touching the filesystem is the
//! caller's business; everything that derives paths, URLs and listing
//! entries is verified here.

use vstd::prelude::*;

use crate::entry::{
    sort_entries, sorted_entries, lemma_permutation_membership, FileEntry,
};
use crate::errors::{adapter_err, stage_err};
use crate::paths::{
    joined_child, join_child_path, strip_leading_slashes, trim_leading_slashes,
};
use crate::times::{format_minute_stamp, minute_stamp_of};

verus! {

/// What urlencoding::encode produces: every byte percent-encoded
/// except ASCII alphanumerics and '-', '_', '.', '~'. A function of
/// the input alone.
pub uninterp spec fn url_encoded(s: Seq<char>) -> Seq<char>;

/// Relies on urlencoding::encode: percent-encodes every byte except
/// ASCII alphanumerics and '-', '_', '.', '~', from the input alone.
#[verifier::external_body]
fn encode_component(s: &str) -> (r: String)
    ensures
        r@ == url_encoded(s@),
{
    urlencoding::encode(s).into_owned()
}

/// The host with every '.' replaced by '_', as used in the mount
/// point's name.
pub open spec fn underscored(h: Seq<char>) -> Seq<char> {
    h.map_values(
        |c: char|
            if c == '.' {
                '_'
            } else {
                c
            },
    )
}

/// The deterministic local mount point for one host and share.
pub open spec fn mount_point_spec(host: Seq<char>, share: Seq<char>) -> Seq<char> {
    "/tmp/easyftp_smb_"@ + underscored(host) + "_"@ + share
}

/// The mount target URL handed to the mount command, with the
/// credentials URL-encoded into it.
pub open spec fn smb_url_spec(
    username: Seq<char>,
    password: Seq<char>,
    host: Seq<char>,
    share: Seq<char>,
) -> Seq<char> {
    "//"@ + url_encoded(username) + ":"@ + url_encoded(password) + "@"@ + host + "/"@ + share
}

/// The local path an operation on `remote_path` works on: the mount
/// point itself for the root, else the mount point joined with the
/// path relative to it.
pub open spec fn smb_local_path(mount_point: Seq<char>, remote_path: Seq<char>) -> Seq<char> {
    let clean = trim_leading_slashes(remote_path);
    if clean.len() == 0 {
        mount_point
    } else {
        mount_point + seq!['/'] + clean
    }
}

fn replace_dots(host: &str) -> (r: String)
    ensures
        r@ == underscored(host@),
{
    let n = host.unicode_len();
    let mut r = String::new();
    proof {
        assert(r@ =~= underscored(host@.take(0)));
    }
    let mut i: usize = 0;
    while i < n
        invariant
            n == host@.len(),
            i <= n,
            r@ == underscored(host@.take(i as int)),
        decreases n - i,
    {
        let c = host.get_char(i);
        if c == '.' {
            r.append("_");
            proof {
                reveal_strlit("_");
            }
        } else {
            let piece = host.substring_char(i, i + 1);
            r.append(piece);
        }
        proof {
            assert(r@ =~= underscored(host@.take(i + 1)));
        }
        i = i + 1;
    }
    proof {
        assert(host@.take(n as int) =~= host@);
    }
    r
}

/// What the caller needs to mount a share: the mount point to create
/// and the URL to hand to the mount command. On a non-zero mount exit
/// the caller must remove the mount point again and report the
/// command's error text.
pub struct MountRequest {
    pub mount_point: String,
    pub url: String,
}

/// Derives the mount point and the credentials URL for one share.
pub fn prepare_mount(host: &str, username: &str, password: &str, share: &str) -> (r: MountRequest)
    ensures
        r.mount_point@ == mount_point_spec(host@, share@),
        r.url@ == smb_url_spec(username@, password@, host@, share@),
{
    let replaced = replace_dots(host);
    let mut mp = String::from_str("/tmp/easyftp_smb_");
    mp.append(replaced.as_str());
    mp.append("_");
    mp.append(share);
    let mut url = String::from_str("//");
    url.append(encode_component(username).as_str());
    url.append(":");
    url.append(encode_component(password).as_str());
    url.append("@");
    url.append(host);
    url.append("/");
    url.append(share);
    MountRequest { mount_point: mp, url }
}

/// Decides what the mount command's exit means: success yields the
/// adapter for the mounted share; failure yields the prepared mount
/// point, which the caller must remove again so no dangling directory
/// is left, together with the failure report carrying the command's
/// error text.
pub fn mount_outcome(
    host: &str,
    share: &str,
    request: MountRequest,
    exit_ok: bool,
    stderr: String,
) -> (r: Result<SmbConnection, (String, String)>)
    ensures
        r is Ok <==> exit_ok,
        r is Ok ==> r->Ok_0.host@ == host@ && r->Ok_0.share@ == share@
            && r->Ok_0.mount_point@ == request.mount_point@,
        r is Err ==> r->Err_0.0@ == request.mount_point@ && r->Err_0.1@
            == "SMB mount failed: "@ + stderr@ && adapter_err(r->Err_0.1@),
{
    if exit_ok {
        Result::Ok(
            SmbConnection {
                mount_point: request.mount_point,
                host: host.to_owned(),
                share: share.to_owned(),
            },
        )
    } else {
        proof {
            reveal_strlit("SMB mount failed: ");
        }
        let message = stage_err("SMB mount failed: ", stderr);
        Result::Err((request.mount_point, message))
    }
}

/// A mounted SMB share: every operation translates a remote path to a
/// local one under the mount point.
pub struct SmbConnection {
    pub mount_point: String,
    pub host: String,
    pub share: String,
}

impl SmbConnection {
    /// Builds the adapter once the caller's mount command has mounted
    /// the share at the prepared mount point.
    pub fn after_mount(host: String, share: String, mount_point: String) -> (c: SmbConnection)
        ensures
            c.host@ == host@,
            c.share@ == share@,
            c.mount_point@ == mount_point@,
    {
        SmbConnection { mount_point, host, share }
    }

    /// Translates a remote path into the local path under the mount
    /// point that the operation actually touches.
    pub fn get_local_path(&self, remote_path: &str) -> (r: String)
        ensures
            r@ == smb_local_path(self.mount_point@, remote_path@),
    {
        let clean = strip_leading_slashes(remote_path);
        if clean.as_str().is_empty() {
            self.mount_point.clone()
        } else {
            let mut r = self.mount_point.clone();
            r.append("/");
            r.append(clean.as_str());
            proof {
                reveal_strlit("/");
                assert("/"@ =~= seq!['/']);
                assert(r@ =~= smb_local_path(self.mount_point@, remote_path@));
            }
            r
        }
    }
}

/// What the caller reads from one directory entry under the mount
/// point: the leaf name, whether it is a directory, its byte size,
/// and its modification time as Unix epoch seconds when available.
pub struct LocalEntryInfo {
    pub name: String,
    pub is_directory: bool,
    pub size: u64,
    pub modified_secs: Option<i64>,
}

/// Hidden-entry policy of the SMB adapter: names with a leading dot
/// are dropped from listings.
pub open spec fn smb_keeps(x: LocalEntryInfo) -> bool {
    x.name@.len() == 0 || x.name@[0] != '.'
}

/// How one listing entry reflects one raw directory entry.
pub open spec fn smb_entry_matches(listing: Seq<char>, x: LocalEntryInfo, e: FileEntry) -> bool {
    &&& e.name@ == x.name@
    &&& e.path@ == joined_child(listing, x.name@)
    &&& e.is_directory == x.is_directory
    &&& e.size == x.size
    &&& e.modified@ == (match x.modified_secs {
        Option::Some(t) => minute_stamp_of(t),
        Option::None => Seq::<char>::empty(),
    })
    &&& e.permissions is None
}

/// How many raw entries the hidden-entry policy keeps.
pub open spec fn smb_kept_count(raw: Seq<LocalEntryInfo>) -> nat {
    raw.filter(|x: LocalEntryInfo| smb_keeps(x)).len()
}

/// The entry stands for some kept raw directory entry of the listing.
pub open spec fn from_local_listing(
    listing: Seq<char>,
    raw: Seq<LocalEntryInfo>,
    e: FileEntry,
) -> bool {
    exists|j: int|
        0 <= j < raw.len() && smb_keeps(raw[j]) && smb_entry_matches(listing, raw[j], e)
}

/// Every kept raw entry is represented in the listing.
pub open spec fn listing_covers(
    listing: Seq<char>,
    raw: Seq<LocalEntryInfo>,
    out: Seq<FileEntry>,
) -> bool {
    forall|j: int|
        0 <= j < raw.len() && smb_keeps(#[trigger] raw[j]) ==> exists|k: int|
            0 <= k < out.len() && smb_entry_matches(listing, raw[j], #[trigger] out[k])
}

/// Turns the raw directory entries read under the mount point into
/// the listing for `path`: dot-named entries dropped, each path
/// derived from the listing path and the name, the whole ordered by
/// the shared listing policy.
pub fn smb_entries(path: &str, raw: Vec<LocalEntryInfo>) -> (r: Vec<FileEntry>)
    ensures
        sorted_entries(r@),
        r@.len() == smb_kept_count(raw@),
        forall|k: int| 0 <= k < r@.len() ==> from_local_listing(path@, raw@, r@[k]),
        listing_covers(path@, raw@, r@),
{
    let ghost orig = raw@;
    let n = raw.len();
    let mut v = raw;
    let mut pre: Vec<FileEntry> = Vec::new();
    proof {
        reveal(Seq::filter);
        assert(orig.take(0) =~= Seq::<LocalEntryInfo>::empty());
    }
    let mut i: usize = 0;
    while v.len() > 0
        invariant
            n == orig.len(),
            orig.len() == i + v@.len(),
            v@ == orig.skip(i as int),
            pre@.len() == smb_kept_count(orig.take(i as int)),
            forall|k: int| 0 <= k < pre@.len() ==> from_local_listing(path@, orig, pre@[k]),
            listing_covers(path@, orig.take(i as int), pre@),
        decreases v@.len(),
    {
        let ghost before_push = pre@;
        let x = v.remove(0);
        proof {
            assert(x == orig[i as int]);
            assert(orig.skip(i as int).drop_first() =~= orig.skip(i + 1));
        }
        let name_len = x.name.as_str().unicode_len();
        let keep = if name_len == 0 {
            true
        } else {
            x.name.as_str().get_char(0) != '.'
        };
        proof {
            assert(keep == smb_keeps(orig[i as int]));
        }
        if keep {
            let p = join_child_path(path, x.name.as_str());
            let modified = match x.modified_secs {
                Option::Some(t) => format_minute_stamp(t),
                Option::None => String::new(),
            };
            let e = FileEntry {
                name: x.name,
                path: p,
                is_directory: x.is_directory,
                size: x.size,
                modified,
                permissions: Option::None,
            };
            proof {
                assert(smb_entry_matches(path@, orig[i as int], e));
                assert(from_local_listing(path@, orig, e));
            }
            pre.push(e);
        }
        proof {
            reveal(Seq::filter);
            let stepped = orig.take(i + 1);
            let keepf = |x: LocalEntryInfo| smb_keeps(x);
            assert(stepped.drop_last() =~= orig.take(i as int));
            assert(stepped.last() == orig[i as int]);
            if keep {
                assert(stepped.filter(keepf) == stepped.drop_last().filter(keepf).push(
                    stepped.last(),
                ));
            } else {
                assert(stepped.filter(keepf) == stepped.drop_last().filter(keepf));
            }
            assert(smb_kept_count(stepped) == pre@.len());
        }
        proof {
            let prefix = orig.take(i as int);
            let stepped = orig.take(i + 1);
            assert forall|j: int|
                0 <= j < stepped.len() && smb_keeps(#[trigger] stepped[j]) implies exists|k: int|
                0 <= k < pre@.len() && smb_entry_matches(path@, stepped[j], #[trigger] pre@[k]) by {
                assert(stepped[j] == orig[j]);
                if j < i {
                    assert(prefix[j] == orig[j]);
                    let k0 = choose|k0: int|
                        0 <= k0 < before_push.len() && smb_entry_matches(
                            path@,
                            prefix[j],
                            before_push[k0],
                        );
                    assert(pre@[k0] == before_push[k0]);
                    assert(smb_entry_matches(path@, stepped[j], pre@[k0]));
                } else {
                    assert(smb_entry_matches(path@, orig[i as int], pre@[pre@.len() - 1]));
                }
            }
        }
        i = i + 1;
    }
    proof {
        assert(orig.take(i as int) =~= orig);
    }
    let r = sort_entries(pre);
    proof {
        lemma_permutation_membership(pre@, r@);
        assert forall|k: int| 0 <= k < r@.len() implies from_local_listing(
            path@,
            orig,
            r@[k],
        ) by {
            assert(pre@.contains(r@[k]));
            let idx = choose|idx: int| 0 <= idx < pre@.len() && pre@[idx] == r@[k];
            assert(from_local_listing(path@, orig, pre@[idx]));
        }
        assert forall|j: int|
            0 <= j < orig.len() && smb_keeps(#[trigger] orig[j]) implies exists|k: int|
            0 <= k < r@.len() && smb_entry_matches(path@, orig[j], #[trigger] r@[k]) by {
            let k0 = choose|k0: int|
                0 <= k0 < pre@.len() && smb_entry_matches(path@, orig[j], pre@[k0]);
            assert(r@.contains(pre@[k0]));
            let k = choose|k: int| 0 <= k < r@.len() && r@[k] == pre@[k0];
            assert(smb_entry_matches(path@, orig[j], r@[k]));
        }
    }
    r
}

} // verus!
