//! The SFTP adapter. The subsystem supplies per-entry metadata, so
//! listings come straight from the remote stat structures: "." and
//! ".." are filtered out, epoch seconds become RFC 3339 text, and
//! permission bits are rendered octally. Authentication is two-phase
//! (handshake, then credentials) and reports which phase failed; a
//! credential exchange that leaves the session unauthenticated is its
//! own failure. The caller opens the TCP stream and hands in the
//! session; every transport call here goes through trusted wrappers.

use vstd::prelude::*;

use crate::entry::{
    sort_entries, sorted_entries, lemma_permutation_membership, FileEntry,
};
use crate::errors::{adapter_err, prefixed, stage_err};
use crate::ids::{radix_digits, to_radix_string};
use crate::paths::normalize_list_path;
use crate::times::{format_rfc3339, rfc3339_of};

verus! {

#[verifier::external_type_specification]
#[verifier::external_body]
pub struct ExSession(ssh2::Session);

#[verifier::external_type_specification]
#[verifier::external_body]
pub struct ExSftp(ssh2::Sftp);

#[verifier::external_type_specification]
#[verifier::external_body]
pub struct ExFile(ssh2::File);

/// Relies on ssh2's Session::handshake: performs the transport
/// handshake on the attached stream.
#[verifier::external_body]
fn session_handshake(s: &mut ssh2::Session) -> (r: Result<(), String>) {
    s.handshake().map_err(|e| e.to_string())
}

/// Relies on ssh2's Session::userauth_password: attempts credential
/// authentication.
#[verifier::external_body]
fn session_auth_password(s: &ssh2::Session, user: &str, pass: &str) -> (r: Result<(), String>) {
    s.userauth_password(user, pass).map_err(|e| e.to_string())
}

/// Relies on ssh2's Session::authenticated: whether the session is
/// authenticated.
#[verifier::external_body]
fn session_authenticated(s: &ssh2::Session) -> (r: bool) {
    s.authenticated()
}

/// Relies on ssh2's Session::sftp: starts the SFTP subsystem.
#[verifier::external_body]
fn session_sftp(s: &ssh2::Session) -> (r: Result<ssh2::Sftp, String>) {
    s.sftp().map_err(|e| e.to_string())
}

/// One raw remote directory entry, as the subsystem's stat reports
/// it: the full path, the leaf name when the path has one, and the
/// stat fields the listing uses.
pub struct RawSftpEntry {
    pub path: String,
    pub name: Option<String>,
    pub is_directory: bool,
    pub size: Option<u64>,
    pub mtime: Option<u64>,
    pub perm: Option<u32>,
}

/// Relies on ssh2's Sftp::readdir: the entries of the remote
/// directory, each converted to its path text, leaf name and stat
/// fields; what comes back depends on the server.
#[verifier::external_body]
fn sftp_readdir(s: &ssh2::Sftp, path: &str) -> (r: Result<Vec<RawSftpEntry>, String>) {
    match s.readdir(std::path::Path::new(path)) {
        Ok(list) => Ok(list.into_iter().map(|(pb, stat)| RawSftpEntry {
            path: pb.to_string_lossy().to_string(),
            name: pb.file_name().map(|n| n.to_string_lossy().to_string()),
            is_directory: stat.is_dir(),
            size: stat.size,
            mtime: stat.mtime,
            perm: stat.perm,
        }).collect()),
        Err(e) => Err(e.to_string()),
    }
}

/// Relies on ssh2's Sftp::open: opens the remote file for reading.
#[verifier::external_body]
fn sftp_open(s: &ssh2::Sftp, path: &str) -> (r: Result<ssh2::File, String>) {
    s.open(std::path::Path::new(path)).map_err(|e| e.to_string())
}

/// Relies on ssh2's Sftp::create: creates (or truncates) the remote
/// file for writing.
#[verifier::external_body]
fn sftp_create(s: &ssh2::Sftp, path: &str) -> (r: Result<ssh2::File, String>) {
    s.create(std::path::Path::new(path)).map_err(|e| e.to_string())
}

/// Relies on std::io::Read::read_to_end on ssh2's File: the remote
/// file's whole contents.
#[verifier::external_body]
fn file_read_to_end(f: &mut ssh2::File) -> (r: Result<Vec<u8>, String>) {
    let mut buffer = Vec::new();
    match std::io::Read::read_to_end(f, &mut buffer) {
        Ok(_) => Ok(buffer),
        Err(e) => Err(e.to_string()),
    }
}

/// Relies on std::io::Write::write_all on ssh2's File: writes the
/// whole buffer to the remote file.
#[verifier::external_body]
fn file_write_all(f: &mut ssh2::File, data: &[u8]) -> (r: Result<(), String>) {
    std::io::Write::write_all(f, data).map_err(|e| e.to_string())
}

/// Relies on ssh2's Sftp::unlink: removes the remote file.
#[verifier::external_body]
fn sftp_unlink(s: &ssh2::Sftp, path: &str) -> (r: Result<(), String>) {
    s.unlink(std::path::Path::new(path)).map_err(|e| e.to_string())
}

/// Relies on ssh2's Sftp::rmdir: removes the remote directory.
#[verifier::external_body]
fn sftp_rmdir(s: &ssh2::Sftp, path: &str) -> (r: Result<(), String>) {
    s.rmdir(std::path::Path::new(path)).map_err(|e| e.to_string())
}

/// Listing policy of the SFTP adapter: entries without a leaf name,
/// and the "." and ".." entries, are dropped.
pub open spec fn sftp_keeps(x: RawSftpEntry) -> bool {
    match x.name {
        Option::Some(n) => n@ != "."@ && n@ != ".."@,
        Option::None => false,
    }
}

/// How many raw entries the listing policy keeps.
pub open spec fn sftp_kept_count(raw: Seq<RawSftpEntry>) -> nat {
    raw.filter(|x: RawSftpEntry| sftp_keeps(x)).len()
}

/// How one listing entry reflects one raw remote entry: the stat
/// fields carried over, a missing size degrading to 0, the
/// modification time rendered as RFC 3339, the permission bits
/// rendered octally when present.
pub open spec fn sftp_entry_matches(x: RawSftpEntry, e: FileEntry) -> bool {
    &&& x.name is Some && e.name@ == x.name->0@
    &&& e.path@ == x.path@
    &&& e.is_directory == x.is_directory
    &&& e.size == (match x.size {
        Option::Some(n) => n,
        Option::None => 0u64,
    })
    &&& e.modified@ == (match x.mtime {
        Option::Some(t) => rfc3339_of(t as i64),
        Option::None => Seq::<char>::empty(),
    })
    &&& (match x.perm {
        Option::Some(p) => e.permissions is Some && e.permissions->0@ == radix_digits(
            p as nat,
            8,
        ),
        Option::None => e.permissions is None,
    })
}

/// The entry stands for some kept raw entry of the listing.
pub open spec fn from_sftp_listing(raw: Seq<RawSftpEntry>, e: FileEntry) -> bool {
    exists|j: int| 0 <= j < raw.len() && sftp_keeps(raw[j]) && sftp_entry_matches(raw[j], e)
}

/// The entry has the shape a kept remote stat produces: its name is
/// neither "." nor "..", and its fields reflect some stat structure
/// under the listing policy.
pub open spec fn sftp_shaped_entry(e: FileEntry) -> bool {
    exists|x: RawSftpEntry| sftp_keeps(x) && sftp_entry_matches(x, e)
}

/// Every kept raw entry is represented in the listing.
pub open spec fn sftp_listing_covers(raw: Seq<RawSftpEntry>, out: Seq<FileEntry>) -> bool {
    forall|j: int|
        0 <= j < raw.len() && sftp_keeps(#[trigger] raw[j]) ==> exists|k: int|
            0 <= k < out.len() && sftp_entry_matches(raw[j], #[trigger] out[k])
}

/// Turns the raw remote directory entries into the listing: entries
/// without a leaf name and the "." and ".." entries dropped, the stat
/// metadata carried over, the whole ordered by the shared listing
/// policy.
pub fn sftp_entries(raw: Vec<RawSftpEntry>) -> (r: Vec<FileEntry>)
    ensures
        sorted_entries(r@),
        r@.len() == sftp_kept_count(raw@),
        forall|k: int| 0 <= k < r@.len() ==> from_sftp_listing(raw@, #[trigger] r@[k]),
        sftp_listing_covers(raw@, r@),
{
    let ghost orig = raw@;
    let mut v = raw;
    let n = v.len();
    let mut pre: Vec<FileEntry> = Vec::new();
    proof {
        reveal(Seq::filter);
        assert(orig.take(0) =~= Seq::<RawSftpEntry>::empty());
    }
    let mut i: usize = 0;
    while v.len() > 0
        invariant
            n == orig.len(),
            orig.len() == i + v@.len(),
            v@ == orig.skip(i as int),
            pre@.len() == sftp_kept_count(orig.take(i as int)),
            forall|k: int| 0 <= k < pre@.len() ==> from_sftp_listing(orig, #[trigger] pre@[k]),
            sftp_listing_covers(orig.take(i as int), pre@),
        decreases v@.len(),
    {
        let ghost before_push = pre@;
        let x = v.remove(0);
        proof {
            assert(x == orig[i as int]);
            assert(orig.skip(i as int).drop_first() =~= orig.skip(i + 1));
        }
        let keep: bool = match &x.name {
            Option::Some(n) => !(*n == String::from_str(".")) && !(*n == String::from_str(
                "..",
            )),
            Option::None => false,
        };
        proof {
            assert(keep == sftp_keeps(orig[i as int]));
        }
        if keep {
            let name = match x.name {
                Option::Some(n) => n,
                Option::None => String::new(),
            };
            let size: u64 = match x.size {
                Option::Some(n) => n,
                Option::None => 0,
            };
            let modified = match x.mtime {
                Option::Some(t) => format_rfc3339(t as i64),
                Option::None => String::new(),
            };
            let permissions = match x.perm {
                Option::Some(p) => Option::Some(to_radix_string(p as u64, 8)),
                Option::None => Option::None,
            };
            let e = FileEntry {
                name,
                path: x.path,
                is_directory: x.is_directory,
                size,
                modified,
                permissions,
            };
            proof {
                assert(sftp_entry_matches(orig[i as int], e));
                assert(from_sftp_listing(orig, e));
            }
            pre.push(e);
        }
        proof {
            reveal(Seq::filter);
            let stepped = orig.take(i + 1);
            let keepf = |x: RawSftpEntry| sftp_keeps(x);
            assert(stepped.drop_last() =~= orig.take(i as int));
            assert(stepped.last() == orig[i as int]);
            if keep {
                assert(stepped.filter(keepf) == stepped.drop_last().filter(keepf).push(
                    stepped.last(),
                ));
            } else {
                assert(stepped.filter(keepf) == stepped.drop_last().filter(keepf));
            }
            assert(sftp_kept_count(stepped) == pre@.len());
        }
        proof {
            let prefix = orig.take(i as int);
            let stepped = orig.take(i + 1);
            assert forall|j: int|
                0 <= j < stepped.len() && sftp_keeps(#[trigger] stepped[j]) implies exists|k: int|
                0 <= k < pre@.len() && sftp_entry_matches(stepped[j], #[trigger] pre@[k]) by {
                assert(stepped[j] == orig[j]);
                if j < i {
                    assert(prefix[j] == orig[j]);
                    let k0 = choose|k0: int|
                        0 <= k0 < before_push.len() && sftp_entry_matches(
                            prefix[j],
                            before_push[k0],
                        );
                    assert(pre@[k0] == before_push[k0]);
                    assert(sftp_entry_matches(stepped[j], pre@[k0]));
                } else {
                    assert(sftp_entry_matches(orig[i as int], pre@[pre@.len() - 1]));
                }
            }
        }
        i = i + 1;
    }
    proof {
        assert(orig.take(i as int) =~= orig);
    }
    let r = sort_entries(pre);
    proof {
        lemma_permutation_membership(pre@, r@);
        assert forall|k: int| 0 <= k < r@.len() implies from_sftp_listing(
            orig,
            #[trigger] r@[k],
        ) by {
            assert(pre@.contains(r@[k]));
            let idx = choose|idx: int| 0 <= idx < pre@.len() && pre@[idx] == r@[k];
            assert(from_sftp_listing(orig, pre@[idx]));
        }
        assert forall|j: int|
            0 <= j < orig.len() && sftp_keeps(#[trigger] orig[j]) implies exists|k: int|
            0 <= k < r@.len() && sftp_entry_matches(orig[j], #[trigger] r@[k]) by {
            let k0 = choose|k0: int|
                0 <= k0 < pre@.len() && sftp_entry_matches(orig[j], pre@[k0]);
            assert(r@.contains(pre@[k0]));
            let k = choose|k: int| 0 <= k < r@.len() && r@[k] == pre@[k0];
            assert(sftp_entry_matches(orig[j], r@[k]));
        }
    }
    r
}

/// One SFTP session with its running subsystem. The session is held
/// alongside the subsystem so the transport lives as long as the
/// connection does.
pub struct SftpConnection {
    #[allow(dead_code)]
    session: ssh2::Session,
    sftp: ssh2::Sftp,
}

impl SftpConnection {
    /// Completes a connection on a session whose TCP stream the
    /// caller attached: transport handshake, credential
    /// authentication, the authenticated-state check, then the
    /// subsystem start; each stage fails distinctly.
    pub fn connect(session: ssh2::Session, username: &str, password: &str) -> (r: Result<
        SftpConnection,
        String,
    >)
        ensures
            r is Err ==> adapter_err(r->Err_0@),
            r is Err ==> prefixed(r->Err_0@, "SFTP handshake failed: "@) || prefixed(
                r->Err_0@,
                "SFTP auth failed: "@,
            ) || prefixed(r->Err_0@, "SFTP subsystem failed: "@),
    {
        proof {
            reveal_strlit("SFTP handshake failed: ");
            reveal_strlit("SFTP auth failed: ");
            reveal_strlit("SFTP subsystem failed: ");
        }
        let mut session = session;
        match session_handshake(&mut session) {
            Result::Ok(_) => {},
            Result::Err(e) => {
                return Result::Err(stage_err("SFTP handshake failed: ", e));
            },
        }
        match session_auth_password(&session, username, password) {
            Result::Ok(_) => {},
            Result::Err(e) => {
                return Result::Err(stage_err("SFTP auth failed: ", e));
            },
        }
        if !session_authenticated(&session) {
            return Result::Err(
                stage_err("SFTP auth failed: ", String::from_str("session not authenticated")),
            );
        }
        match session_sftp(&session) {
            Result::Ok(sftp) => Result::Ok(SftpConnection { session, sftp }),
            Result::Err(e) => Result::Err(stage_err("SFTP subsystem failed: ", e)),
        }
    }

    /// Lists the path (empty means the root): reads the remote
    /// directory and builds the listing with `sftp_entries`.
    pub fn list_files(&mut self, path: &str) -> (r: Result<Vec<FileEntry>, String>)
        ensures
            r is Err ==> adapter_err(r->Err_0@),
            r is Ok ==> sorted_entries(r->Ok_0@),
            r is Ok ==> forall|k: int|
                0 <= k < r->Ok_0@.len() ==> sftp_shaped_entry(#[trigger] r->Ok_0@[k]),
    {
        proof {
            reveal_strlit("SFTP list failed: ");
        }
        let norm = normalize_list_path(path);
        let raw = match sftp_readdir(&self.sftp, norm.as_str()) {
            Result::Ok(raw) => raw,
            Result::Err(e) => {
                return Result::Err(stage_err("SFTP list failed: ", e));
            },
        };
        let ghost orig = raw@;
        let r = sftp_entries(raw);
        proof {
            assert forall|k: int| 0 <= k < r@.len() implies sftp_shaped_entry(
                #[trigger] r@[k],
            ) by {
                assert(from_sftp_listing(orig, r@[k]));
                let j = choose|j: int|
                    0 <= j < orig.len() && sftp_keeps(orig[j]) && sftp_entry_matches(
                        orig[j],
                        r@[k],
                    );
                assert(sftp_keeps(orig[j]) && sftp_entry_matches(orig[j], r@[k]));
            }
        }
        Result::Ok(r)
    }

    /// Reads the whole remote file into one buffer.
    pub fn read_file(&mut self, remote_path: &str) -> (r: Result<Vec<u8>, String>)
        ensures
            r is Err ==> adapter_err(r->Err_0@),
    {
        proof {
            reveal_strlit("SFTP read failed: ");
        }
        let mut f = match sftp_open(&self.sftp, remote_path) {
            Result::Ok(f) => f,
            Result::Err(e) => {
                return Result::Err(stage_err("SFTP read failed: ", e));
            },
        };
        match file_read_to_end(&mut f) {
            Result::Ok(data) => Result::Ok(data),
            Result::Err(e) => Result::Err(stage_err("SFTP read failed: ", e)),
        }
    }

    /// Retrieves the whole remote file; writing it to a local path is
    /// the caller's business.
    pub fn download(&mut self, remote_path: &str) -> (r: Result<Vec<u8>, String>)
        ensures
            r is Err ==> adapter_err(r->Err_0@),
    {
        proof {
            reveal_strlit("SFTP download failed: ");
        }
        let mut f = match sftp_open(&self.sftp, remote_path) {
            Result::Ok(f) => f,
            Result::Err(e) => {
                return Result::Err(stage_err("SFTP download failed: ", e));
            },
        };
        match file_read_to_end(&mut f) {
            Result::Ok(data) => Result::Ok(data),
            Result::Err(e) => Result::Err(stage_err("SFTP download failed: ", e)),
        }
    }

    /// Stores the whole buffer as the remote file.
    pub fn upload(&mut self, data: &[u8], remote_path: &str) -> (r: Result<(), String>)
        ensures
            r is Err ==> adapter_err(r->Err_0@),
    {
        proof {
            reveal_strlit("SFTP upload failed: ");
        }
        let mut f = match sftp_create(&self.sftp, remote_path) {
            Result::Ok(f) => f,
            Result::Err(e) => {
                return Result::Err(stage_err("SFTP upload failed: ", e));
            },
        };
        match file_write_all(&mut f, data) {
            Result::Ok(_) => Result::Ok(()),
            Result::Err(e) => Result::Err(stage_err("SFTP upload failed: ", e)),
        }
    }

    /// Removes the remote directory or file, trusting the caller's
    /// flag as the original interface does.
    pub fn delete(&mut self, remote_path: &str, is_directory: bool) -> (r: Result<(), String>)
        ensures
            r is Err ==> adapter_err(r->Err_0@),
    {
        proof {
            reveal_strlit("SFTP delete failed: ");
        }
        let outcome = if is_directory {
            sftp_rmdir(&self.sftp, remote_path)
        } else {
            sftp_unlink(&self.sftp, remote_path)
        };
        match outcome {
            Result::Ok(_) => Result::Ok(()),
            Result::Err(e) => Result::Err(stage_err("SFTP delete failed: ", e)),
        }
    }
}

} // verus!
