//! The FTP adapter. The transport has no per-entry type metadata in
//! the base listing, so directory-ness is probed by attempting a
//! change-directory into each candidate path (restoring the prior
//! working directory afterwards), and non-directories get a
//! best-effort size query that degrades to 0. Transport calls go
//! through trusted wrappers; everything that builds paths, entries
//! and the final ordering is verified.

use vstd::prelude::*;

use crate::entry::{
    sort_entries, sorted_entries, lemma_permutation_membership, FileEntry,
};
use crate::errors::{adapter_err, prefixed, stage_err};
use crate::ids::to_radix_string;
use crate::paths::{joined_child, join_child_path, normalize_list_path, normalized_path};

verus! {

/// Holds suppaftp's control stream. The stream's TLS type parameter
/// is private to suppaftp, so the outside type itself cannot be
/// declared; the handle is opaque instead and every access goes
/// through the wrappers below.
#[verifier::external_body]
struct FtpStreamHandle {
    stream: suppaftp::FtpStream,
}

/// Relies on suppaftp's ImplFtpStream::connect: opens the control
/// connection to "host:port"; what comes back depends on the network.
#[verifier::external_body]
fn ftp_connect(addr: &str) -> (r: Result<FtpStreamHandle, String>) {
    match suppaftp::FtpStream::connect(addr) {
        Ok(stream) => Ok(FtpStreamHandle { stream }),
        Err(e) => Err(e.to_string()),
    }
}

/// Relies on suppaftp's ImplFtpStream::login: authenticates on the
/// open control connection.
#[verifier::external_body]
fn ftp_login(s: &mut FtpStreamHandle, user: &str, pass: &str) -> (r: Result<(), String>) {
    s.stream.login(user, pass).map_err(|e| e.to_string())
}

/// Relies on suppaftp's ImplFtpStream::nlst: the remote names listed
/// under the path; what comes back depends on the server.
#[verifier::external_body]
fn ftp_nlst(s: &mut FtpStreamHandle, path: &str) -> (r: Result<Vec<String>, String>) {
    s.stream.nlst(Some(path)).map_err(|e| e.to_string())
}

/// Relies on suppaftp's ImplFtpStream::cwd: whether the server accepts
/// a change of working directory into the path.
#[verifier::external_body]
fn ftp_cwd_ok(s: &mut FtpStreamHandle, path: &str) -> (r: bool) {
    s.stream.cwd(path).is_ok()
}

/// Relies on suppaftp's ImplFtpStream::size: the remote file's size,
/// or nothing when the server refuses the query.
#[verifier::external_body]
fn ftp_size(s: &mut FtpStreamHandle, path: &str) -> (r: Option<usize>) {
    s.stream.size(path).ok()
}

/// Relies on suppaftp's ImplFtpStream::retr_as_buffer: the remote
/// file's whole contents as one buffer.
#[verifier::external_body]
fn ftp_retr(s: &mut FtpStreamHandle, path: &str) -> (r: Result<Vec<u8>, String>) {
    s.stream.retr_as_buffer(path).map(|c| c.into_inner()).map_err(|e| e.to_string())
}

/// Relies on suppaftp's ImplFtpStream::put_file: stores the whole
/// buffer as the remote file.
#[verifier::external_body]
fn ftp_put(s: &mut FtpStreamHandle, path: &str, data: &[u8]) -> (r: Result<(), String>) {
    let mut reader = std::io::Cursor::new(data);
    s.stream.put_file(path, &mut reader).map(|_| ()).map_err(|e| e.to_string())
}

/// Relies on suppaftp's ImplFtpStream::rm: removes the remote file.
#[verifier::external_body]
fn ftp_rm(s: &mut FtpStreamHandle, path: &str) -> (r: Result<(), String>) {
    s.stream.rm(path).map_err(|e| e.to_string())
}

/// Relies on suppaftp's ImplFtpStream::rmdir: removes the remote
/// directory.
#[verifier::external_body]
fn ftp_rmdir(s: &mut FtpStreamHandle, path: &str) -> (r: Result<(), String>) {
    s.stream.rmdir(path).map_err(|e| e.to_string())
}

/// Relies on suppaftp's ImplFtpStream::quit: closes the session;
/// disposal swallows any failure.
#[verifier::external_body]
fn ftp_quit(s: &mut FtpStreamHandle) {
    let _ = s.stream.quit();
}

/// What holds of every entry an FTP listing of `listing` reports:
/// the path is derived from the listing path and the name, FTP
/// supplies no modification time or permissions, and a probed
/// directory carries size 0.
pub open spec fn ftp_listing_entry(listing: Seq<char>, e: FileEntry) -> bool {
    &&& e.path@ == joined_child(listing, e.name@)
    &&& e.modified@ == Seq::<char>::empty()
    &&& e.permissions is None
    &&& e.is_directory ==> e.size == 0
}

/// One FTP session.
pub struct FtpConnection {
    stream: FtpStreamHandle,
}

impl FtpConnection {
    /// Opens the control connection to host:port, then logs in; the
    /// two stages fail distinctly.
    pub fn connect(host: &str, port: u16, username: &str, password: &str) -> (r: Result<
        FtpConnection,
        String,
    >)
        ensures
            r is Err ==> adapter_err(r->Err_0@),
            r is Err ==> prefixed(r->Err_0@, "FTP connect failed: "@) || prefixed(
                r->Err_0@,
                "FTP login failed: "@,
            ),
    {
        proof {
            reveal_strlit("FTP connect failed: ");
            reveal_strlit("FTP login failed: ");
            reveal_strlit(":");
        }
        let mut addr = host.to_owned();
        addr.append(":");
        addr.append(to_radix_string(port as u64, 10).as_str());
        match ftp_connect(addr.as_str()) {
            Result::Ok(mut stream) => {
                match ftp_login(&mut stream, username, password) {
                    Result::Ok(_) => Result::Ok(FtpConnection { stream }),
                    Result::Err(e) => Result::Err(stage_err("FTP login failed: ", e)),
                }
            },
            Result::Err(e) => Result::Err(stage_err("FTP connect failed: ", e)),
        }
    }

    /// Lists the path (empty means the root): probes each name by
    /// change-directory, queries sizes best-effort, and returns the
    /// entries in the shared listing order.
    pub fn list_files(&mut self, path: &str) -> (r: Result<Vec<FileEntry>, String>)
        ensures
            r is Err ==> adapter_err(r->Err_0@),
            r is Ok ==> sorted_entries(r->Ok_0@),
            r is Ok ==> forall|k: int|
                0 <= k < r->Ok_0@.len() ==> ftp_listing_entry(
                    normalized_path(path@),
                    #[trigger] r->Ok_0@[k],
                ),
    {
        proof {
            reveal_strlit("FTP list failed: ");
        }
        let norm = normalize_list_path(path);
        let names = match ftp_nlst(&mut self.stream, norm.as_str()) {
            Result::Ok(names) => names,
            Result::Err(e) => {
                return Result::Err(stage_err("FTP list failed: ", e));
            },
        };
        let mut v = names;
        let mut pre: Vec<FileEntry> = Vec::new();
        while v.len() > 0
            invariant
                norm@ == normalized_path(path@),
                forall|k: int|
                    0 <= k < pre@.len() ==> ftp_listing_entry(
                        normalized_path(path@),
                        #[trigger] pre@[k],
                    ),
            decreases v@.len(),
        {
            let name = v.remove(0);
            let file_path = join_child_path(norm.as_str(), name.as_str());
            let is_directory = ftp_cwd_ok(&mut self.stream, file_path.as_str());
            if is_directory {
                let _restored = ftp_cwd_ok(&mut self.stream, norm.as_str());
            }
            let size: u64 = if !is_directory {
                match ftp_size(&mut self.stream, file_path.as_str()) {
                    Option::Some(n) => n as u64,
                    Option::None => 0,
                }
            } else {
                0
            };
            let e = FileEntry {
                name,
                path: file_path,
                is_directory,
                size,
                modified: String::new(),
                permissions: Option::None,
            };
            proof {
                assert(ftp_listing_entry(normalized_path(path@), e));
            }
            pre.push(e);
        }
        let r = sort_entries(pre);
        proof {
            lemma_permutation_membership(pre@, r@);
            assert forall|k: int| 0 <= k < r@.len() implies ftp_listing_entry(
                normalized_path(path@),
                #[trigger] r@[k],
            ) by {
                assert(pre@.contains(r@[k]));
                let idx = choose|idx: int| 0 <= idx < pre@.len() && pre@[idx] == r@[k];
                assert(ftp_listing_entry(normalized_path(path@), pre@[idx]));
            }
        }
        Result::Ok(r)
    }

    /// Reads the whole remote file into one buffer.
    pub fn read_file(&mut self, remote_path: &str) -> (r: Result<Vec<u8>, String>)
        ensures
            r is Err ==> adapter_err(r->Err_0@),
    {
        proof {
            reveal_strlit("FTP read failed: ");
        }
        match ftp_retr(&mut self.stream, remote_path) {
            Result::Ok(data) => Result::Ok(data),
            Result::Err(e) => Result::Err(stage_err("FTP read failed: ", e)),
        }
    }

    /// Retrieves the whole remote file; writing it to a local path is
    /// the caller's business.
    pub fn download(&mut self, remote_path: &str) -> (r: Result<Vec<u8>, String>)
        ensures
            r is Err ==> adapter_err(r->Err_0@),
    {
        proof {
            reveal_strlit("FTP download failed: ");
        }
        match ftp_retr(&mut self.stream, remote_path) {
            Result::Ok(data) => Result::Ok(data),
            Result::Err(e) => Result::Err(stage_err("FTP download failed: ", e)),
        }
    }

    /// Stores the whole buffer as the remote file.
    pub fn upload(&mut self, data: &[u8], remote_path: &str) -> (r: Result<(), String>)
        ensures
            r is Err ==> adapter_err(r->Err_0@),
    {
        proof {
            reveal_strlit("FTP upload failed: ");
        }
        match ftp_put(&mut self.stream, remote_path, data) {
            Result::Ok(_) => Result::Ok(()),
            Result::Err(e) => Result::Err(stage_err("FTP upload failed: ", e)),
        }
    }

    /// Removes the remote directory or file, trusting the caller's
    /// flag as the original interface does.
    pub fn delete(&mut self, remote_path: &str, is_directory: bool) -> (r: Result<(), String>)
        ensures
            r is Err ==> adapter_err(r->Err_0@),
    {
        proof {
            reveal_strlit("FTP delete failed: ");
        }
        let outcome = if is_directory {
            ftp_rmdir(&mut self.stream, remote_path)
        } else {
            ftp_rm(&mut self.stream, remote_path)
        };
        match outcome {
            Result::Ok(_) => Result::Ok(()),
            Result::Err(e) => Result::Err(stage_err("FTP delete failed: ", e)),
        }
    }

    /// Closes the session best-effort; disposal never fails the
    /// caller.
    pub fn close(&mut self) {
        ftp_quit(&mut self.stream);
    }
}

} // verus!
