//! The connection registry and dispatch layer. At most one session is
//! live at a time: a tagged union holds it, replacing it hands the
//! prior adapter back for release, and disconnecting always leaves
//! the Disconnected state. Every logical operation either fails with
//! the not-connected report (and changes nothing) or is forwarded to
//! the active adapter; SMB operations come back as the local
//! filesystem action the caller performs under the mount point.
//!
//! Callers serialize access to one `AppState` behind their own
//! mutual-exclusion guard; the registry itself is single-threaded.

use vstd::prelude::*;

use crate::entry::{sorted_entries, FileEntry};
use crate::errors::{
    adapter_err, lemma_adapter_err_distinct, not_connected_error, not_connected_msg, prefixed,
    stage_err,
};
use crate::ftp::FtpConnection;
use crate::sftp::SftpConnection;
use crate::smb::{smb_local_path, SmbConnection};

verus! {

/// The three transports.
#[derive(Debug, Clone, Copy, PartialEq, Eq, Structural)]
pub enum Protocol {
    Ftp,
    Sftp,
    Smb,
}

/// The one connection slot: at most one live adapter, or nothing.
pub enum ActiveConnection {
    Ftp(FtpConnection),
    Sftp(SftpConnection),
    Smb(SmbConnection),
    Disconnected,
}

impl ActiveConnection {
    /// The protocol of the live adapter, if any.
    pub open spec fn protocol(self) -> Option<Protocol> {
        match self {
            ActiveConnection::Ftp(_) => Option::Some(Protocol::Ftp),
            ActiveConnection::Sftp(_) => Option::Some(Protocol::Sftp),
            ActiveConnection::Smb(_) => Option::Some(Protocol::Smb),
            ActiveConnection::Disconnected => Option::None,
        }
    }
}

/// Law: the slot is a sum, so no two sessions ever coexist in it.
pub proof fn lemma_single_session(c: ActiveConnection)
    ensures
        !(c is Ftp && c is Sftp),
        !(c is Ftp && c is Smb),
        !(c is Sftp && c is Smb),
{
}

/// The local filesystem action an SMB operation reduces to; the
/// caller performs it under the mount point.
#[derive(Debug)]
pub enum SmbAction {
    ReadDir { dir: String },
    ReadFile { file: String },
    WriteFile { file: String },
    RemoveDir { dir: String },
    RemoveFile { file: String },
}

/// A dispatched operation's outcome: completed by a network adapter,
/// or the local action the caller performs for a mounted share.
#[derive(Debug)]
pub enum Routed<T> {
    Done(T),
    Local(SmbAction),
}

/// The registry: the one guarded connection slot.
pub struct AppState {
    pub connection: ActiveConnection,
}

impl Default for AppState {
    /// A fresh registry is disconnected.
    fn default() -> (s: Self)
        ensures
            s.connection is Disconnected,
    {
        AppState { connection: ActiveConnection::Disconnected }
    }
}

impl AppState {
    /// A fresh registry is disconnected.
    pub fn new() -> (s: AppState)
        ensures
            s.connection is Disconnected,
    {
        AppState { connection: ActiveConnection::Disconnected }
    }

    /// Installs a new slot value and hands the prior one back, so the
    /// caller releases the old session before using the new state:
    /// the two never coexist in the registry.
    pub fn replace_connection(&mut self, c: ActiveConnection) -> (prior: ActiveConnection)
        ensures
            final(self).connection == c,
            prior == old(self).connection,
    {
        let mut tmp = c;
        std::mem::swap(&mut self.connection, &mut tmp);
        tmp
    }

    /// Disconnects unconditionally: always succeeds, also when
    /// already disconnected, and leaves the Disconnected state. The
    /// prior slot value comes back for best-effort release.
    pub fn disconnect(&mut self) -> (prior: ActiveConnection)
        ensures
            final(self).connection is Disconnected,
            prior == old(self).connection,
    {
        self.replace_connection(ActiveConnection::Disconnected)
    }

    /// Dispatches a listing: fails with the not-connected report when
    /// no session is active (changing nothing), else forwards to the
    /// active adapter; for SMB the caller reads the translated local
    /// directory and builds the entries with `smb_entries`.
    pub fn list_files(&mut self, path: &str) -> (r: Result<Routed<Vec<FileEntry>>, String>)
        ensures
            old(self).connection is Disconnected ==> r is Err && r->Err_0@ == not_connected_msg()
                && *final(self) == *old(self),
            r is Err ==> (r->Err_0@ == not_connected_msg() <==> old(
                self,
            ).connection is Disconnected),
            final(self).connection.protocol() == old(self).connection.protocol(),
            old(self).connection is Smb ==> *final(self) == *old(self) && (r matches Result::Ok(
                Routed::Local(SmbAction::ReadDir { dir }),
            ) && dir@ == smb_local_path(old(self).connection->Smb_0.mount_point@, path@)),
            r matches Result::Ok(Routed::Done(v)) ==> sorted_entries(v@),
            r is Ok ==> (r->Ok_0 is Local <==> old(self).connection is Smb),
    {
        match &mut self.connection {
            ActiveConnection::Ftp(conn) => {
                match conn.list_files(path) {
                    Result::Ok(v) => Result::Ok(Routed::Done(v)),
                    Result::Err(e) => {
                        proof {
                            lemma_adapter_err_distinct(e@);
                        }
                        Result::Err(e)
                    },
                }
            },
            ActiveConnection::Sftp(conn) => {
                match conn.list_files(path) {
                    Result::Ok(v) => Result::Ok(Routed::Done(v)),
                    Result::Err(e) => {
                        proof {
                            lemma_adapter_err_distinct(e@);
                        }
                        Result::Err(e)
                    },
                }
            },
            ActiveConnection::Smb(conn) => Result::Ok(
                Routed::Local(SmbAction::ReadDir { dir: conn.get_local_path(path) }),
            ),
            ActiveConnection::Disconnected => Result::Err(not_connected_error()),
        }
    }

    /// Dispatches a whole-file read (preview and editor hand-off);
    /// for SMB the caller reads the translated local file.
    pub fn read_whole_file(&mut self, remote_path: &str) -> (r: Result<Routed<Vec<u8>>, String>)
        ensures
            old(self).connection is Disconnected ==> r is Err && r->Err_0@ == not_connected_msg()
                && *final(self) == *old(self),
            r is Err ==> (r->Err_0@ == not_connected_msg() <==> old(
                self,
            ).connection is Disconnected),
            final(self).connection.protocol() == old(self).connection.protocol(),
            old(self).connection is Smb ==> *final(self) == *old(self) && (r matches Result::Ok(
                Routed::Local(SmbAction::ReadFile { file }),
            ) && file@ == smb_local_path(old(self).connection->Smb_0.mount_point@, remote_path@)),
            r is Ok ==> (r->Ok_0 is Local <==> old(self).connection is Smb),
    {
        match &mut self.connection {
            ActiveConnection::Ftp(conn) => {
                match conn.read_file(remote_path) {
                    Result::Ok(v) => Result::Ok(Routed::Done(v)),
                    Result::Err(e) => {
                        proof {
                            lemma_adapter_err_distinct(e@);
                        }
                        Result::Err(e)
                    },
                }
            },
            ActiveConnection::Sftp(conn) => {
                match conn.read_file(remote_path) {
                    Result::Ok(v) => Result::Ok(Routed::Done(v)),
                    Result::Err(e) => {
                        proof {
                            lemma_adapter_err_distinct(e@);
                        }
                        Result::Err(e)
                    },
                }
            },
            ActiveConnection::Smb(conn) => Result::Ok(
                Routed::Local(SmbAction::ReadFile { file: conn.get_local_path(remote_path) }),
            ),
            ActiveConnection::Disconnected => Result::Err(not_connected_error()),
        }
    }

    /// Dispatches a download: the remote file arrives as one buffer
    /// and the caller writes it to the local path; for SMB the caller
    /// copies from the translated local file instead.
    pub fn download_file(&mut self, remote_path: &str) -> (r: Result<Routed<Vec<u8>>, String>)
        ensures
            old(self).connection is Disconnected ==> r is Err && r->Err_0@ == not_connected_msg()
                && *final(self) == *old(self),
            r is Err ==> (r->Err_0@ == not_connected_msg() <==> old(
                self,
            ).connection is Disconnected),
            final(self).connection.protocol() == old(self).connection.protocol(),
            old(self).connection is Smb ==> *final(self) == *old(self) && (r matches Result::Ok(
                Routed::Local(SmbAction::ReadFile { file }),
            ) && file@ == smb_local_path(old(self).connection->Smb_0.mount_point@, remote_path@)),
            r is Ok ==> (r->Ok_0 is Local <==> old(self).connection is Smb),
    {
        match &mut self.connection {
            ActiveConnection::Ftp(conn) => {
                match conn.download(remote_path) {
                    Result::Ok(v) => Result::Ok(Routed::Done(v)),
                    Result::Err(e) => {
                        proof {
                            lemma_adapter_err_distinct(e@);
                        }
                        Result::Err(e)
                    },
                }
            },
            ActiveConnection::Sftp(conn) => {
                match conn.download(remote_path) {
                    Result::Ok(v) => Result::Ok(Routed::Done(v)),
                    Result::Err(e) => {
                        proof {
                            lemma_adapter_err_distinct(e@);
                        }
                        Result::Err(e)
                    },
                }
            },
            ActiveConnection::Smb(conn) => Result::Ok(
                Routed::Local(SmbAction::ReadFile { file: conn.get_local_path(remote_path) }),
            ),
            ActiveConnection::Disconnected => Result::Err(not_connected_error()),
        }
    }

    /// Dispatches an upload of one whole buffer; for SMB the caller
    /// writes the buffer to the translated local file.
    pub fn upload_file(&mut self, data: &[u8], remote_path: &str) -> (r: Result<
        Routed<()>,
        String,
    >)
        ensures
            old(self).connection is Disconnected ==> r is Err && r->Err_0@ == not_connected_msg()
                && *final(self) == *old(self),
            r is Err ==> (r->Err_0@ == not_connected_msg() <==> old(
                self,
            ).connection is Disconnected),
            final(self).connection.protocol() == old(self).connection.protocol(),
            old(self).connection is Smb ==> *final(self) == *old(self) && (r matches Result::Ok(
                Routed::Local(SmbAction::WriteFile { file }),
            ) && file@ == smb_local_path(old(self).connection->Smb_0.mount_point@, remote_path@)),
            r is Ok ==> (r->Ok_0 is Local <==> old(self).connection is Smb),
    {
        match &mut self.connection {
            ActiveConnection::Ftp(conn) => {
                match conn.upload(data, remote_path) {
                    Result::Ok(_) => Result::Ok(Routed::Done(())),
                    Result::Err(e) => {
                        proof {
                            lemma_adapter_err_distinct(e@);
                        }
                        Result::Err(e)
                    },
                }
            },
            ActiveConnection::Sftp(conn) => {
                match conn.upload(data, remote_path) {
                    Result::Ok(_) => Result::Ok(Routed::Done(())),
                    Result::Err(e) => {
                        proof {
                            lemma_adapter_err_distinct(e@);
                        }
                        Result::Err(e)
                    },
                }
            },
            ActiveConnection::Smb(conn) => Result::Ok(
                Routed::Local(SmbAction::WriteFile { file: conn.get_local_path(remote_path) }),
            ),
            ActiveConnection::Disconnected => Result::Err(not_connected_error()),
        }
    }

    /// Dispatches a delete, routed by the caller-supplied directory
    /// flag; for SMB the caller removes the translated local path.
    pub fn delete_file(&mut self, remote_path: &str, is_directory: bool) -> (r: Result<
        Routed<()>,
        String,
    >)
        ensures
            old(self).connection is Disconnected ==> r is Err && r->Err_0@ == not_connected_msg()
                && *final(self) == *old(self),
            r is Err ==> (r->Err_0@ == not_connected_msg() <==> old(
                self,
            ).connection is Disconnected),
            final(self).connection.protocol() == old(self).connection.protocol(),
            old(self).connection is Smb && is_directory ==> *final(self) == *old(self) && (
            r matches Result::Ok(Routed::Local(SmbAction::RemoveDir { dir })) && dir@
                == smb_local_path(old(self).connection->Smb_0.mount_point@, remote_path@)),
            old(self).connection is Smb && !is_directory ==> *final(self) == *old(self) && (
            r matches Result::Ok(Routed::Local(SmbAction::RemoveFile { file })) && file@
                == smb_local_path(old(self).connection->Smb_0.mount_point@, remote_path@)),
            r is Ok ==> (r->Ok_0 is Local <==> old(self).connection is Smb),
    {
        match &mut self.connection {
            ActiveConnection::Ftp(conn) => {
                match conn.delete(remote_path, is_directory) {
                    Result::Ok(_) => Result::Ok(Routed::Done(())),
                    Result::Err(e) => {
                        proof {
                            lemma_adapter_err_distinct(e@);
                        }
                        Result::Err(e)
                    },
                }
            },
            ActiveConnection::Sftp(conn) => {
                match conn.delete(remote_path, is_directory) {
                    Result::Ok(_) => Result::Ok(Routed::Done(())),
                    Result::Err(e) => {
                        proof {
                            lemma_adapter_err_distinct(e@);
                        }
                        Result::Err(e)
                    },
                }
            },
            ActiveConnection::Smb(conn) => {
                let target = conn.get_local_path(remote_path);
                if is_directory {
                    Result::Ok(Routed::Local(SmbAction::RemoveDir { dir: target }))
                } else {
                    Result::Ok(Routed::Local(SmbAction::RemoveFile { file: target }))
                }
            },
            ActiveConnection::Disconnected => Result::Err(not_connected_error()),
        }
    }
}

/// Parses a protocol name: exactly "ftp", "sftp" or "smb"; anything
/// else is the unknown-protocol failure.
pub fn parse_protocol(name: &str) -> (r: Result<Protocol, String>)
    ensures
        r == Result::<Protocol, String>::Ok(Protocol::Ftp) <==> name@ == "ftp"@,
        r == Result::<Protocol, String>::Ok(Protocol::Sftp) <==> name@ == "sftp"@,
        r == Result::<Protocol, String>::Ok(Protocol::Smb) <==> name@ == "smb"@,
        r is Err ==> prefixed(r->Err_0@, "Unknown protocol: "@) && adapter_err(r->Err_0@),
{
    proof {
        reveal_strlit("Unknown protocol: ");
        reveal_strlit("ftp");
        reveal_strlit("sftp");
        reveal_strlit("smb");
        assert("ftp"@.len() == 3 && "sftp"@.len() == 4 && "smb"@.len() == 3);
        assert("ftp"@[0] == 'f' && "smb"@[0] == 's');
        assert("ftp"@ != "sftp"@ && "ftp"@ != "smb"@ && "sftp"@ != "smb"@);
    }
    let owned = name.to_owned();
    if owned == String::from_str("ftp") {
        Result::Ok(Protocol::Ftp)
    } else if owned == String::from_str("sftp") {
        Result::Ok(Protocol::Sftp)
    } else if owned == String::from_str("smb") {
        Result::Ok(Protocol::Smb)
    } else {
        Result::Err(stage_err("Unknown protocol: ", owned))
    }
}

/// The share a connect request must carry for the smb protocol:
/// present and non-empty, else the request is rejected.
pub fn required_share(share: Option<&str>) -> (r: Result<String, String>)
    ensures
        r is Ok <==> share is Some && share->0@.len() > 0,
        r is Ok ==> r->Ok_0@ == share->0@,
        r is Err ==> adapter_err(r->Err_0@),
{
    proof {
        reveal_strlit("SMB connection requires a share name");
    }
    match share {
        Option::Some(s) => {
            if s.is_empty() {
                Result::Err(String::from_str("SMB connection requires a share name"))
            } else {
                Result::Ok(s.to_owned())
            }
        },
        Option::None => Result::Err(String::from_str("SMB connection requires a share name")),
    }
}

} // verus!
