//! A unified remote-filesystem client library: FTP, SFTP and SMB-via-mount
//! presented through one normalized interface (connect, list, download,
//! upload, delete, read-whole-file), plus a recursive archive-export
//! pipeline and a bookmark store.
//!
//! The protocol adapters keep their transport calls behind small trusted
//! wrappers; everything that decides, orders, joins paths, or routes an
//! operation is verified.

pub mod archive;
pub mod bookmarks;
pub mod editors;
pub mod entry;
pub mod errors;
pub mod ftp;
pub mod ids;
pub mod paths;
pub mod preview;
pub mod registry;
pub mod sftp;
pub mod smb;
pub mod times;
