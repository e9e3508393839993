use easyftp::entry::FileEntry;
use easyftp::preview::{decode_preview_text, encode_preview_bytes};
use easyftp::registry::{
    parse_protocol, required_share, ActiveConnection, AppState, Protocol, Routed, SmbAction,
};
use easyftp::sftp::{sftp_entries, RawSftpEntry};
use easyftp::smb::{mount_outcome, prepare_mount, smb_entries, LocalEntryInfo, SmbConnection};

fn mounted() -> SmbConnection {
    SmbConnection::after_mount(
        "my.host".to_string(),
        "docs".to_string(),
        "/tmp/easyftp_smb_my_host_docs".to_string(),
    )
}

#[test]
fn disconnect_is_idempotent() {
    let mut state = AppState::new();
    assert!(matches!(state.connection, ActiveConnection::Disconnected));
    let prior = state.disconnect();
    assert!(matches!(prior, ActiveConnection::Disconnected));
    assert!(matches!(state.connection, ActiveConnection::Disconnected));
    let prior = state.disconnect();
    assert!(matches!(prior, ActiveConnection::Disconnected));
    assert!(matches!(state.connection, ActiveConnection::Disconnected));
}

#[test]
fn operations_while_disconnected_fail_with_not_connected() {
    let mut state = AppState::new();
    assert_eq!(state.list_files("/").unwrap_err(), "Not connected");
    assert_eq!(state.download_file("/a").unwrap_err(), "Not connected");
    assert_eq!(state.upload_file(b"x", "/a").unwrap_err(), "Not connected");
    assert_eq!(state.read_whole_file("/a").unwrap_err(), "Not connected");
    assert_eq!(state.delete_file("/a", false).unwrap_err(), "Not connected");
    assert!(matches!(state.connection, ActiveConnection::Disconnected));
}

#[test]
fn reconnecting_hands_the_prior_session_back_first() {
    let mut state = AppState::new();
    let first = mounted();
    let prior = state.replace_connection(ActiveConnection::Smb(first));
    assert!(matches!(prior, ActiveConnection::Disconnected));
    let second = SmbConnection::after_mount(
        "other.host".to_string(),
        "media".to_string(),
        "/tmp/easyftp_smb_other_host_media".to_string(),
    );
    let prior = state.replace_connection(ActiveConnection::Smb(second));
    match prior {
        ActiveConnection::Smb(old) => {
            assert_eq!(old.mount_point.as_str(), "/tmp/easyftp_smb_my_host_docs");
        }
        _ => panic!("prior session was not handed back"),
    }
    match &state.connection {
        ActiveConnection::Smb(now) => {
            assert_eq!(now.mount_point.as_str(), "/tmp/easyftp_smb_other_host_media");
        }
        _ => panic!("new session was not installed"),
    }
}

#[test]
fn smb_operations_become_local_actions_under_the_mount_point() {
    let mut state = AppState::new();
    state.replace_connection(ActiveConnection::Smb(mounted()));
    match state.list_files("/sub").unwrap() {
        Routed::Local(SmbAction::ReadDir { dir }) => {
            assert_eq!(dir.as_str(), "/tmp/easyftp_smb_my_host_docs/sub");
        }
        _ => panic!("smb listing must become a local read-dir"),
    }
    match state.download_file("/a.txt").unwrap() {
        Routed::Local(SmbAction::ReadFile { file }) => {
            assert_eq!(file.as_str(), "/tmp/easyftp_smb_my_host_docs/a.txt");
        }
        _ => panic!("smb download must become a local read"),
    }
    match state.upload_file(b"data", "/b.txt").unwrap() {
        Routed::Local(SmbAction::WriteFile { file }) => {
            assert_eq!(file.as_str(), "/tmp/easyftp_smb_my_host_docs/b.txt");
        }
        _ => panic!("smb upload must become a local write"),
    }
    match state.delete_file("/old", true).unwrap() {
        Routed::Local(SmbAction::RemoveDir { dir }) => {
            assert_eq!(dir.as_str(), "/tmp/easyftp_smb_my_host_docs/old");
        }
        _ => panic!("smb directory delete must become a local remove-dir"),
    }
    match state.delete_file("/old.txt", false).unwrap() {
        Routed::Local(SmbAction::RemoveFile { file }) => {
            assert_eq!(file.as_str(), "/tmp/easyftp_smb_my_host_docs/old.txt");
        }
        _ => panic!("smb file delete must become a local remove-file"),
    }
}

#[test]
fn get_local_path_translates_under_the_mount_point() {
    let conn = mounted();
    assert_eq!(conn.get_local_path(""), "/tmp/easyftp_smb_my_host_docs");
    assert_eq!(conn.get_local_path("/"), "/tmp/easyftp_smb_my_host_docs");
    assert_eq!(
        conn.get_local_path("/a/b.txt"),
        "/tmp/easyftp_smb_my_host_docs/a/b.txt"
    );
    assert_eq!(
        conn.get_local_path("a/b.txt"),
        "/tmp/easyftp_smb_my_host_docs/a/b.txt"
    );
}

#[test]
fn prepare_mount_derives_point_and_encoded_url() {
    let req = prepare_mount("my.host.example", "user name", "p@ss:word", "docs");
    assert_eq!(
        req.mount_point.as_str(),
        "/tmp/easyftp_smb_my_host_example_docs"
    );
    assert_eq!(
        req.url.as_str(),
        "//user%20name:p%40ss%3Aword@my.host.example/docs"
    );
}

#[test]
fn failed_mount_hands_back_the_mount_point_for_cleanup() {
    let req = prepare_mount("my.host", "u", "p", "docs");
    let expected_mount_point = req.mount_point.clone();
    match mount_outcome("my.host", "docs", req, false, "boom".to_string()) {
        Err((stale, message)) => {
            assert_eq!(stale, expected_mount_point);
            assert_eq!(message, "SMB mount failed: boom");
        }
        Ok(_) => panic!("a failed mount must not yield a connection"),
    }
}

#[test]
fn successful_mount_yields_the_adapter() {
    let req = prepare_mount("my.host", "u", "p", "docs");
    let conn = mount_outcome("my.host", "docs", req, true, String::new()).unwrap();
    assert_eq!(conn.host.as_str(), "my.host");
    assert_eq!(conn.share.as_str(), "docs");
    assert_eq!(conn.mount_point.as_str(), "/tmp/easyftp_smb_my_host_docs");
}

#[test]
fn smb_entries_filter_sort_and_stamp() {
    let raw = vec![
        LocalEntryInfo {
            name: "notes.txt".to_string(),
            is_directory: false,
            size: 42,
            modified_secs: Some(0),
        },
        LocalEntryInfo {
            name: ".hidden".to_string(),
            is_directory: false,
            size: 1,
            modified_secs: None,
        },
        LocalEntryInfo {
            name: "Archive".to_string(),
            is_directory: true,
            size: 0,
            modified_secs: None,
        },
    ];
    let entries = smb_entries("/share", raw);
    assert_eq!(entries.len(), 2);
    assert_eq!(entries[0].name.as_str(), "Archive");
    assert!(entries[0].is_directory);
    assert_eq!(entries[0].path.as_str(), "/share/Archive");
    assert_eq!(entries[1].name.as_str(), "notes.txt");
    assert_eq!(entries[1].path.as_str(), "/share/notes.txt");
    assert_eq!(entries[1].size, 42);
    assert_eq!(entries[1].modified.as_str(), "1970-01-01 00:00");
    assert!(entries[1].permissions.is_none());
}

#[test]
fn sftp_entries_filter_stamp_and_render_permissions() {
    let raw = vec![
        RawSftpEntry {
            path: "/home/user/.".to_string(),
            name: Some(".".to_string()),
            is_directory: true,
            size: None,
            mtime: None,
            perm: None,
        },
        RawSftpEntry {
            path: "/home/user/..".to_string(),
            name: Some("..".to_string()),
            is_directory: true,
            size: None,
            mtime: None,
            perm: None,
        },
        RawSftpEntry {
            path: "/home/user/readme.md".to_string(),
            name: Some("readme.md".to_string()),
            is_directory: false,
            size: Some(10),
            mtime: Some(0),
            perm: Some(0o644),
        },
        RawSftpEntry {
            path: "/home/user/bin".to_string(),
            name: Some("bin".to_string()),
            is_directory: true,
            size: None,
            mtime: None,
            perm: Some(0o755),
        },
        RawSftpEntry {
            path: "/home/user".to_string(),
            name: None,
            is_directory: true,
            size: None,
            mtime: None,
            perm: None,
        },
    ];
    let entries = sftp_entries(raw);
    assert_eq!(entries.len(), 2);
    assert_eq!(entries[0].name.as_str(), "bin");
    assert!(entries[0].is_directory);
    assert_eq!(entries[0].size, 0);
    assert_eq!(entries[0].modified.as_str(), "");
    assert_eq!(entries[0].permissions.as_deref(), Some("755"));
    assert_eq!(entries[1].name.as_str(), "readme.md");
    assert_eq!(entries[1].path.as_str(), "/home/user/readme.md");
    assert_eq!(entries[1].size, 10);
    assert_eq!(entries[1].modified.as_str(), "1970-01-01T00:00:00+00:00");
    assert_eq!(entries[1].permissions.as_deref(), Some("644"));
}

#[test]
fn parse_protocol_accepts_the_three_protocols() {
    assert_eq!(parse_protocol("ftp").unwrap(), Protocol::Ftp);
    assert_eq!(parse_protocol("sftp").unwrap(), Protocol::Sftp);
    assert_eq!(parse_protocol("smb").unwrap(), Protocol::Smb);
    let err = parse_protocol("webdav").unwrap_err();
    assert_eq!(err, "Unknown protocol: webdav");
}

#[test]
fn smb_share_is_required_and_non_empty() {
    assert!(required_share(None).is_err());
    assert!(required_share(Some("")).is_err());
    assert_eq!(required_share(Some("docs")).unwrap(), "docs");
}

#[test]
fn base64_preview_encodes() {
    assert_eq!(encode_preview_bytes(b"hi").as_str(), "aGk=");
    assert_eq!(encode_preview_bytes(b"").as_str(), "");
    assert_eq!(encode_preview_bytes(b"hello world").as_str(), "aGVsbG8gd29ybGQ=");
}

#[test]
fn text_preview_decodes_utf8_only() {
    assert_eq!(decode_preview_text(b"hello".to_vec()).unwrap(), "hello");
    let err = decode_preview_text(vec![0xff, 0xfe]).unwrap_err();
    assert_eq!(err, "File cannot be read as text");
}

#[test]
fn listing_a_fresh_smb_mount_needs_entries_built_from_the_local_read() {
    // The dispatch hands back the directory to read; the entries the
    // caller builds from that read follow the shared policy.
    let mut state = AppState::new();
    state.replace_connection(ActiveConnection::Smb(mounted()));
    let dir = match state.list_files("").unwrap() {
        Routed::Local(SmbAction::ReadDir { dir }) => dir,
        _ => panic!("smb listing must become a local read-dir"),
    };
    assert_eq!(dir.as_str(), "/tmp/easyftp_smb_my_host_docs");
    let raw = vec![LocalEntryInfo {
        name: "a".to_string(),
        is_directory: false,
        size: 7,
        modified_secs: None,
    }];
    let entries: Vec<FileEntry> = smb_entries("", raw);
    assert_eq!(entries[0].path.as_str(), "/a");
    assert_eq!(entries[0].modified.as_str(), "");
}
