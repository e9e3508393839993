use easyftp::archive::{mirror_steps, parse_format, staged_file_name, ArchiveFormat, MirrorStep};
use easyftp::bookmarks::{delete_connection, save_connection, Connection};
use easyftp::editors::{available_editors, EditorInfo};
use easyftp::entry::{entry_le_exec, name_le_exec, sort_entries, FileEntry};
use easyftp::ids::{to_radix_string, uuid_simple};
use easyftp::paths::{join_child_path, normalize_list_path, strip_leading_slashes};

fn entry(name: &str, path: &str, is_directory: bool) -> FileEntry {
    FileEntry {
        name: name.to_string(),
        path: path.to_string(),
        is_directory,
        size: 0,
        modified: String::new(),
        permissions: None,
    }
}

#[test]
fn name_order_is_case_insensitive() {
    assert!(name_le_exec("Alpha", "beta"));
    assert!(name_le_exec("beta", "Gamma"));
    assert!(!name_le_exec("gamma", "BETA"));
    assert!(name_le_exec("same", "SAME"));
    assert!(name_le_exec("SAME", "same"));
    assert!(name_le_exec("ab", "abc"));
    assert!(!name_le_exec("abc", "ab"));
}

#[test]
fn directories_precede_files() {
    let d = entry("zzz", "/zzz", true);
    let f = entry("aaa", "/aaa", false);
    assert!(entry_le_exec(&d, &f));
    assert!(!entry_le_exec(&f, &d));
}

#[test]
fn sort_orders_directories_first_then_names() {
    let input = vec![
        entry("beta.txt", "/beta.txt", false),
        entry("gamma", "/gamma", true),
        entry("Alpha", "/Alpha", true),
        entry("Delta.txt", "/Delta.txt", false),
    ];
    let sorted = sort_entries(input);
    let names: Vec<&str> = sorted.iter().map(|e| e.name.as_str()).collect();
    assert_eq!(names, vec!["Alpha", "gamma", "beta.txt", "Delta.txt"]);
    assert!(sorted[0].is_directory && sorted[1].is_directory);
    assert!(!sorted[2].is_directory && !sorted[3].is_directory);
}

#[test]
fn empty_path_means_root() {
    assert_eq!(normalize_list_path("").as_str(), "/");
    assert_eq!(normalize_list_path("/").as_str(), "/");
    assert_eq!(normalize_list_path("/docs").as_str(), "/docs");
}

#[test]
fn join_child_path_matches_all_adapters() {
    assert_eq!(join_child_path("/", "a.txt").as_str(), "/a.txt");
    assert_eq!(join_child_path("", "a.txt").as_str(), "/a.txt");
    assert_eq!(join_child_path("/docs", "a.txt").as_str(), "/docs/a.txt");
    assert_eq!(join_child_path("/docs/", "a.txt").as_str(), "/docs/a.txt");
    assert_eq!(join_child_path("/docs///", "sub").as_str(), "/docs/sub");
}

#[test]
fn strip_leading_slashes_relativizes() {
    assert_eq!(strip_leading_slashes("/a/b").as_str(), "a/b");
    assert_eq!(strip_leading_slashes("///a").as_str(), "a");
    assert_eq!(strip_leading_slashes("").as_str(), "");
    assert_eq!(strip_leading_slashes("///").as_str(), "");
}

fn bookmark(id: &str, host: &str, port: u16, user: &str, protocol: &str) -> Connection {
    Connection {
        id: id.to_string(),
        name: "saved".to_string(),
        protocol: protocol.to_string(),
        host: host.to_string(),
        port,
        username: user.to_string(),
        password: "SECRET-REDACTED".to_string(),
        share: None,
    }
}

#[test]
fn upsert_by_natural_key_updates_in_place() {
    let stored = vec![
        bookmark("id1", "h", 21, "u", "ftp"),
        bookmark("id2", "other", 22, "u2", "sftp"),
    ];
    let incoming = bookmark("id3", "h", 21, "u", "ftp");
    let saved = save_connection(stored, incoming, None);
    assert_eq!(saved.len(), 2);
    assert_eq!(saved[0].id.as_str(), "id3");
    assert_eq!(saved[1].id.as_str(), "id2");
}

#[test]
fn upsert_appends_when_nothing_matches() {
    let stored = vec![bookmark("id1", "h", 21, "u", "ftp")];
    let incoming = bookmark("id9", "h", 2121, "u", "ftp");
    let saved = save_connection(stored, incoming, None);
    assert_eq!(saved.len(), 2);
    assert_eq!(saved[1].id.as_str(), "id9");
}

#[test]
fn upsert_by_explicit_id_replaces_that_entry() {
    let stored = vec![
        bookmark("id1", "h", 21, "u", "ftp"),
        bookmark("id2", "h2", 22, "u", "sftp"),
    ];
    let mut incoming = bookmark("id2", "new-host", 2222, "new-user", "sftp");
    incoming.name = "renamed".to_string();
    let saved = save_connection(stored, incoming, Some("id2"));
    assert_eq!(saved.len(), 2);
    assert_eq!(saved[1].host.as_str(), "new-host");
    assert_eq!(saved[1].name.as_str(), "renamed");
}

#[test]
fn delete_connection_removes_by_id_and_keeps_order() {
    let stored = vec![
        bookmark("id1", "a", 1, "u", "ftp"),
        bookmark("id2", "b", 2, "u", "ftp"),
        bookmark("id3", "c", 3, "u", "ftp"),
    ];
    let left = delete_connection(stored, "id2");
    assert_eq!(left.len(), 2);
    assert_eq!(left[0].id.as_str(), "id1");
    assert_eq!(left[1].id.as_str(), "id3");
}

#[test]
fn delete_connection_of_unknown_id_changes_nothing() {
    let stored = vec![bookmark("id1", "a", 1, "u", "ftp")];
    let left = delete_connection(stored, "missing");
    assert_eq!(left.len(), 1);
}

#[test]
fn available_editors_keeps_the_present_ones_in_order() {
    let candidates = vec![
        EditorInfo { name: "One".to_string(), path: "/apps/one".to_string() },
        EditorInfo { name: "Two".to_string(), path: "/apps/two".to_string() },
        EditorInfo { name: "Three".to_string(), path: "/apps/three".to_string() },
    ];
    let present = vec![true, false, true];
    let found = available_editors(&candidates, &present);
    assert_eq!(found.len(), 2);
    assert_eq!(found[0].name.as_str(), "One");
    assert_eq!(found[1].name.as_str(), "Three");
}

#[test]
fn radix_rendering_matches_standard_formatting() {
    assert_eq!(to_radix_string(255, 16).as_str(), "ff");
    assert_eq!(to_radix_string(0, 16).as_str(), "0");
    assert_eq!(to_radix_string(8, 8).as_str(), "10");
    assert_eq!(to_radix_string(0o755, 8).as_str(), "755");
    assert_eq!(to_radix_string(65535, 10).as_str(), "65535");
    assert_eq!(to_radix_string(u64::MAX, 16).as_str(), "ffffffffffffffff");
}

#[test]
fn uuid_simple_is_hexadecimal() {
    let id = uuid_simple();
    assert!(id.len() >= 2);
    assert!(id.chars().all(|c| c.is_ascii_hexdigit()));
}

#[test]
fn parse_format_accepts_the_four_formats() {
    assert_eq!(parse_format("zip").unwrap(), ArchiveFormat::Zip);
    assert_eq!(parse_format("tar").unwrap(), ArchiveFormat::Tar);
    assert_eq!(parse_format("tar.gz").unwrap(), ArchiveFormat::TarGz);
    assert_eq!(parse_format("tar.bz2").unwrap(), ArchiveFormat::TarBz2);
}

#[test]
fn parse_format_rejects_anything_else() {
    let err = parse_format("rar").unwrap_err();
    assert_eq!(err, "Unsupported format: rar");
    assert!(parse_format("ZIP").is_err());
    assert!(parse_format("").is_err());
}

#[test]
fn staged_file_name_takes_the_leaf() {
    assert_eq!(staged_file_name("/docs").as_str(), "docs");
    assert_eq!(staged_file_name("/docs/a.txt").as_str(), "a.txt");
    assert_eq!(staged_file_name("/docs/").as_str(), "docs");
    assert_eq!(staged_file_name("/").as_str(), "file");
    assert_eq!(staged_file_name("").as_str(), "file");
}

#[test]
fn mirror_steps_reproduce_the_docs_tree() {
    // The /docs listing: a.txt and the subdirectory sub, as the
    // shared ordering policy reports them (directory first).
    let docs_listing = vec![
        entry("sub", "/docs/sub", true),
        entry("a.txt", "/docs/a.txt", false),
    ];
    let steps = mirror_steps("/tmp/stage/docs", &docs_listing);
    assert_eq!(steps.len(), 2);
    match &steps[0] {
        MirrorStep::EnterDir { remote, local } => {
            assert_eq!(remote.as_str(), "/docs/sub");
            assert_eq!(local.as_str(), "/tmp/stage/docs/sub");
        }
        other => panic!("expected EnterDir, got {:?}", other_name(other)),
    }
    match &steps[1] {
        MirrorStep::CopyFile { remote, local } => {
            assert_eq!(remote.as_str(), "/docs/a.txt");
            assert_eq!(local.as_str(), "/tmp/stage/docs/a.txt");
        }
        other => panic!("expected CopyFile, got {:?}", other_name(other)),
    }
    // Entering sub expands its own listing the same way.
    let sub_listing = vec![entry("b.txt", "/docs/sub/b.txt", false)];
    let sub_steps = mirror_steps("/tmp/stage/docs/sub", &sub_listing);
    assert_eq!(sub_steps.len(), 1);
    match &sub_steps[0] {
        MirrorStep::CopyFile { remote, local } => {
            assert_eq!(remote.as_str(), "/docs/sub/b.txt");
            assert_eq!(local.as_str(), "/tmp/stage/docs/sub/b.txt");
        }
        other => panic!("expected CopyFile, got {:?}", other_name(other)),
    }
}

fn other_name(step: &MirrorStep) -> &'static str {
    match step {
        MirrorStep::EnterDir { .. } => "EnterDir",
        MirrorStep::CopyFile { .. } => "CopyFile",
    }
}
