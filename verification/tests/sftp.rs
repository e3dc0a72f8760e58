use ssh_engine::calendar::{timestamp_text, MINUTES_FORMAT, SECONDS_FORMAT, STAMP_FORMAT};
use ssh_engine::sftp::{
    assemble_listing, directory_listing, entry_info, file_info, file_item, file_items,
    get_file_info, list_directory, removal_for, removal_message, trim_trailing_slashes,
    transfer_auth, wrapped_seconds, FileAttributes, FileInfo, RemoteEntry, Removal, TransferAuth,
    TransferRefused,
};
use ssh_engine::{AuthMethod, FileItem};

fn entry(path: &str, name: &str, is_directory: bool, size: Option<u64>, mtime: Option<u64>)
    -> RemoteEntry {
    RemoteEntry {
        path: path.to_string(),
        name: Some(name.to_string()),
        is_directory,
        size,
        mtime,
        permissions: None,
    }
}

fn attrs(is_directory: bool) -> FileAttributes {
    FileAttributes { is_directory, size: Some(1), mtime: None, permissions: None }
}

#[test]
fn time_formats() {
    assert_eq!(MINUTES_FORMAT, "%Y-%m-%d %H:%M");
    assert_eq!(SECONDS_FORMAT, "%Y-%m-%d %H:%M:%S");
    assert_eq!(STAMP_FORMAT, "%Y-%m-%d %H:%M:%S UTC");
}

#[test]
fn timestamps_are_written_in_utc() {
    assert_eq!(timestamp_text(0), "1970-01-01 00:00:00 UTC");
    assert_eq!(timestamp_text(1431648000), "2015-05-15 00:00:00 UTC");
    assert_eq!(timestamp_text(-1), "1969-12-31 23:59:59 UTC");
    assert_eq!(timestamp_text(951827696), "2000-02-29 12:34:56 UTC");
}

#[test]
fn timestamps_that_the_calendar_cannot_hold_are_unknown() {
    assert_eq!(timestamp_text(i64::MAX), "unknown");
    assert_eq!(timestamp_text(i64::MIN), "unknown");
}

#[test]
fn seconds_wrap_like_a_cast() {
    assert_eq!(wrapped_seconds(0), 0);
    assert_eq!(wrapped_seconds(1431648000), 1431648000);
    assert_eq!(wrapped_seconds(i64::MAX as u64), i64::MAX);
    assert_eq!(wrapped_seconds(i64::MAX as u64 + 1), i64::MIN);
    assert_eq!(wrapped_seconds(u64::MAX), -1);
    for mtime in [0u64, 1, 1 << 62, (1 << 63) - 1, 1 << 63, (1 << 63) + 5, u64::MAX - 1, u64::MAX] {
        assert_eq!(wrapped_seconds(mtime), mtime as i64);
    }
}

#[test]
fn the_row_of_a_file() {
    let row = file_item(
        &entry("/srv/a.txt", "a.txt", false, Some(12), Some(0)),
        Some("1970-01-01 00:00".to_string()),
        "now",
    );
    assert_eq!(
        row,
        FileItem {
            name: "a.txt".to_string(),
            path: "/srv/a.txt".to_string(),
            size: 12,
            is_directory: false,
            modified: "1970-01-01 00:00".to_string(),
        }
    );
}

#[test]
fn the_row_of_a_directory_shows_no_size() {
    let row = file_item(&entry("/srv/d", "d", true, Some(4096), None), None, "now");
    assert_eq!(row.size, 0);
    assert!(row.is_directory);
    assert_eq!(row.modified, "unknown");
}

#[test]
fn rows_fall_back_where_the_server_says_nothing() {
    let nameless = RemoteEntry {
        path: "/srv/..".to_string(),
        name: None,
        is_directory: false,
        size: None,
        mtime: Some(5),
        permissions: None,
    };
    let row = file_item(&nameless, None, "2024-05-01 10:00");
    assert_eq!(row.name, "unknown");
    assert_eq!(row.size, 0);
    assert_eq!(row.modified, "2024-05-01 10:00");
    let timeless = file_item(&entry("/a", "a", false, Some(1), None), Some("x".to_string()), "n");
    assert_eq!(timeless.modified, "unknown");
}

#[test]
fn rows_are_written_to_the_minute() {
    let rows = file_items(
        &vec![
            entry("/srv/b", "b", false, Some(2), Some(1431648000)),
            entry("/srv/a", "a", true, None, Some(951827696)),
            entry("/srv/c", "c", false, Some(3), Some(u64::MAX)),
            entry("/srv/far", "far", false, Some(3), Some(1 << 62)),
        ],
        "NOW",
    );
    let shown: Vec<(&str, &str)> =
        rows.iter().map(|r| (r.name.as_str(), r.modified.as_str())).collect();
    assert_eq!(
        shown,
        vec![
            ("b", "2015-05-15 00:00"),
            ("a", "2000-02-29 12:34"),
            ("c", "1969-12-31 23:59"),
            ("far", "NOW"),
        ]
    );
}

#[test]
fn a_listing_begins_with_the_parent_directory() {
    let rows = vec![file_item(&entry("/srv/a", "a", false, Some(1), None), None, "")];
    let listing = assemble_listing("/srv", Some("/".to_string()), rows.clone());
    assert_eq!(listing.len(), 2);
    assert_eq!(
        listing[0],
        FileItem {
            name: "..".to_string(),
            path: "/".to_string(),
            size: 0,
            is_directory: true,
            modified: String::new(),
        }
    );
    assert_eq!(listing[1], rows[0]);
    let unknown_parent = assemble_listing("srv", None, Vec::new());
    assert_eq!(unknown_parent.len(), 1);
    assert_eq!(unknown_parent[0].path, "/");
}

#[test]
fn the_root_and_the_empty_path_have_no_parent_row() {
    let rows = vec![file_item(&entry("/a", "a", false, Some(1), None), None, "")];
    assert_eq!(assemble_listing("/", Some("/x".to_string()), rows.clone()), rows);
    assert_eq!(assemble_listing("", Some("/x".to_string()), rows.clone()), rows);
    assert_eq!(assemble_listing("/", None, Vec::new()), Vec::new());
}

#[test]
fn a_directory_listing_end_to_end() {
    let entries = vec![
        entry("/home/alice/notes", "notes", true, None, Some(0)),
        entry("/home/alice/a.txt", "a.txt", false, Some(7), Some(60)),
    ];
    let listing = directory_listing("/home/alice", &entries, "NOW");
    assert_eq!(listing.len(), 3);
    assert_eq!(listing[0].name, "..");
    assert!(listing[0].is_directory);
    assert_eq!(listing[0].size, 0);
    assert_eq!(listing[0].modified, "");
    assert_eq!(listing[1].name, "notes");
    assert_eq!(listing[1].modified, "1970-01-01 00:00");
    assert_eq!(listing[2].name, "a.txt");
    assert_eq!(listing[2].size, 7);
    assert_eq!(listing[2].modified, "1970-01-01 00:01");
    let root = directory_listing("/", &entries, "NOW");
    assert_eq!(root.len(), 2);
    assert_eq!(root[0].name, "notes");
}

#[test]
fn trailing_slashes_are_trimmed() {
    assert_eq!(trim_trailing_slashes("/srv/data///"), "/srv/data");
    assert_eq!(trim_trailing_slashes("/srv/data"), "/srv/data");
    assert_eq!(trim_trailing_slashes("/"), "");
    assert_eq!(trim_trailing_slashes("///"), "");
    assert_eq!(trim_trailing_slashes(""), "");
    assert_eq!(trim_trailing_slashes("a/b/ "), "a/b/ ");
}

#[test]
fn details_of_a_file() {
    let info = file_info(
        "a.txt".to_string(),
        "/srv/a.txt".to_string(),
        FileAttributes {
            is_directory: false,
            size: Some(42),
            mtime: Some(0),
            permissions: Some(0o100644),
        },
        Some("1970-01-01 00:00:00".to_string()),
    );
    assert_eq!(
        info,
        FileInfo {
            name: "a.txt".to_string(),
            path: "/srv/a.txt".to_string(),
            is_directory: false,
            size: 42,
            modified: Some("1970-01-01 00:00:00".to_string()),
            permissions: Some("100644".to_string()),
        }
    );
}

#[test]
fn details_fall_back_where_the_server_says_nothing() {
    let bare = FileAttributes { is_directory: true, size: None, mtime: None, permissions: None };
    let info = file_info("d".to_string(), "/d".to_string(), bare, Some("x".to_string()));
    assert_eq!(info.size, 0);
    assert_eq!(info.modified, None);
    assert_eq!(info.permissions, None);
    let timed = FileAttributes { mtime: Some(1), ..bare };
    assert_eq!(file_info("d".to_string(), "/d".to_string(), timed, None).modified, Some(String::new()));
}

#[test]
fn details_of_a_path() {
    let attributes = FileAttributes {
        is_directory: false,
        size: Some(9),
        mtime: Some(1431648000),
        permissions: Some(0o600),
    };
    let info = get_file_info("/home/alice/.ssh/id_rsa", Some("id_rsa".to_string()), attributes);
    assert_eq!(info.name, "id_rsa");
    assert_eq!(info.path, "/home/alice/.ssh/id_rsa");
    assert_eq!(info.size, 9);
    assert_eq!(info.modified, Some("2015-05-15 00:00:00".to_string()));
    assert_eq!(info.permissions, Some("600".to_string()));
    let nameless = get_file_info("/", None, attributes);
    assert_eq!(nameless.name, "/");
}

#[test]
fn an_entry_lies_under_its_directory() {
    let info = entry_info("/srv/data/", "a.txt", attrs(false));
    assert_eq!(info.path, "/srv/data/a.txt");
    assert_eq!(info.name, "a.txt");
    assert_eq!(entry_info("/srv", "b", attrs(false)).path, "/srv/b");
    assert_eq!(entry_info("/", "etc", attrs(true)).path, "/etc");
    assert_eq!(entry_info("", "x", attrs(true)).path, "/x");
}

#[test]
fn a_listing_shows_directories_first_then_names() {
    let entries = vec![
        ("zeta.txt".to_string(), attrs(false)),
        ("beta".to_string(), attrs(true)),
        ("Alpha.txt".to_string(), attrs(false)),
        ("alpha".to_string(), attrs(true)),
        ("alpha.txt".to_string(), attrs(false)),
    ];
    let files = list_directory("/srv/", &entries);
    let shown: Vec<(&str, bool, &str)> =
        files.iter().map(|f| (f.name.as_str(), f.is_directory, f.path.as_str())).collect();
    assert_eq!(
        shown,
        vec![
            ("alpha", true, "/srv/alpha"),
            ("beta", true, "/srv/beta"),
            ("Alpha.txt", false, "/srv/Alpha.txt"),
            ("alpha.txt", false, "/srv/alpha.txt"),
            ("zeta.txt", false, "/srv/zeta.txt"),
        ]
    );
}

#[test]
fn entries_of_the_same_name_keep_their_order() {
    let first = FileAttributes { is_directory: false, size: Some(1), mtime: None, permissions: None };
    let second = FileAttributes { size: Some(2), ..first };
    let third = FileAttributes { size: Some(3), ..first };
    let entries = vec![
        ("same".to_string(), first),
        ("a".to_string(), first),
        ("same".to_string(), second),
        ("same".to_string(), third),
    ];
    let sizes: Vec<u64> = list_directory("/", &entries).iter().map(|f| f.size).collect();
    assert_eq!(sizes, vec![1, 1, 2, 3]);
}

#[test]
fn a_listing_is_sorted_like_std_sorts() {
    let names = ["q", "", "b", "ab", "B", "é", "a", "zz", "z", "b", "日本", "~", "0", "10", "9"];
    let entries: Vec<(String, FileAttributes)> = names
        .iter()
        .enumerate()
        .map(|(i, n)| (n.to_string(), attrs(i % 3 == 0)))
        .collect();
    let listed: Vec<(bool, String)> =
        list_directory("/d", &entries).into_iter().map(|f| (f.is_directory, f.name)).collect();
    let mut expected: Vec<(bool, String)> =
        entries.iter().map(|(n, a)| (a.is_directory, n.clone())).collect();
    expected.sort_by(|a, b| b.0.cmp(&a.0).then(a.1.cmp(&b.1)));
    assert_eq!(listed, expected);
}

#[test]
fn how_a_path_is_removed() {
    assert_eq!(removal_for(true), Removal::Directory);
    assert_eq!(removal_for(false), Removal::File);
    assert_eq!(
        removal_message(Removal::Directory, "/srv/old"),
        "Directory /srv/old removed successfully"
    );
    assert_eq!(removal_message(Removal::File, "/srv/a.txt"), "File /srv/a.txt removed successfully");
}

#[test]
fn what_a_file_transfer_authenticates_with() {
    let key = AuthMethod::PublicKey { key_path: "/k/id".to_string() };
    assert_eq!(transfer_auth(&key, None), Ok(TransferAuth::KeyFile("/k/id".to_string())));
    assert_eq!(transfer_auth(&AuthMethod::Agent, None), Ok(TransferAuth::Agent));
    assert_eq!(transfer_auth(&AuthMethod::Password, None), Err(TransferRefused::PasswordNeeded));
    for method in [key, AuthMethod::Agent, AuthMethod::Password] {
        assert_eq!(
            transfer_auth(&method, Some("hunter2".to_string())),
            Ok(TransferAuth::Password("hunter2".to_string()))
        );
    }
}
