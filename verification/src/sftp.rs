//! Remote directory listings: from what the SFTP layer reports for each
//! entry to the rows that the user interface shows.

use vstd::prelude::*;
use vstd::string::*;
use crate::calendar::{format_utc, utc_text, MINUTES_FORMAT, SECONDS_FORMAT};
use crate::order::{sort_ranked, sorted_of, Ranked};
use crate::text::{
    lemma_text_le_total, lemma_text_le_transitive, octal_of, octal_text, str_equal, text_le,
    text_not_after,
};
use crate::FileItem;

verus! {

/// Calls `std::path::Path::parent` on `path`, and hands back the parent
/// where there is one that is text. Which separators count, and so what
/// comes back, depends on the platform; nothing is claimed.
#[verifier::external_body]
fn path_parent(path: &str) -> (parent: Option<String>) {
    match std::path::Path::new(path).parent() {
        Some(up) => match up.to_str() {
            Some(text) => Some(text.to_string()),
            None => None,
        },
        None => None,
    }
}

/// A modification time as the number of seconds that is handed to the
/// calendar: times past the largest signed number wrap around.
pub open spec fn seconds_of(mtime: u64) -> i64 {
    if mtime <= i64::MAX as u64 {
        mtime as i64
    } else {
        (mtime - 0x1_0000_0000_0000_0000) as i64
    }
}

/// The seconds to hand to the calendar for `mtime`.
pub fn wrapped_seconds(mtime: u64) -> (secs: i64)
    ensures
        secs == seconds_of(mtime),
{
    if mtime <= i64::MAX as u64 {
        mtime as i64
    } else {
        let over: u64 = mtime - 0x8000_0000_0000_0000;
        (over as i64) + i64::MIN
    }
}

/// What the SFTP layer reports of one entry of a directory.
#[derive(Debug, Clone, PartialEq, Eq)]
pub struct RemoteEntry {
    /// The full path of the entry.
    pub path: String,
    /// The last component of the path, where it has one that is text.
    pub name: Option<String>,
    pub is_directory: bool,
    pub size: Option<u64>,
    /// Seconds since the start of 1970 UTC.
    pub mtime: Option<u64>,
    /// The permission bits.
    pub permissions: Option<u32>,
}

/// A row of a listing as plain values.
pub struct FileItemView {
    pub name: Seq<char>,
    pub path: Seq<char>,
    pub size: u64,
    pub is_directory: bool,
    pub modified: Seq<char>,
}

impl View for FileItem {
    type V = FileItemView;

    open spec fn view(&self) -> FileItemView {
        FileItemView {
            name: self.name@,
            path: self.path@,
            size: self.size,
            is_directory: self.is_directory,
            modified: self.modified@,
        }
    }
}

/// The size that a row shows: none for a directory, and none where the
/// server gave none.
pub open spec fn shown_size(is_directory: bool, size: Option<u64>) -> u64 {
    if is_directory {
        0
    } else {
        match size {
            Some(bytes) => bytes,
            None => 0,
        }
    }
}

/// The time that a row shows, from what the calendar wrote: `unknown` for
/// an entry without a time, the time written for `mtime`, and `now` where
/// the calendar cannot hold it.
pub open spec fn shown_time(has_mtime: bool, written: Option<Seq<char>>, now: Seq<char>) -> Seq<
    char,
> {
    if !has_mtime {
        "unknown"@
    } else {
        match written {
            Some(text) => text,
            None => now,
        }
    }
}

/// The row of `entry`, with `written` as what the calendar wrote for its
/// time.
pub open spec fn row_of(entry: RemoteEntry, written: Option<Seq<char>>, now: Seq<char>)
    -> FileItemView {
    FileItemView {
        name: match entry.name {
            Some(name) => name@,
            None => "unknown"@,
        },
        path: entry.path@,
        size: shown_size(entry.is_directory, entry.size),
        is_directory: entry.is_directory,
        modified: shown_time(entry.mtime is Some, written, now),
    }
}

/// The row of `entry` in a listing. `written` is what the calendar wrote
/// for the entry's time, and `now` the present time in the same format.
pub fn file_item(entry: &RemoteEntry, written: Option<String>, now: &str) -> (row: FileItem)
    ensures
        row@ == row_of(
            *entry,
            match written {
                Some(text) => Some(text@),
                None => None,
            },
            now@,
        ),
{
    FileItem {
        name: match &entry.name {
            Some(name) => name.clone(),
            None => String::from_str("unknown"),
        },
        path: entry.path.clone(),
        size: if entry.is_directory {
            0
        } else {
            match entry.size {
                Some(bytes) => bytes,
                None => 0,
            }
        },
        is_directory: entry.is_directory,
        modified: if entry.mtime.is_none() {
            String::from_str("unknown")
        } else {
            match written {
                Some(text) => text,
                None => String::from_str(now),
            }
        },
    }
}

/// What the calendar writes for the time of `entry`.
pub open spec fn written_time(entry: RemoteEntry) -> Option<Seq<char>> {
    match entry.mtime {
        Some(mtime) => utc_text(seconds_of(mtime), MINUTES_FORMAT@),
        None => None,
    }
}

/// The rows of `entries`, in their order.
pub fn file_items(entries: &Vec<RemoteEntry>, now: &str) -> (rows: Vec<FileItem>)
    ensures
        rows@.len() == entries@.len(),
        forall|i: int|
            0 <= i < rows@.len() ==> (#[trigger] rows@[i])@ == row_of(
                entries@[i],
                written_time(entries@[i]),
                now@,
            ),
{
    let mut rows: Vec<FileItem> = Vec::new();
    let mut i: usize = 0;
    while i < entries.len()
        invariant
            i <= entries.len(),
            rows@.len() == i,
            forall|j: int|
                0 <= j < i ==> (#[trigger] rows@[j])@ == row_of(
                    entries@[j],
                    written_time(entries@[j]),
                    now@,
                ),
        decreases entries.len() - i,
    {
        let written = match entries[i].mtime {
            Some(mtime) => format_utc(wrapped_seconds(mtime), MINUTES_FORMAT),
            None => None,
        };
        rows.push(file_item(&entries[i], written, now));
        i = i + 1;
    }
    rows
}

/// Whether the listing of `path` gets a row for the parent directory: every
/// path does but the root and the empty path.
pub open spec fn shows_parent(path: Seq<char>) -> bool {
    path != "/"@ && path.len() != 0
}

/// How many rows stand before the rows of the entries in the listing of
/// `path`.
pub open spec fn leading_rows(path: Seq<char>) -> int {
    if shows_parent(path) {
        1
    } else {
        0
    }
}

/// The row that leads to the parent directory, which lies at `parent`, or
/// at the root where no parent is known.
pub open spec fn parent_row(parent: Option<Seq<char>>) -> FileItemView {
    FileItemView {
        name: ".."@,
        path: match parent {
            Some(up) => up,
            None => "/"@,
        },
        size: 0,
        is_directory: true,
        modified: Seq::empty(),
    }
}

/// The listing of `path`: the row of the parent directory first, where the
/// listing has one, then `rows` in their order.
pub fn assemble_listing(path: &str, parent: Option<String>, rows: Vec<FileItem>) -> (listing: Vec<
    FileItem,
>)
    ensures
        listing@.len() == rows@.len() + leading_rows(path@),
        shows_parent(path@) ==> listing@[0]@ == parent_row(
            match parent {
                Some(up) => Some(up@),
                None => None,
            },
        ),
        listing@.skip(leading_rows(path@)) == rows@,
{
    let mut listing = rows;
    proof {
        reveal_strlit("");
        if path@.len() == 0 {
            assert(path@ =~= ""@);
        }
    }
    if !str_equal(path, "/") && !str_equal(path, "") {
        let up = FileItem {
            name: String::from_str(".."),
            path: match parent {
                Some(up) => up,
                None => String::from_str("/"),
            },
            size: 0,
            is_directory: true,
            modified: String::new(),
        };
        listing.insert(0, up);
    }
    listing
}

/// The listing of the directory `path` that holds `entries`, with `now` as
/// the present time in the format of the rows. The row of the parent
/// directory, where the listing has one, comes first and leads to whatever
/// the platform's path rules give as the parent of `path`; the rows of the
/// entries follow in their order.
pub fn directory_listing(path: &str, entries: &Vec<RemoteEntry>, now: &str) -> (listing: Vec<
    FileItem,
>)
    ensures
        listing@.len() == entries@.len() + leading_rows(path@),
        shows_parent(path@) ==> exists|parent: Option<Seq<char>>|
            listing@[0]@ == #[trigger] parent_row(parent),
        forall|i: int|
            leading_rows(path@) <= i < listing@.len() ==> (#[trigger] listing@[i])@ == row_of(
                entries@[i - leading_rows(path@)],
                written_time(entries@[i - leading_rows(path@)]),
                now@,
            ),
{
    let rows = file_items(entries, now);
    let parent = path_parent(path);
    let listing = assemble_listing(path, parent, rows);
    assert forall|i: int| leading_rows(path@) <= i < listing@.len() implies (
    #[trigger] listing@[i])@ == row_of(
        entries@[i - leading_rows(path@)],
        written_time(entries@[i - leading_rows(path@)]),
        now@,
    ) by {
        assert(listing@[i] == listing@.skip(leading_rows(path@))[i - leading_rows(path@)]);
    }
    listing
}

/// What a file is, for the file browser.
#[derive(Debug, Clone, PartialEq, Eq)]
pub struct FileInfo {
    pub name: String,
    pub path: String,
    pub is_directory: bool,
    pub size: u64,
    pub modified: Option<String>,
    pub permissions: Option<String>,
}

/// The details of a file as plain values.
pub struct FileInfoView {
    pub name: Seq<char>,
    pub path: Seq<char>,
    pub is_directory: bool,
    pub size: u64,
    pub modified: Option<Seq<char>>,
    pub permissions: Option<Seq<char>>,
}

impl View for FileInfo {
    type V = FileInfoView;

    open spec fn view(&self) -> FileInfoView {
        FileInfoView {
            name: self.name@,
            path: self.path@,
            is_directory: self.is_directory,
            size: self.size,
            modified: match self.modified {
                Some(text) => Some(text@),
                None => None,
            },
            permissions: match self.permissions {
                Some(text) => Some(text@),
                None => None,
            },
        }
    }
}

/// What the SFTP layer reports of a file.
#[derive(Debug, Clone, Copy, PartialEq, Eq, Structural)]
pub struct FileAttributes {
    pub is_directory: bool,
    pub size: Option<u64>,
    /// Seconds since the start of 1970 UTC.
    pub mtime: Option<u32>,
    /// The permission bits.
    pub permissions: Option<u32>,
}

/// `s` without the slashes at its end.
pub open spec fn without_trailing_slashes(s: Seq<char>) -> Seq<char>
    decreases s.len(),
{
    if s.len() > 0 && s.last() == '/' {
        without_trailing_slashes(s.drop_last())
    } else {
        s
    }
}

/// `path` without the slashes at its end.
pub fn trim_trailing_slashes(path: &str) -> (trimmed: &str)
    ensures
        trimmed@ == without_trailing_slashes(path@),
{
    let mut n: usize = path.unicode_len();
    assert(path@.subrange(0, n as int) =~= path@);
    while n > 0 && path.get_char(n - 1) == '/'
        invariant
            n <= path@.len(),
            without_trailing_slashes(path@) == without_trailing_slashes(
                path@.subrange(0, n as int),
            ),
        decreases n,
    {
        proof {
            assert(path@.subrange(0, n as int).drop_last() =~= path@.subrange(0, n - 1));
        }
        n = n - 1;
    }
    path.substring_char(0, n)
}

/// The path of the entry `name` of the directory `dir`.
pub open spec fn child_path(dir: Seq<char>, name: Seq<char>) -> Seq<char> {
    without_trailing_slashes(dir) + "/"@ + name
}

/// The details of a file from its attributes. `written` is what the
/// calendar wrote for its time.
pub open spec fn info_of(
    name: Seq<char>,
    path: Seq<char>,
    attrs: FileAttributes,
    written: Option<Seq<char>>,
) -> FileInfoView {
    FileInfoView {
        name,
        path,
        is_directory: attrs.is_directory,
        size: match attrs.size {
            Some(bytes) => bytes,
            None => 0,
        },
        modified: match attrs.mtime {
            Some(_) => Some(
                match written {
                    Some(text) => text,
                    None => Seq::empty(),
                },
            ),
            None => None,
        },
        permissions: match attrs.permissions {
            Some(bits) => Some(octal_of(bits as nat)),
            None => None,
        },
    }
}

/// The details of the file `name` at `path`. `written` is what the
/// calendar wrote for the file's time; a time that it cannot hold shows as
/// the empty text. Permissions show in octal.
pub fn file_info(name: String, path: String, attrs: FileAttributes, written: Option<String>)
    -> (info: FileInfo)
    ensures
        info@ == info_of(
            name@,
            path@,
            attrs,
            match written {
                Some(text) => Some(text@),
                None => None,
            },
        ),
{
    FileInfo {
        name,
        path,
        is_directory: attrs.is_directory,
        size: match attrs.size {
            Some(bytes) => bytes,
            None => 0,
        },
        modified: match attrs.mtime {
            Some(_) => Some(
                match written {
                    Some(text) => text,
                    None => String::new(),
                },
            ),
            None => None,
        },
        permissions: match attrs.permissions {
            Some(bits) => Some(octal_text(bits as u64)),
            None => None,
        },
    }
}

/// What the calendar writes for the time in `attrs`.
pub open spec fn written_for(attrs: FileAttributes) -> Option<Seq<char>> {
    match attrs.mtime {
        Some(mtime) => utc_text(mtime as i64, SECONDS_FORMAT@),
        None => None,
    }
}

/// The details of the file at `path`, whose last component, where the
/// platform's path rules find one that is text, is `last`; else the whole
/// path serves as the name.
pub fn get_file_info(path: &str, last: Option<String>, attrs: FileAttributes) -> (info: FileInfo)
    ensures
        info@ == info_of(
            match last {
                Some(name) => name@,
                None => path@,
            },
            path@,
            attrs,
            written_for(attrs),
        ),
{
    let written = match attrs.mtime {
        Some(mtime) => format_utc(mtime as i64, SECONDS_FORMAT),
        None => None,
    };
    let name = match last {
        Some(name) => name,
        None => String::from_str(path),
    };
    file_info(name, String::from_str(path), attrs, written)
}

/// The details of the entry `name` of the directory `dir`.
pub fn entry_info(dir: &str, name: &str, attrs: FileAttributes) -> (info: FileInfo)
    ensures
        info@ == info_of(name@, child_path(dir@, name@), attrs, written_for(attrs)),
{
    let written = match attrs.mtime {
        Some(mtime) => format_utc(mtime as i64, SECONDS_FORMAT),
        None => None,
    };
    let path = String::from_str(trim_trailing_slashes(dir)).concat("/").concat(name);
    file_info(String::from_str(name), path, attrs, written)
}

impl Ranked for FileInfo {
    /// Directories stand before files; among directories and among files
    /// the names decide, in the order of strings.
    open spec fn ranks_before(&self, other: &Self) -> bool {
        if self.is_directory != other.is_directory {
            self.is_directory
        } else {
            text_le(self.name@, other.name@)
        }
    }

    fn goes_before(&self, other: &Self) -> (before: bool) {
        if self.is_directory != other.is_directory {
            self.is_directory
        } else {
            text_not_after(self.name.as_str(), other.name.as_str())
        }
    }

    proof fn rank_is_total(a: &Self, b: &Self) {
        lemma_text_le_total(a.name@, b.name@);
    }

    proof fn rank_is_transitive(a: &Self, b: &Self, c: &Self) {
        if a.is_directory == b.is_directory && b.is_directory == c.is_directory {
            lemma_text_le_transitive(a.name@, b.name@, c.name@);
        }
    }
}

/// The listing of the directory `dir` for the file browser: directories
/// first, then files, each group by name; entries of the same kind and name
/// stay in the order in which the server gave them.
pub fn list_directory(dir: &str, entries: &Vec<(String, FileAttributes)>) -> (files: Vec<FileInfo>)
    ensures
        exists|unsorted: Seq<FileInfo>|
            {
                &&& unsorted.len() == entries@.len()
                &&& forall|i: int|
                    0 <= i < unsorted.len() ==> (#[trigger] unsorted[i])@ == info_of(
                        entries@[i].0@,
                        child_path(dir@, entries@[i].0@),
                        entries@[i].1,
                        written_for(entries@[i].1),
                    )
                &&& files@ == sorted_of(unsorted)
            },
{
    let mut unsorted: Vec<FileInfo> = Vec::new();
    let mut i: usize = 0;
    while i < entries.len()
        invariant
            i <= entries.len(),
            unsorted@.len() == i,
            forall|j: int|
                0 <= j < i ==> (#[trigger] unsorted@[j])@ == info_of(
                    entries@[j].0@,
                    child_path(dir@, entries@[j].0@),
                    entries@[j].1,
                    written_for(entries@[j].1),
                ),
        decreases entries.len() - i,
    {
        unsorted.push(entry_info(dir, entries[i].0.as_str(), entries[i].1));
        i = i + 1;
    }
    sort_ranked(unsorted)
}

/// What a file transfer outside a terminal session authenticates with.
#[derive(Debug, Clone, PartialEq, Eq)]
pub enum TransferAuth {
    Password(String),
    KeyFile(String),
    Agent,
}

/// Why a file transfer cannot authenticate.
#[derive(Debug, Clone, Copy, PartialEq, Eq, Structural)]
pub enum TransferRefused {
    /// The session asks for a password, and none was typed.
    PasswordNeeded,
}

/// What a file transfer for a session that authenticates by `method`
/// authenticates with. A password that the user typed is used whatever the
/// session says; without one the session decides, and a password session
/// is refused.
pub fn transfer_auth(method: &crate::AuthMethod, password: Option<String>) -> (auth: Result<
    TransferAuth,
    TransferRefused,
>)
    ensures
        match password {
            Some(typed) => auth matches Ok(TransferAuth::Password(secret)) && secret == typed,
            None => match method {
                crate::AuthMethod::Password => auth == Err::<TransferAuth, TransferRefused>(
                    TransferRefused::PasswordNeeded,
                ),
                crate::AuthMethod::PublicKey { key_path } => auth matches Ok(
                    TransferAuth::KeyFile(path),
                ) && path@ == key_path@,
                crate::AuthMethod::Agent => auth matches Ok(TransferAuth::Agent),
            },
        },
{
    match password {
        Some(typed) => Ok(TransferAuth::Password(typed)),
        None => match method {
            crate::AuthMethod::Password => Err(TransferRefused::PasswordNeeded),
            crate::AuthMethod::PublicKey { key_path } => Ok(
                TransferAuth::KeyFile(key_path.clone()),
            ),
            crate::AuthMethod::Agent => Ok(TransferAuth::Agent),
        },
    }
}

/// How a remote path is removed.
#[derive(Debug, Clone, Copy, PartialEq, Eq, Structural)]
pub enum Removal {
    /// Remove the directory.
    Directory,
    /// Unlink the file.
    File,
}

/// How the path is removed: a directory as a directory, anything else as a
/// file.
pub fn removal_for(is_directory: bool) -> (how: Removal)
    ensures
        how == if is_directory {
            Removal::Directory
        } else {
            Removal::File
        },
{
    if is_directory {
        Removal::Directory
    } else {
        Removal::File
    }
}

/// The line that reports a removal.
pub fn removal_message(how: Removal, remote_path: &str) -> (line: String)
    ensures
        line@ == match how {
            Removal::Directory => "Directory "@ + remote_path@ + " removed successfully"@,
            Removal::File => "File "@ + remote_path@ + " removed successfully"@,
        },
{
    match how {
        Removal::Directory => String::from_str("Directory ").concat(remote_path).concat(
            " removed successfully",
        ),
        Removal::File => String::from_str("File ").concat(remote_path).concat(
            " removed successfully",
        ),
    }
}

} // verus!
