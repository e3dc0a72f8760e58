//! Path arithmetic on `/`-separated paths.

use vstd::prelude::*;
use vstd::string::*;

verus! {

/// Index of the last `sep` in `s`, or -1 where `s` holds none.
pub open spec fn last_index_of(s: Seq<char>, sep: char) -> int
    decreases s.len(),
{
    if s.len() == 0 {
        -1
    } else if s.last() == sep {
        s.len() - 1
    } else {
        last_index_of(s.drop_last(), sep)
    }
}

/// The final component of a `/`-separated path: what follows the last `/`,
/// or the whole path where it holds no `/`.
pub open spec fn file_name_of(path: Seq<char>) -> Seq<char> {
    path.subrange(last_index_of(path, '/') + 1, path.len() as int)
}

/// `last_index_of` is the one index that holds `sep` with no `sep` after it.
pub proof fn lemma_last_index_of(s: Seq<char>, sep: char, k: int)
    requires
        -1 <= k < s.len(),
        k >= 0 ==> s[k] == sep,
        forall|j: int| k < j < s.len() ==> s[j] != sep,
    ensures
        last_index_of(s, sep) == k,
    decreases s.len(),
{
    if s.len() > 0 && s.last() != sep {
        lemma_last_index_of(s.drop_last(), sep, k);
    }
}

/// The final component of `path`.
pub fn get_filename_from_path(path: &str) -> (name: &str)
    ensures
        name@ == file_name_of(path@),
{
    let n: usize = path.unicode_len();
    let mut i: usize = n;
    while i > 0 && path.get_char(i - 1) != '/'
        invariant
            i <= n,
            n == path@.len(),
            forall|j: int| i <= j < n ==> path@[j] != '/',
        decreases i,
    {
        i = i - 1;
    }
    proof {
        lemma_last_index_of(path@, '/', i as int - 1);
    }
    path.substring_char(i, n)
}

/// `path` with a leading `~/` replaced by `home` and a `/`; any other path
/// unchanged.
pub open spec fn expand_home_of(path: Seq<char>, home: Seq<char>) -> Seq<char> {
    if path.len() >= 2 && path[0] == '~' && path[1] == '/' {
        home + path.subrange(1, path.len() as int)
    } else {
        path
    }
}

/// Resolves a leading `~/` against the home directory `home`.
pub fn expand_home(path: &str, home: &str) -> (full: String)
    ensures
        full@ == expand_home_of(path@, home@),
{
    let n: usize = path.unicode_len();
    if n >= 2 && path.get_char(0) == '~' && path.get_char(1) == '/' {
        String::from_str(home).concat(path.substring_char(1, n))
    } else {
        String::from_str(path)
    }
}

/// Where a conventional key named `name` lies under `home`.
pub open spec fn conventional_key_of(home: Seq<char>, name: Seq<char>) -> Seq<char> {
    home + "/.ssh/"@ + name
}

/// The path of the conventional key file `name` in the `.ssh` directory of
/// `home`.
pub fn conventional_key_path(home: &str, name: &str) -> (full: String)
    ensures
        full@ == conventional_key_of(home@, name@),
{
    String::from_str(home).concat("/.ssh/").concat(name)
}

/// The home directory: the one that the environment names, and the root
/// where it names none.
pub fn get_home_directory(from_environment: Option<String>) -> (home: String)
    ensures
        home@ == match from_environment {
            Some(dir) => dir@,
            None => "/"@,
        },
{
    match from_environment {
        Some(dir) => dir,
        None => String::from_str("/"),
    }
}

/// The `.ssh` directory of the home directory `home`, and the empty path
/// where no home directory is known.
pub fn ssh_directory(home: Option<&str>) -> (dir: String)
    ensures
        dir@ == match home {
            Some(base) => base@ + "/.ssh"@,
            None => Seq::<char>::empty(),
        },
{
    match home {
        Some(base) => String::from_str(base).concat("/.ssh"),
        None => String::new(),
    }
}

} // verus!
