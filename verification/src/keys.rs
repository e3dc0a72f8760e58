//! Local SSH key files: which files of the `.ssh` directory are keys, what a
//! public key line holds, what kind of key to generate, and how a key is
//! shown.
//!
//! Reading and writing the files, and the cryptography itself, are done by
//! the program around this library; it hands in what it found.

use vstd::prelude::*;
use vstd::string::*;
use crate::calendar::{timestamp_text, utc_text, STAMP_FORMAT};
use crate::order::{sort_ranked, sorted_of, Ranked};
use crate::text::{
    has_suffix, ends_with, lemma_text_le_total, lemma_text_le_transitive, str_equal, text_le,
    text_not_after, to_chars,
};

verus! {

/// A key file as the key manager shows it.
#[derive(Debug, Clone, PartialEq, Eq)]
pub struct SshKey {
    pub name: String,
    pub path: String,
    pub public_key_path: String,
    pub fingerprint: String,
    pub key_type: String,
    pub has_passphrase: bool,
    pub created_at: String,
}

/// Why a request about keys was refused.
#[derive(Debug, Clone, PartialEq, Eq)]
pub enum KeyError {
    /// The home directory is not known.
    NoHomeDirectory,
    /// A public key line with fewer than two fields.
    InvalidPublicKey,
    /// The key data of a public key line is not base64.
    InvalidKeyData,
    /// A key type other than `rsa`, `ed25519` and `ecdsa`.
    UnsupportedKeyType(String),
    /// The key has no public key file.
    PublicKeyNotFound,
}

/// The kind of key to generate.
#[derive(Debug, Clone, Copy, PartialEq, Eq, Structural)]
pub enum KeyKind {
    Rsa { bits: u32 },
    Ed25519,
    Ecdsa,
}

/// Bits of an RSA key where the caller names no size.
pub const DEFAULT_RSA_BITS: u32 = 2048;

/// What base64 decodes `text` to under the standard alphabet with padding;
/// `None` where `text` is not such base64.
pub uninterp spec fn base64_decoded(text: Seq<char>) -> Option<Seq<u8>>;

/// Calls `decode` of the base64 crate's `STANDARD` engine on `text`. The
/// result depends on `text` alone.
#[verifier::external_body]
fn decode_base64(text: &str) -> (bytes: Option<Vec<u8>>)
    ensures
        match bytes {
            Some(decoded) => base64_decoded(text@) == Some(decoded@),
            None => base64_decoded(text@) is None,
        },
{
    match base64::Engine::decode(&base64::engine::general_purpose::STANDARD, text) {
        Ok(decoded) => Some(decoded),
        Err(_) => None,
    }
}

/// `text` in lower case, as `str::to_lowercase` gives it.
pub uninterp spec fn lowercase_of(text: Seq<char>) -> Seq<char>;

/// Calls `str::to_lowercase` on `text`. The result depends on `text` alone.
#[verifier::external_body]
fn lowercase(text: &str) -> (lower: String)
    ensures
        lower@ == lowercase_of(text@),
{
    text.to_lowercase()
}

/// Calls `std::hash::BuildHasher::hash_one` on `bytes`, with the builder of
/// `std::collections::hash_map::DefaultHasher`. The algorithm of that
/// hasher is not fixed, so nothing is claimed of the number.
#[verifier::external_body]
fn hash_bytes(bytes: &[u8]) -> (hash: u64) {
    let builder =
        std::hash::BuildHasherDefault::<std::collections::hash_map::DefaultHasher>::default();
    std::hash::BuildHasher::hash_one(&builder, bytes)
}

/// Calls `std::path::Path::with_extension` on `path` with the extension
/// `pub`, and hands the result back as text. What counts as the file name
/// of a path depends on the platform; nothing is claimed.
#[verifier::external_body]
fn with_pub_extension(path: &str) -> (public: String) {
    std::path::Path::new(path).with_extension("pub").to_string_lossy().to_string()
}

/// Whether `c` is white space in the sense of Unicode.
pub open spec fn is_space(c: char) -> bool {
    let u = c as u32;
    0x09 <= u <= 0x0d || u == 0x20 || u == 0x85 || u == 0xa0 || u == 0x1680 || 0x2000 <= u
        <= 0x200a || u == 0x2028 || u == 0x2029 || u == 0x202f || u == 0x205f || u == 0x3000
}

/// Whether `c` is white space.
pub fn is_whitespace(c: char) -> (space: bool)
    ensures
        space == is_space(c),
{
    let u = c as u32;
    0x09 <= u && u <= 0x0d || u == 0x20 || u == 0x85 || u == 0xa0 || u == 0x1680 || 0x2000 <= u
        && u <= 0x200a || u == 0x2028 || u == 0x2029 || u == 0x202f || u == 0x205f || u == 0x3000
}

/// How many characters stand at the start of `s` before the first white
/// space.
pub open spec fn word_len(s: Seq<char>) -> int
    decreases s.len(),
{
    if s.len() == 0 || is_space(s[0]) {
        0
    } else {
        1 + word_len(s.drop_first())
    }
}

/// The words of `s`: its longest runs of characters that are not white
/// space, in order.
pub open spec fn words_of(s: Seq<char>) -> Seq<Seq<char>>
    decreases s.len(),
{
    if s.len() == 0 {
        Seq::empty()
    } else if is_space(s[0]) {
        words_of(s.drop_first())
    } else {
        proof {
            lemma_word_len_bounds(s);
        }
        seq![s.take(word_len(s))] + words_of(s.skip(word_len(s)))
    }
}

/// A word is no longer than the text that it begins, and is not empty
/// where the text begins with something other than white space.
pub proof fn lemma_word_len_bounds(s: Seq<char>)
    ensures
        0 <= word_len(s) <= s.len(),
        s.len() > 0 && !is_space(s[0]) ==> word_len(s) > 0,
    decreases s.len(),
{
    if s.len() > 0 && !is_space(s[0]) {
        lemma_word_len_bounds(s.drop_first());
    }
}

/// The words of `text`.
pub fn split_words(text: &str) -> (words: Vec<String>)
    ensures
        words@.map_values(|w: String| w@) == words_of(text@),
{
    let chars = to_chars(text);
    let n = chars.len();
    let mut words: Vec<String> = Vec::new();
    let mut i: usize = 0;
    assert(text@.skip(0) =~= text@);
    while i < n
        invariant
            i <= n,
            n == text@.len(),
            chars@ == text@,
            words@.map_values(|w: String| w@) + words_of(text@.skip(i as int)) == words_of(text@),
        decreases n - i,
    {
        let ghost rest = text@.skip(i as int);
        proof {
            assert(rest.drop_first() =~= text@.skip(i + 1));
        }
        if is_whitespace(chars[i]) {
            i = i + 1;
        } else {
            let mut j: usize = i + 1;
            proof {
                lemma_word_len_bounds(rest.drop_first());
            }
            while j < n && !is_whitespace(chars[j])
                invariant
                    i < j <= n,
                    n == text@.len(),
                    chars@ == text@,
                    rest == text@.skip(i as int),
                    word_len(rest) == (j - i) + word_len(text@.skip(j as int)),
                decreases n - j,
            {
                proof {
                    let tail = text@.skip(j as int);
                    assert(tail.drop_first() =~= text@.skip(j + 1));
                }
                j = j + 1;
            }
            proof {
                assert(rest.take(j - i) =~= text@.subrange(i as int, j as int));
                assert(rest.skip(j - i) =~= text@.skip(j as int));
            }
            let word = String::from_str(text.substring_char(i, j));
            words.push(word);
            i = j;
        }
    }
    words
}

/// What a public key line holds: the key type, then the key data in base64.
/// Anything after the second field is a comment.
pub open spec fn public_key_fields_of(line: Seq<char>) -> Option<(Seq<char>, Seq<char>)> {
    let words = words_of(line);
    if words.len() < 2 {
        None
    } else {
        Some((words[0], words[1]))
    }
}

/// Splits a public key line into its key type and its key data.
pub fn public_key_fields(line: &str) -> (fields: Result<(String, String), KeyError>)
    ensures
        match fields {
            Ok(pair) => public_key_fields_of(line@) == Some((pair.0@, pair.1@)),
            Err(error) => public_key_fields_of(line@) is None && error
                == KeyError::InvalidPublicKey,
        },
{
    let mut words = split_words(line);
    if words.len() < 2 {
        return Err(KeyError::InvalidPublicKey);
    }
    let data = words.swap_remove(1);
    let kind = words.swap_remove(0);
    Ok((kind, data))
}

/// Reads a public key line that is known to have its two fields: the key
/// type as it stands, and the key data decoded from base64. `decoded` is
/// what the base64 decoder made of the key data.
pub fn checked_public_key(kind: String, decoded: Option<Vec<u8>>) -> (key: Result<
    (String, Vec<u8>),
    KeyError,
>)
    ensures
        match decoded {
            Some(bytes) => key matches Ok(pair) && pair.0 == kind && pair.1 == bytes,
            None => key == Err::<(String, Vec<u8>), KeyError>(KeyError::InvalidKeyData),
        },
{
    match decoded {
        Some(bytes) => Ok((kind, bytes)),
        None => Err(KeyError::InvalidKeyData),
    }
}

/// Reads a public key line: its key type, and its key data as bytes. A line
/// with fewer than two fields is refused, and so is key data that is not
/// base64.
pub fn parse_public_key(line: &str) -> (key: Result<(String, Vec<u8>), KeyError>)
    ensures
        match public_key_fields_of(line@) {
            None => key == Err::<(String, Vec<u8>), KeyError>(KeyError::InvalidPublicKey),
            Some(fields) => match base64_decoded(fields.1) {
                Some(bytes) => key matches Ok(pair) && pair.0@ == fields.0 && pair.1@ == bytes,
                None => key == Err::<(String, Vec<u8>), KeyError>(KeyError::InvalidKeyData),
            },
        },
{
    match public_key_fields(line) {
        Err(error) => Err(error),
        Ok(fields) => {
            let decoded = decode_base64(fields.1.as_str());
            checked_public_key(fields.0, decoded)
        },
    }
}

/// The character of a hexadecimal digit, in lower case.
pub open spec fn hex_digit_of(d: nat) -> char {
    if d == 0 {
        '0'
    } else if d == 1 {
        '1'
    } else if d == 2 {
        '2'
    } else if d == 3 {
        '3'
    } else if d == 4 {
        '4'
    } else if d == 5 {
        '5'
    } else if d == 6 {
        '6'
    } else if d == 7 {
        '7'
    } else if d == 8 {
        '8'
    } else if d == 9 {
        '9'
    } else if d == 10 {
        'a'
    } else if d == 11 {
        'b'
    } else if d == 12 {
        'c'
    } else if d == 13 {
        'd'
    } else if d == 14 {
        'e'
    } else {
        'f'
    }
}

/// The last `width` hexadecimal digits of `n`, zeros at the front included.
pub open spec fn hex_of(n: nat, width: nat) -> Seq<char>
    decreases width,
{
    if width == 0 {
        Seq::empty()
    } else {
        hex_of(n / 16, (width - 1) as nat).push(hex_digit_of(n % 16))
    }
}

fn hex_digit_text(d: u64) -> (text: &'static str)
    requires
        d < 16,
    ensures
        text@ == seq![hex_digit_of(d as nat)],
{
    proof {
        reveal_strlit("0");
        reveal_strlit("1");
        reveal_strlit("2");
        reveal_strlit("3");
        reveal_strlit("4");
        reveal_strlit("5");
        reveal_strlit("6");
        reveal_strlit("7");
        reveal_strlit("8");
        reveal_strlit("9");
        reveal_strlit("a");
        reveal_strlit("b");
        reveal_strlit("c");
        reveal_strlit("d");
        reveal_strlit("e");
        reveal_strlit("f");
    }
    let text = if d == 0 {
        "0"
    } else if d == 1 {
        "1"
    } else if d == 2 {
        "2"
    } else if d == 3 {
        "3"
    } else if d == 4 {
        "4"
    } else if d == 5 {
        "5"
    } else if d == 6 {
        "6"
    } else if d == 7 {
        "7"
    } else if d == 8 {
        "8"
    } else if d == 9 {
        "9"
    } else if d == 10 {
        "a"
    } else if d == 11 {
        "b"
    } else if d == 12 {
        "c"
    } else if d == 13 {
        "d"
    } else if d == 14 {
        "e"
    } else {
        "f"
    };
    text
}

fn hex_text(n: u64, width: u8) -> (text: String)
    ensures
        text@ == hex_of(n as nat, width as nat),
    decreases width,
{
    if width == 0 {
        String::new()
    } else {
        let text = hex_text(n / 16, width - 1).concat(hex_digit_text(n % 16));
        text
    }
}

/// The fingerprint that is shown for a key whose public key hashes to
/// `hash`: the mark `SHA256:` and the hash as sixteen hexadecimal digits.
pub fn fingerprint_text(hash: u64) -> (fingerprint: String)
    ensures
        fingerprint@ == "SHA256:"@ + hex_of(hash as nat, 16),
{
    String::from_str("SHA256:").concat(hex_text(hash, 16).as_str())
}

/// The fingerprint that is shown for the public key `public_key`, given in
/// the form in which it stands in a public key file. It is the mark
/// `SHA256:` and sixteen hexadecimal digits, whatever the hasher makes of
/// the key.
pub fn calculate_fingerprint(public_key: &[u8]) -> (fingerprint: String)
    ensures
        exists|hash: u64| fingerprint@ == "SHA256:"@ + #[trigger] hex_of(hash as nat, 16),
{
    let hash = hash_bytes(public_key);
    fingerprint_text(hash)
}

/// The kind of key that the key type `lower`, given in lower case, and the
/// size `bits` ask for.
pub open spec fn key_kind_of(lower: Seq<char>, bits: Option<u32>) -> Option<KeyKind> {
    if lower == "rsa"@ {
        Some(
            KeyKind::Rsa {
                bits: match bits {
                    Some(n) => n,
                    None => DEFAULT_RSA_BITS,
                },
            },
        )
    } else if lower == "ed25519"@ {
        Some(KeyKind::Ed25519)
    } else if lower == "ecdsa"@ {
        Some(KeyKind::Ecdsa)
    } else {
        None
    }
}

/// Picks the kind of key to generate from a key type that is already in
/// lower case. An RSA key has 2048 bits where no size is named. `asked` is
/// the key type as the caller wrote it, for the error.
pub fn key_kind(lower: &str, bits: Option<u32>, asked: &str) -> (kind: Result<KeyKind, KeyError>)
    ensures
        match key_kind_of(lower@, bits) {
            Some(k) => kind == Ok::<KeyKind, KeyError>(k),
            None => kind matches Err(KeyError::UnsupportedKeyType(name)) && name@ == asked@,
        },
{
    if str_equal(lower, "rsa") {
        Ok(
            KeyKind::Rsa {
                bits: match bits {
                    Some(n) => n,
                    None => DEFAULT_RSA_BITS,
                },
            },
        )
    } else if str_equal(lower, "ed25519") {
        Ok(KeyKind::Ed25519)
    } else if str_equal(lower, "ecdsa") {
        Ok(KeyKind::Ecdsa)
    } else {
        Err(KeyError::UnsupportedKeyType(String::from_str(asked)))
    }
}

/// Picks the kind of key to generate from the key type `key_type`, in
/// whatever case it is written.
pub fn parse_key_kind(key_type: &str, bits: Option<u32>) -> (kind: Result<KeyKind, KeyError>)
    ensures
        match key_kind_of(lowercase_of(key_type@), bits) {
            Some(k) => kind == Ok::<KeyKind, KeyError>(k),
            None => kind matches Err(KeyError::UnsupportedKeyType(name)) && name@ == key_type@,
        },
{
    let lower = lowercase(key_type);
    key_kind(lower.as_str(), bits, key_type)
}

/// Whether a file of the `.ssh` directory named `name` is looked at as a
/// private key: not a public key file, and not one of the files that ssh
/// keeps there for itself.
pub open spec fn may_be_key(name: Seq<char>) -> bool {
    !ends_with(name, ".pub"@) && name != "known_hosts"@ && name != "config"@ && name
        != "authorized_keys"@
}

/// Whether the entry `file_name` of the `.ssh` directory is looked at as a
/// private key. Only files are.
pub fn is_key_candidate(file_name: &str, is_file: bool) -> (candidate: bool)
    ensures
        candidate == (is_file && may_be_key(file_name@)),
{
    is_file && !has_suffix(file_name, ".pub") && !str_equal(file_name, "known_hosts")
        && !str_equal(file_name, "config") && !str_equal(file_name, "authorized_keys")
}

/// What is known of a key: its fingerprint and its type.
#[derive(Debug, Clone, PartialEq, Eq)]
pub struct KeyIdentity {
    pub fingerprint: String,
    pub key_type: String,
}

/// Where the identity of a key comes from.
#[derive(Debug, PartialEq, Eq)]
pub enum IdentitySource {
    /// The key has a public key file, and reading it gave this.
    PublicFile(Result<KeyIdentity, KeyError>),
    /// The key has no public key file; the private key, where it could be
    /// read without a passphrase, gave this.
    PrivateKey(Option<KeyIdentity>),
}

/// The identity that is shown for a key. A public key file decides where
/// there is one, and a failure to read it is a failure. Without one, a key
/// under a passphrase shows as `encrypted`, and a key that gave nothing as
/// `unknown`.
pub fn key_identity(has_passphrase: bool, source: IdentitySource) -> (shown: Result<
    KeyIdentity,
    KeyError,
>)
    ensures
        match source {
            IdentitySource::PublicFile(Ok(identity)) => shown == Ok::<KeyIdentity, KeyError>(
                identity,
            ),
            IdentitySource::PublicFile(Err(error)) => shown == Err::<KeyIdentity, KeyError>(error),
            IdentitySource::PrivateKey(derived) => shown matches Ok(identity) && if has_passphrase {
                identity.fingerprint@ == "encrypted"@ && identity.key_type@ == "unknown"@
            } else {
                match derived {
                    Some(found) => identity == found,
                    None => identity.fingerprint@ == "unknown"@ && identity.key_type@
                        == "unknown"@,
                }
            },
        },
{
    match source {
        IdentitySource::PublicFile(read) => read,
        IdentitySource::PrivateKey(derived) => {
            if has_passphrase {
                Ok(
                    KeyIdentity {
                        fingerprint: String::from_str("encrypted"),
                        key_type: String::from_str("unknown"),
                    },
                )
            } else {
                match derived {
                    Some(found) => Ok(found),
                    None => Ok(
                        KeyIdentity {
                            fingerprint: String::from_str("unknown"),
                            key_type: String::from_str("unknown"),
                        },
                    ),
                }
            }
        },
    }
}

/// The line of a public key file: key type, key data in base64, and a
/// comment, with a line end.
pub fn public_key_line(key_type: &str, base64_data: &str, comment: &str) -> (line: String)
    ensures
        line@ == key_type@ + " "@ + base64_data@ + " "@ + comment@ + "\n"@,
{
    String::from_str(key_type).concat(" ").concat(base64_data).concat(" ").concat(comment).concat(
        "\n",
    )
}

/// The key manager: it knows where the key files lie.
pub struct KeyManager {
    ssh_dir: String,
}

impl KeyManager {
    /// A key manager for the `.ssh` directory under `home`. Without a home
    /// directory there is none.
    pub fn new(home: Option<&str>) -> (manager: Result<KeyManager, KeyError>)
        ensures
            match home {
                Some(dir) => manager matches Ok(m) && m.ssh_dir()@ == dir@ + "/.ssh"@,
                None => manager matches Err(KeyError::NoHomeDirectory),
            },
    {
        match home {
            Some(dir) => Ok(KeyManager { ssh_dir: String::from_str(dir).concat("/.ssh") }),
            None => Err(KeyError::NoHomeDirectory),
        }
    }

    /// The directory of the key files.
    pub closed spec fn ssh_dir(&self) -> String {
        self.ssh_dir
    }

    /// The directory of the key files.
    pub fn directory(&self) -> (dir: &str)
        ensures
            dir@ == self.ssh_dir()@,
    {
        self.ssh_dir.as_str()
    }

    /// Where the private key named `name` lies, and where its public key:
    /// the private key in the key directory, the public key beside it under
    /// the extension `pub`, as the platform's path rules give it.
    pub fn key_paths(&self, name: &str) -> (paths: (String, String))
        ensures
            paths.0@ == self.ssh_dir()@ + "/"@ + name@,
    {
        let private = self.ssh_dir.clone().concat("/").concat(name);
        let public = with_pub_extension(private.as_str());
        (private, public)
    }

    /// What is to be done to generate the key `name`: the kind of key, the
    /// two files to write, and whether the private key is written under a
    /// passphrase. A key type other than `rsa`, `ed25519` and `ecdsa`, in
    /// whatever case, is refused.
    pub fn generate_key(
        &self,
        name: &str,
        key_type: &str,
        bits: Option<u32>,
        passphrase: Option<&str>,
    ) -> (request: Result<KeyRequest, KeyError>)
        ensures
            match key_kind_of(lowercase_of(key_type@), bits) {
                Some(kind) => request matches Ok(r) && r.kind == kind && r.private_path@
                    == self.ssh_dir()@ + "/"@ + name@ && r.encrypted == (passphrase is Some),
                None => request matches Err(KeyError::UnsupportedKeyType(asked)) && asked@
                    == key_type@,
            },
    {
        match parse_key_kind(key_type, bits) {
            Ok(kind) => {
                let paths = self.key_paths(name);
                Ok(
                    KeyRequest {
                        kind,
                        private_path: paths.0,
                        public_path: paths.1,
                        encrypted: passphrase.is_some(),
                    },
                )
            },
            Err(error) => Err(error),
        }
    }

    /// The record of the key file at `private_path`, from what was found
    /// out about it: whether it is under a passphrase, where its identity
    /// comes from, and when it was made, in seconds since the start of 1970
    /// UTC. A public key file that cannot be read is a failure. A key whose
    /// age is not known, or lies outside the calendar, shows as `unknown`.
    pub fn analyze_key(
        &self,
        name: Option<String>,
        private_path: &str,
        has_passphrase: bool,
        source: IdentitySource,
        created_secs: Option<i64>,
    ) -> (key: Result<SshKey, KeyError>)
        ensures
            match source {
                IdentitySource::PublicFile(Err(error)) => key == Err::<SshKey, KeyError>(error),
                _ => key matches Ok(record) && record.path@ == private_path@
                    && record.has_passphrase == has_passphrase && record.name@ == (match name {
                    Some(text) => text@,
                    None => "unknown"@,
                }) && record.created_at@ == (match created_secs {
                    Some(secs) => match utc_text(secs, STAMP_FORMAT@) {
                        Some(written) => written,
                        None => "unknown"@,
                    },
                    None => "unknown"@,
                }) && (match source {
                    IdentitySource::PublicFile(Ok(identity)) => record.fingerprint
                        == identity.fingerprint && record.key_type == identity.key_type,
                    IdentitySource::PrivateKey(Some(identity)) => if has_passphrase {
                        record.fingerprint@ == "encrypted"@ && record.key_type@ == "unknown"@
                    } else {
                        record.fingerprint == identity.fingerprint && record.key_type
                            == identity.key_type
                    },
                    _ => record.fingerprint@ == (if has_passphrase {
                        "encrypted"@
                    } else {
                        "unknown"@
                    }) && record.key_type@ == "unknown"@,
                }),
            },
    {
        match key_identity(has_passphrase, source) {
            Err(error) => Err(error),
            Ok(identity) => {
                let created_at = match created_secs {
                    Some(secs) => timestamp_text(secs),
                    None => String::from_str("unknown"),
                };
                let public = with_pub_extension(private_path);
                Ok(
                    key_record(
                        name,
                        String::from_str(private_path),
                        public,
                        identity,
                        has_passphrase,
                        created_at,
                    ),
                )
            },
        }
    }

    /// The files to remove for the key at `key_path`: the private key, and
    /// the public key beside it. Each is removed only where it exists.
    pub fn delete_key(&self, key_path: &str) -> (files: (String, String))
        ensures
            files.0@ == key_path@,
    {
        (String::from_str(key_path), with_pub_extension(key_path))
    }

    /// The public key of a key, from what its public key file holds; a key
    /// without such a file is refused.
    pub fn get_public_key_content(&self, content: Option<String>) -> (public: Result<
        String,
        KeyError,
    >)
        ensures
            match content {
                Some(text) => public == Ok::<String, KeyError>(text),
                None => public == Err::<String, KeyError>(KeyError::PublicKeyNotFound),
            },
    {
        match content {
            Some(text) => Ok(text),
            None => Err(KeyError::PublicKeyNotFound),
        }
    }

    /// The keys in the order in which they are listed: by name; keys of the
    /// same name stay in the order in which they were found.
    pub fn list_keys(&self, found: Vec<SshKey>) -> (listed: Vec<SshKey>)
        ensures
            listed@ == sorted_of(found@),
    {
        sort_ranked(found)
    }
}

/// What is to be done to generate a key.
#[derive(Debug, Clone, PartialEq, Eq)]
pub struct KeyRequest {
    pub kind: KeyKind,
    pub private_path: String,
    pub public_path: String,
    /// Whether the private key is written under a passphrase.
    pub encrypted: bool,
}

/// The record of a key: what is shown for the key file `name` at `path`
/// with the given identity.
pub fn key_record(
    name: Option<String>,
    path: String,
    public_key_path: String,
    identity: KeyIdentity,
    has_passphrase: bool,
    created_at: String,
) -> (key: SshKey)
    ensures
        key.name@ == match name {
            Some(text) => text@,
            None => "unknown"@,
        },
        key.path == path,
        key.public_key_path == public_key_path,
        key.fingerprint == identity.fingerprint,
        key.key_type == identity.key_type,
        key.has_passphrase == has_passphrase,
        key.created_at == created_at,
{
    SshKey {
        name: match name {
            Some(text) => text,
            None => String::from_str("unknown"),
        },
        path,
        public_key_path,
        fingerprint: identity.fingerprint,
        key_type: identity.key_type,
        has_passphrase,
        created_at,
    }
}

impl Ranked for SshKey {
    /// Keys stand in the order of their names.
    open spec fn ranks_before(&self, other: &Self) -> bool {
        text_le(self.name@, other.name@)
    }

    fn goes_before(&self, other: &Self) -> (before: bool) {
        text_not_after(self.name.as_str(), other.name.as_str())
    }

    proof fn rank_is_total(a: &Self, b: &Self) {
        lemma_text_le_total(a.name@, b.name@);
    }

    proof fn rank_is_transitive(a: &Self, b: &Self, c: &Self) {
        lemma_text_le_transitive(a.name@, b.name@, c.name@);
    }
}

} // verus!
