use ssh_engine::paths::{
    conventional_key_path, expand_home, get_filename_from_path, get_home_directory,
};
use ssh_engine::store::get_default_ssh_key_path;

#[test]
fn file_name_is_what_follows_the_last_slash() {
    assert_eq!(get_filename_from_path("/home/alice/.ssh/id_rsa"), "id_rsa");
    assert_eq!(get_filename_from_path("id_rsa"), "id_rsa");
    assert_eq!(get_filename_from_path("/home/alice/"), "");
    assert_eq!(get_filename_from_path(""), "");
    assert_eq!(get_filename_from_path("/"), "");
    assert_eq!(get_filename_from_path("a/b\\c"), "b\\c");
}

#[test]
fn file_name_counts_characters_not_bytes() {
    assert_eq!(get_filename_from_path("/tmp/schlüssel/ключ"), "ключ");
}

#[test]
fn a_leading_tilde_is_the_home_directory() {
    assert_eq!(expand_home("~/.ssh/id_rsa", "/home/alice"), "/home/alice/.ssh/id_rsa");
    assert_eq!(expand_home("~/", "/home/alice"), "/home/alice/");
}

#[test]
fn other_paths_are_left_alone() {
    assert_eq!(expand_home("/etc/keys/id_rsa", "/home/alice"), "/etc/keys/id_rsa");
    assert_eq!(expand_home("~", "/home/alice"), "~");
    assert_eq!(expand_home("~alice/key", "/home/alice"), "~alice/key");
    assert_eq!(expand_home("", "/home/alice"), "");
    assert_eq!(expand_home("keys/~/id", "/home/alice"), "keys/~/id");
}

#[test]
fn conventional_keys_lie_in_dot_ssh() {
    assert_eq!(conventional_key_path("/home/alice", "id_rsa"), "/home/alice/.ssh/id_rsa");
    assert_eq!(conventional_key_path("", "id_ecdsa"), "/.ssh/id_ecdsa");
}

#[test]
fn the_default_key_is_ed25519() {
    assert_eq!(get_default_ssh_key_path(Some("/home/alice")), "/home/alice/.ssh/id_ed25519");
    assert_eq!(get_default_ssh_key_path(None), "~/.ssh/id_ed25519");
}

#[test]
fn the_home_directory_falls_back_to_the_root() {
    assert_eq!(get_home_directory(Some("/home/alice".to_string())), "/home/alice");
    assert_eq!(get_home_directory(None), "/");
}
