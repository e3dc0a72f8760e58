use ssh_engine::keys::{
    calculate_fingerprint, checked_public_key, fingerprint_text, is_key_candidate, is_whitespace,
    key_identity, key_kind, key_record, parse_key_kind, parse_public_key, public_key_fields,
    public_key_line, split_words, IdentitySource, KeyError, KeyIdentity, KeyKind, KeyManager,
    KeyRequest, SshKey, DEFAULT_RSA_BITS,
};

fn identity(fingerprint: &str, key_type: &str) -> KeyIdentity {
    KeyIdentity { fingerprint: fingerprint.to_string(), key_type: key_type.to_string() }
}

fn named(name: &str) -> SshKey {
    SshKey {
        name: name.to_string(),
        path: format!("/h/.ssh/{}", name),
        public_key_path: format!("/h/.ssh/{}.pub", name),
        fingerprint: "SHA256:0000000000000000".to_string(),
        key_type: "ssh-ed25519".to_string(),
        has_passphrase: false,
        created_at: "unknown".to_string(),
    }
}

#[test]
fn white_space_is_that_of_std() {
    for code in 0..0x11000u32 {
        if let Some(c) = char::from_u32(code) {
            assert_eq!(is_whitespace(c), c.is_whitespace(), "U+{:04X}", code);
        }
    }
}

#[test]
fn words_are_split_like_std_splits() {
    let texts = [
        "",
        " ",
        "ssh-ed25519 AAAA comment",
        "  leading and trailing  ",
        "tabs\tand\nnewlines\r\n",
        "one",
        "a\u{a0}b\u{2003}c\u{3000}d",
        "ssh-rsa AAAAB3 user@host with more words",
        "é € 日本",
    ];
    for text in texts {
        let expected: Vec<String> = text.split_whitespace().map(|w| w.to_string()).collect();
        assert_eq!(split_words(text), expected, "{:?}", text);
    }
}

#[test]
fn a_public_key_line_has_a_type_and_data() {
    assert_eq!(
        public_key_fields("ssh-ed25519 AAAAC3Nz alice@host\n"),
        Ok(("ssh-ed25519".to_string(), "AAAAC3Nz".to_string()))
    );
    assert_eq!(
        public_key_fields("  ssh-rsa\tAAAA"),
        Ok(("ssh-rsa".to_string(), "AAAA".to_string()))
    );
    assert_eq!(public_key_fields("ssh-ed25519"), Err(KeyError::InvalidPublicKey));
    assert_eq!(public_key_fields("   "), Err(KeyError::InvalidPublicKey));
    assert_eq!(public_key_fields(""), Err(KeyError::InvalidPublicKey));
}

#[test]
fn key_data_is_decoded_from_base64() {
    assert_eq!(
        parse_public_key("ssh-ed25519 aGVsbG8gd29ybGQ= alice@host"),
        Ok(("ssh-ed25519".to_string(), b"hello world".to_vec()))
    );
    assert_eq!(parse_public_key("ssh-rsa AAEC"), Ok(("ssh-rsa".to_string(), vec![0, 1, 2])));
}

#[test]
fn key_data_that_is_not_base64_is_refused() {
    assert_eq!(parse_public_key("ssh-ed25519 not*base64 c"), Err(KeyError::InvalidKeyData));
    assert_eq!(parse_public_key("ssh-ed25519 AAA c"), Err(KeyError::InvalidKeyData));
    assert_eq!(parse_public_key("ssh-ed25519"), Err(KeyError::InvalidPublicKey));
}

#[test]
fn what_the_decoder_gave_decides() {
    assert_eq!(
        checked_public_key("ssh-rsa".to_string(), Some(vec![1, 2])),
        Ok(("ssh-rsa".to_string(), vec![1, 2]))
    );
    assert_eq!(checked_public_key("ssh-rsa".to_string(), None), Err(KeyError::InvalidKeyData));
}

#[test]
fn fingerprints_are_sixteen_hex_digits() {
    assert_eq!(fingerprint_text(0), "SHA256:0000000000000000");
    assert_eq!(fingerprint_text(0xdead_beef), "SHA256:00000000deadbeef");
    assert_eq!(fingerprint_text(u64::MAX), "SHA256:ffffffffffffffff");
    assert_eq!(fingerprint_text(0x0123_4567_89ab_cdef), "SHA256:0123456789abcdef");
    for hash in [1u64, 15, 16, 255, 1 << 60, 0x8000_0000_0000_0000] {
        assert_eq!(fingerprint_text(hash), format!("SHA256:{:016x}", hash));
    }
}

#[test]
fn the_fingerprint_of_a_key_has_that_shape_and_depends_on_the_key() {
    let one = calculate_fingerprint(b"ssh-ed25519 AAAA\n");
    let other = calculate_fingerprint(b"ssh-ed25519 AAAB\n");
    assert_eq!(one.len(), 23);
    assert!(one.starts_with("SHA256:"));
    assert!(one[7..].chars().all(|c| c.is_ascii_digit() || ('a'..='f').contains(&c)));
    assert_eq!(one, calculate_fingerprint(b"ssh-ed25519 AAAA\n"));
    assert_ne!(one, other);
}

#[test]
fn kinds_of_keys() {
    assert_eq!(DEFAULT_RSA_BITS, 2048);
    assert_eq!(parse_key_kind("rsa", None), Ok(KeyKind::Rsa { bits: 2048 }));
    assert_eq!(parse_key_kind("rsa", Some(4096)), Ok(KeyKind::Rsa { bits: 4096 }));
    assert_eq!(parse_key_kind("ed25519", Some(1)), Ok(KeyKind::Ed25519));
    assert_eq!(parse_key_kind("ecdsa", None), Ok(KeyKind::Ecdsa));
}

#[test]
fn the_key_type_is_read_in_any_case() {
    assert_eq!(parse_key_kind("RSA", None), Ok(KeyKind::Rsa { bits: 2048 }));
    assert_eq!(parse_key_kind("Ed25519", None), Ok(KeyKind::Ed25519));
    assert_eq!(parse_key_kind("ECDSA", None), Ok(KeyKind::Ecdsa));
    assert_eq!(key_kind("RSA", None, "RSA"), Err(KeyError::UnsupportedKeyType("RSA".to_string())));
}

#[test]
fn other_key_types_are_refused() {
    assert_eq!(parse_key_kind("DSA", None), Err(KeyError::UnsupportedKeyType("DSA".to_string())));
    assert_eq!(parse_key_kind("", None), Err(KeyError::UnsupportedKeyType(String::new())));
    assert_eq!(
        parse_key_kind("rsa ", None),
        Err(KeyError::UnsupportedKeyType("rsa ".to_string()))
    );
}

#[test]
fn which_files_are_looked_at_as_keys() {
    assert!(is_key_candidate("id_rsa", true));
    assert!(is_key_candidate("work.pem", true));
    assert!(is_key_candidate("known_hosts.old", true));
    assert!(!is_key_candidate("id_rsa", false));
    assert!(!is_key_candidate("id_rsa.pub", true));
    assert!(!is_key_candidate(".pub", true));
    assert!(!is_key_candidate("known_hosts", true));
    assert!(!is_key_candidate("config", true));
    assert!(!is_key_candidate("authorized_keys", true));
}

#[test]
fn where_the_identity_of_a_key_comes_from() {
    let found = identity("SHA256:1", "ssh-rsa");
    assert_eq!(
        key_identity(true, IdentitySource::PublicFile(Ok(found.clone()))),
        Ok(found.clone())
    );
    assert_eq!(
        key_identity(false, IdentitySource::PublicFile(Err(KeyError::InvalidPublicKey))),
        Err(KeyError::InvalidPublicKey)
    );
    assert_eq!(
        key_identity(false, IdentitySource::PrivateKey(Some(found.clone()))),
        Ok(found.clone())
    );
    assert_eq!(
        key_identity(false, IdentitySource::PrivateKey(None)),
        Ok(identity("unknown", "unknown"))
    );
    assert_eq!(
        key_identity(true, IdentitySource::PrivateKey(Some(found))),
        Ok(identity("encrypted", "unknown"))
    );
    assert_eq!(
        key_identity(true, IdentitySource::PrivateKey(None)),
        Ok(identity("encrypted", "unknown"))
    );
}

#[test]
fn the_line_of_a_public_key_file() {
    assert_eq!(public_key_line("ssh-ed25519", "AAAA", "work"), "ssh-ed25519 AAAA work\n");
}

#[test]
fn the_key_manager_needs_a_home_directory() {
    assert!(matches!(KeyManager::new(None), Err(KeyError::NoHomeDirectory)));
    let manager = KeyManager::new(Some("/home/alice")).unwrap();
    assert_eq!(manager.directory(), "/home/alice/.ssh");
}

#[test]
fn where_the_files_of_a_key_lie() {
    let manager = KeyManager::new(Some("/home/alice")).unwrap();
    assert_eq!(
        manager.key_paths("work"),
        ("/home/alice/.ssh/work".to_string(), "/home/alice/.ssh/work.pub".to_string())
    );
    assert_eq!(
        manager.delete_key("/home/alice/.ssh/id_rsa"),
        ("/home/alice/.ssh/id_rsa".to_string(), "/home/alice/.ssh/id_rsa.pub".to_string())
    );
}

#[test]
fn what_generating_a_key_asks_for() {
    let manager = KeyManager::new(Some("/home/alice")).unwrap();
    assert_eq!(
        manager.generate_key("work", "RSA", None, Some("secret")),
        Ok(KeyRequest {
            kind: KeyKind::Rsa { bits: 2048 },
            private_path: "/home/alice/.ssh/work".to_string(),
            public_path: "/home/alice/.ssh/work.pub".to_string(),
            encrypted: true,
        })
    );
    let plain = manager.generate_key("id_ed25519", "ed25519", Some(256), None).unwrap();
    assert_eq!(plain.kind, KeyKind::Ed25519);
    assert!(!plain.encrypted);
    assert_eq!(
        manager.generate_key("old", "dsa", None, None),
        Err(KeyError::UnsupportedKeyType("dsa".to_string()))
    );
}

#[test]
fn a_key_without_public_key_file_has_no_public_key_content() {
    let manager = KeyManager::new(Some("/h")).unwrap();
    assert_eq!(
        manager.get_public_key_content(Some("ssh-rsa AAAA\n".to_string())),
        Ok("ssh-rsa AAAA\n".to_string())
    );
    assert_eq!(manager.get_public_key_content(None), Err(KeyError::PublicKeyNotFound));
}

#[test]
fn keys_are_listed_by_name() {
    let manager = KeyManager::new(Some("/h")).unwrap();
    let listed = manager.list_keys(vec![named("work"), named("id_rsa"), named("Backup"), named("id_ed25519")]);
    let names: Vec<&str> = listed.iter().map(|k| k.name.as_str()).collect();
    assert_eq!(names, vec!["Backup", "id_ed25519", "id_rsa", "work"]);
    assert_eq!(manager.list_keys(Vec::new()), Vec::new());
}

#[test]
fn the_record_of_a_key() {
    let key = key_record(
        Some("id_rsa".to_string()),
        "/h/.ssh/id_rsa".to_string(),
        "/h/.ssh/id_rsa.pub".to_string(),
        identity("SHA256:00000000deadbeef", "ssh-rsa"),
        true,
        "2024-01-01 00:00:00 UTC".to_string(),
    );
    assert_eq!(
        key,
        SshKey {
            name: "id_rsa".to_string(),
            path: "/h/.ssh/id_rsa".to_string(),
            public_key_path: "/h/.ssh/id_rsa.pub".to_string(),
            fingerprint: "SHA256:00000000deadbeef".to_string(),
            key_type: "ssh-rsa".to_string(),
            has_passphrase: true,
            created_at: "2024-01-01 00:00:00 UTC".to_string(),
        }
    );
    let nameless = key_record(
        None,
        String::new(),
        String::new(),
        identity("unknown", "unknown"),
        false,
        "unknown".to_string(),
    );
    assert_eq!(nameless.name, "unknown");
}

#[test]
fn analysing_a_key_with_a_public_key_file() {
    let manager = KeyManager::new(Some("/h")).unwrap();
    let key = manager
        .analyze_key(
            Some("id_rsa".to_string()),
            "/h/.ssh/id_rsa",
            true,
            IdentitySource::PublicFile(Ok(identity("SHA256:00000000deadbeef", "ssh-rsa"))),
            Some(1431648000),
        )
        .unwrap();
    assert_eq!(
        key,
        SshKey {
            name: "id_rsa".to_string(),
            path: "/h/.ssh/id_rsa".to_string(),
            public_key_path: "/h/.ssh/id_rsa.pub".to_string(),
            fingerprint: "SHA256:00000000deadbeef".to_string(),
            key_type: "ssh-rsa".to_string(),
            has_passphrase: true,
            created_at: "2015-05-15 00:00:00 UTC".to_string(),
        }
    );
}

#[test]
fn analysing_a_key_without_a_public_key_file() {
    let manager = KeyManager::new(Some("/h")).unwrap();
    let hidden = manager
        .analyze_key(None, "/h/.ssh/k", true, IdentitySource::PrivateKey(None), None)
        .unwrap();
    assert_eq!(hidden.name, "unknown");
    assert_eq!(hidden.fingerprint, "encrypted");
    assert_eq!(hidden.key_type, "unknown");
    assert_eq!(hidden.created_at, "unknown");
    let open = manager
        .analyze_key(
            Some("k".to_string()),
            "/h/.ssh/k",
            false,
            IdentitySource::PrivateKey(Some(identity("SHA256:1", "ssh-ed25519"))),
            Some(i64::MAX),
        )
        .unwrap();
    assert_eq!(open.fingerprint, "SHA256:1");
    assert_eq!(open.key_type, "ssh-ed25519");
    assert_eq!(open.created_at, "unknown");
    assert!(!open.has_passphrase);
}

#[test]
fn a_public_key_file_that_cannot_be_read_fails_the_analysis() {
    let manager = KeyManager::new(Some("/h")).unwrap();
    assert_eq!(
        manager.analyze_key(
            Some("k".to_string()),
            "/h/.ssh/k",
            false,
            IdentitySource::PublicFile(Err(KeyError::InvalidKeyData)),
            Some(0),
        ),
        Err(KeyError::InvalidKeyData)
    );
}
