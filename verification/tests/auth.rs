use ssh_engine::auth::{
    announce, attempt_message, looks_like_ed25519, plan_for, Attempt, AuthenticationMethod,
    Authenticator, Candidate, Credential, KeySlot, Outcome, Passphrase,
};

fn key(slot: KeySlot, passphrase: Passphrase, target: &str) -> Candidate {
    Candidate { credential: Credential::KeyFile { slot, passphrase }, target: target.to_string() }
}

fn agent() -> Candidate {
    Candidate { credential: Credential::Agent, target: "ssh-agent".to_string() }
}

fn fallbacks(home: &str) -> Vec<Candidate> {
    vec![
        agent(),
        key(KeySlot::IdRsa, Passphrase::Absent, &format!("{}/.ssh/id_rsa", home)),
        key(KeySlot::IdEcdsa, Passphrase::Absent, &format!("{}/.ssh/id_ecdsa", home)),
        key(KeySlot::IdEd25519, Passphrase::Absent, &format!("{}/.ssh/id_ed25519", home)),
    ]
}

fn public_key(path: &str, passphrase: Option<&str>) -> AuthenticationMethod {
    AuthenticationMethod::PublicKey {
        private_key_path: path.to_string(),
        passphrase: passphrase.map(|p| p.to_string()),
    }
}

/// Runs a chain, answering each candidate with what `answer` gives, and
/// hands back the candidates in the order in which they were offered.
fn drive(chain: &mut Authenticator, answer: &dyn Fn(&Candidate) -> Outcome) -> Vec<Candidate> {
    let mut offered = Vec::new();
    loop {
        let candidate = match chain.current() {
            Some(candidate) => candidate.clone(),
            None => break,
        };
        let outcome = answer(&candidate);
        offered.push(candidate);
        chain.record(outcome);
    }
    offered
}

fn refuse_all(candidate: &Candidate) -> Outcome {
    match candidate.credential {
        Credential::KeyFile { .. } => Outcome::NotFound,
        _ => Outcome::Failed("refused".to_string()),
    }
}

#[test]
fn ed25519_is_suggested_by_the_file_name_only() {
    assert!(looks_like_ed25519("/home/alice/.ssh/id_ed25519"));
    assert!(looks_like_ed25519("/keys/work_id_ed25519_2024"));
    assert!(!looks_like_ed25519("/home/id_ed25519/key"));
    assert!(!looks_like_ed25519("/home/alice/.ssh/id_rsa"));
    assert!(!looks_like_ed25519(""));
}

#[test]
fn plan_of_a_public_key_request() {
    let mut expected = vec![key(KeySlot::Requested, Passphrase::Absent, "/keys/work")];
    expected.extend(fallbacks("/home/alice"));
    assert_eq!(plan_for(&public_key("/keys/work", None), "/home/alice"), expected);
}

#[test]
fn plan_of_an_ed25519_request_tries_both_passphrase_forms() {
    let mut expected = vec![
        key(KeySlot::Requested, Passphrase::Absent, "/home/alice/.ssh/id_ed25519"),
        key(KeySlot::Requested, Passphrase::Empty, "/home/alice/.ssh/id_ed25519"),
    ];
    expected.extend(fallbacks("/home/alice"));
    assert_eq!(plan_for(&public_key("~/.ssh/id_ed25519", None), "/home/alice"), expected);
}

#[test]
fn plan_of_a_request_with_passphrase_uses_it() {
    let mut expected = vec![key(KeySlot::Requested, Passphrase::Given, "/k/id_ed25519")];
    expected.extend(fallbacks("/root"));
    assert_eq!(plan_for(&public_key("/k/id_ed25519", Some("secret")), "/root"), expected);
}

#[test]
fn plan_of_an_agent_request() {
    let mut expected = vec![agent()];
    expected.extend(fallbacks("/home/bob"));
    assert_eq!(plan_for(&AuthenticationMethod::Agent, "/home/bob"), expected);
}

#[test]
fn plan_of_a_password_request_ends_with_the_password() {
    let mut expected = fallbacks("/home/bob");
    expected.push(Candidate { credential: Credential::Password, target: "password".to_string() });
    let plan = plan_for(&AuthenticationMethod::Password("hunter2".to_string()), "/home/bob");
    assert_eq!(plan, expected);
    for candidate in &plan {
        assert!(!candidate.target.contains("hunter2"));
    }
}

#[test]
fn missing_key_falls_back_to_agent_then_conventional_keys() {
    let mut chain = Authenticator::new(&public_key("/no/such/key", None), "/home/alice");
    let offered = drive(&mut chain, &refuse_all);
    let mut expected = vec![key(KeySlot::Requested, Passphrase::Absent, "/no/such/key")];
    expected.extend(fallbacks("/home/alice"));
    assert_eq!(offered, expected);
    assert!(chain.is_exhausted());
    assert!(!chain.is_authenticated());
}

#[test]
fn chain_is_not_exhausted_before_the_last_fallback_failed() {
    let mut chain = Authenticator::new(&public_key("/no/such/key", None), "/home/alice");
    for made in 0..5 {
        assert!(!chain.is_exhausted());
        assert_eq!(chain.attempts_made(), made);
        chain.record(Outcome::NotFound);
    }
    assert!(chain.is_exhausted());
    assert_eq!(chain.attempts_made(), 5);
}

#[test]
fn connect_with_missing_key_and_nothing_else_reports_all_four_paths() {
    // host "test", port 22, user "alice", PublicKey "/no/such/key"; no
    // agent, no conventional keys.
    let method = public_key("/no/such/key", None);
    let mut chain = Authenticator::new(&method, "/home/alice");
    drive(&mut chain, &|candidate: &Candidate| match candidate.credential {
        Credential::KeyFile { .. } => Outcome::NotFound,
        _ => Outcome::Failed("no agent".to_string()),
    });
    let error = chain.finish().unwrap_err();
    let paths: Vec<(&str, &Outcome)> = error
        .attempts
        .iter()
        .filter(|a| matches!(a.candidate.credential, Credential::KeyFile { .. }))
        .map(|a| (a.candidate.target.as_str(), &a.outcome))
        .collect();
    assert_eq!(
        paths,
        vec![
            ("/no/such/key", &Outcome::NotFound),
            ("/home/alice/.ssh/id_rsa", &Outcome::NotFound),
            ("/home/alice/.ssh/id_ecdsa", &Outcome::NotFound),
            ("/home/alice/.ssh/id_ed25519", &Outcome::NotFound),
        ]
    );
    assert_eq!(error.attempts.len(), 5);
    assert_eq!(error.attempts[1].candidate, agent());
    assert_eq!(error.attempts[1].outcome, Outcome::Failed("no agent".to_string()));
}

#[test]
fn missing_ed25519_key_skips_its_second_variant() {
    let mut chain = Authenticator::new(&public_key("/k/id_ed25519", None), "/h");
    chain.record(Outcome::NotFound);
    assert_eq!(chain.current(), Some(&agent()));
}

#[test]
fn failing_ed25519_key_is_tried_with_the_empty_passphrase() {
    let mut chain = Authenticator::new(&public_key("/k/id_ed25519", None), "/h");
    chain.record(Outcome::Failed("bad passphrase".to_string()));
    assert_eq!(chain.current(), Some(&key(KeySlot::Requested, Passphrase::Empty, "/k/id_ed25519")));
    chain.record(Outcome::Failed("bad passphrase".to_string()));
    assert_eq!(chain.current(), Some(&agent()));
}

#[test]
fn chain_stops_at_the_first_success() {
    let mut chain = Authenticator::new(&AuthenticationMethod::Agent, "/h");
    chain.record(Outcome::Failed("no identities".to_string()));
    chain.record(Outcome::Succeeded);
    assert!(chain.is_authenticated());
    assert!(!chain.is_exhausted());
    assert_eq!(chain.current(), None);
    chain.record(Outcome::Failed("late".to_string()));
    assert_eq!(chain.attempts_made(), 2);
    assert!(chain.is_authenticated());
    assert_eq!(chain.finish(), Ok(()));
}

#[test]
fn password_comes_last_and_ends_the_chain() {
    let method = AuthenticationMethod::Password("hunter2".to_string());
    let mut chain = Authenticator::new(&method, "/h");
    let offered = drive(&mut chain, &refuse_all);
    assert_eq!(offered.len(), 5);
    assert_eq!(offered[4].credential, Credential::Password);
    assert!(chain.is_exhausted());
    let error = chain.finish().unwrap_err();
    assert_eq!(error.attempts.len(), 5);
    assert_eq!(error.attempts[4].outcome, Outcome::Failed("refused".to_string()));
}

#[test]
fn an_unfinished_chain_finishes_as_an_error_with_what_was_tried() {
    let mut chain = Authenticator::new(&AuthenticationMethod::Agent, "/h");
    chain.record(Outcome::Failed("x".to_string()));
    let error = chain.finish().unwrap_err();
    assert_eq!(
        error.attempts,
        vec![Attempt { candidate: agent(), outcome: Outcome::Failed("x".to_string()) }]
    );
}

#[test]
fn progress_lines() {
    let rsa = key(KeySlot::IdRsa, Passphrase::Absent, "/h/.ssh/id_rsa");
    assert_eq!(announce(&rsa), "Trying key /h/.ssh/id_rsa");
    assert_eq!(announce(&agent()), "Trying SSH agent");
    let password = Candidate { credential: Credential::Password, target: "password".to_string() };
    assert_eq!(announce(&password), "Trying password");
    assert_eq!(
        attempt_message(&Attempt { candidate: rsa.clone(), outcome: Outcome::NotFound }),
        "key /h/.ssh/id_rsa not found"
    );
    assert_eq!(
        attempt_message(&Attempt { candidate: rsa, outcome: Outcome::Succeeded }),
        "key /h/.ssh/id_rsa accepted"
    );
    assert_eq!(
        attempt_message(&Attempt {
            candidate: agent(),
            outcome: Outcome::Failed("no identities".to_string())
        }),
        "SSH agent failed: no identities"
    );
    assert_eq!(
        attempt_message(&Attempt { candidate: password, outcome: Outcome::Succeeded }),
        "password accepted"
    );
}
