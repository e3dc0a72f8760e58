//! The authentication fallback chain.
//!
//! An [`Authenticator`] decides which credential is offered to the server
//! next. The program around it makes the attempt and reports how it ended;
//! the authenticator records the attempt and moves on. The order is:
//!
//! 1. for a public-key request, the requested key file: with the given
//!    passphrase where there is one; else without a passphrase and, where the
//!    file's name suggests an Ed25519 key, once more with the empty
//!    passphrase;
//! 2. for an agent request, the agent;
//! 3. whatever was requested, the agent, as a secondary attempt;
//! 4. the conventional key files `id_rsa`, `id_ecdsa`, `id_ed25519` under the
//!    home directory's `.ssh`, in that order;
//! 5. for a password request, the password.
//!
//! The chain stops at the first success. A key file that is not on disk is
//! recorded as not found and its remaining variants are skipped.

use vstd::prelude::*;
use vstd::string::*;
use crate::paths::{
    conventional_key_of, conventional_key_path, expand_home, expand_home_of, file_name_of,
    get_filename_from_path,
};
use crate::text::{contains, occurs_in};

verus! {

/// What the caller asked to authenticate with.
#[derive(Debug, Clone, PartialEq, Eq)]
pub enum AuthenticationMethod {
    Password(String),
    PublicKey { private_key_path: String, passphrase: Option<String> },
    Agent,
}

/// Which key file a credential stands for.
#[derive(Debug, Clone, Copy, PartialEq, Eq, Structural)]
pub enum KeySlot {
    /// The file named in the request.
    Requested,
    IdRsa,
    IdEcdsa,
    IdEd25519,
}

/// How the passphrase of a key file is handed over.
#[derive(Debug, Clone, Copy, PartialEq, Eq, Structural)]
pub enum Passphrase {
    /// No passphrase at all.
    Absent,
    /// The empty string as passphrase.
    Empty,
    /// The passphrase of the request.
    Given,
}

/// One thing that can be offered to the server.
#[derive(Debug, Clone, Copy, PartialEq, Eq, Structural)]
pub enum Credential {
    KeyFile { slot: KeySlot, passphrase: Passphrase },
    Agent,
    Password,
}

/// How one attempt ended.
#[derive(Debug, Clone, PartialEq, Eq)]
pub enum Outcome {
    Succeeded,
    /// The server, the agent or the key refused; the text says why.
    Failed(String),
    /// The key file is not on disk; nothing was offered.
    NotFound,
}

/// A credential together with what it names: the path of a key file,
/// `ssh-agent`, or `password`. The secret itself is never part of it.
#[derive(Debug, Clone, PartialEq, Eq)]
pub struct Candidate {
    pub credential: Credential,
    pub target: String,
}

/// A candidate that was tried, and how that ended.
#[derive(Debug, Clone, PartialEq, Eq)]
pub struct Attempt {
    pub candidate: Candidate,
    pub outcome: Outcome,
}

/// The chain ran out without a success. `attempts` is all that was tried, in
/// the order in which it was tried.
#[derive(Debug, Clone, PartialEq, Eq)]
pub struct AuthError {
    pub attempts: Vec<Attempt>,
}

/// An outcome with its text as a sequence of characters.
pub enum OutcomeView {
    Succeeded,
    Failed(Seq<char>),
    NotFound,
}

/// A candidate with its target as a sequence of characters.
pub struct CandidateView {
    pub credential: Credential,
    pub target: Seq<char>,
}

/// An attempt as plain values.
pub struct AttemptView {
    pub candidate: CandidateView,
    pub outcome: OutcomeView,
}

impl View for Outcome {
    type V = OutcomeView;

    open spec fn view(&self) -> OutcomeView {
        match self {
            Outcome::Succeeded => OutcomeView::Succeeded,
            Outcome::Failed(why) => OutcomeView::Failed(why@),
            Outcome::NotFound => OutcomeView::NotFound,
        }
    }
}

impl View for Candidate {
    type V = CandidateView;

    open spec fn view(&self) -> CandidateView {
        CandidateView { credential: self.credential, target: self.target@ }
    }
}

impl View for Attempt {
    type V = AttemptView;

    open spec fn view(&self) -> AttemptView {
        AttemptView { candidate: self.candidate@, outcome: self.outcome@ }
    }
}

impl View for AuthError {
    type V = Seq<AttemptView>;

    open spec fn view(&self) -> Seq<AttemptView> {
        self.attempts@.map_values(|a: Attempt| a@)
    }
}

/// The state of a chain: the plan, how far it has come, and its record.
pub struct AuthModel {
    pub plan: Seq<CandidateView>,
    pub cursor: int,
    pub trail: Seq<AttemptView>,
    pub authenticated: bool,
}

/// Whether the name of the key file `path` suggests an Ed25519 key.
pub open spec fn suggests_ed25519(path: Seq<char>) -> bool {
    occurs_in(file_name_of(path), "id_ed25519"@)
}

/// A key-file candidate.
pub open spec fn key_candidate(slot: KeySlot, passphrase: Passphrase, target: Seq<char>)
    -> CandidateView {
    CandidateView { credential: Credential::KeyFile { slot, passphrase }, target }
}

/// The candidates that the request itself names.
pub open spec fn requested_candidates(method: AuthenticationMethod, home: Seq<char>) -> Seq<
    CandidateView,
> {
    match method {
        AuthenticationMethod::PublicKey { private_key_path, passphrase } => {
            let target = expand_home_of(private_key_path@, home);
            if passphrase is Some {
                seq![key_candidate(KeySlot::Requested, Passphrase::Given, target)]
            } else if suggests_ed25519(target) {
                seq![
                    key_candidate(KeySlot::Requested, Passphrase::Absent, target),
                    key_candidate(KeySlot::Requested, Passphrase::Empty, target),
                ]
            } else {
                seq![key_candidate(KeySlot::Requested, Passphrase::Absent, target)]
            }
        },
        AuthenticationMethod::Agent => seq![
            CandidateView { credential: Credential::Agent, target: "ssh-agent"@ },
        ],
        AuthenticationMethod::Password(_) => seq![],
    }
}

/// The candidates that every request falls back to: the agent, then the
/// conventional key files.
pub open spec fn fallback_candidates(home: Seq<char>) -> Seq<CandidateView> {
    seq![
        CandidateView { credential: Credential::Agent, target: "ssh-agent"@ },
        key_candidate(KeySlot::IdRsa, Passphrase::Absent, conventional_key_of(home, "id_rsa"@)),
        key_candidate(KeySlot::IdEcdsa, Passphrase::Absent, conventional_key_of(home, "id_ecdsa"@)),
        key_candidate(
            KeySlot::IdEd25519,
            Passphrase::Absent,
            conventional_key_of(home, "id_ed25519"@),
        ),
    ]
}

/// The candidate that closes the chain of a password request.
pub open spec fn closing_candidates(method: AuthenticationMethod) -> Seq<CandidateView> {
    if method is Password {
        seq![CandidateView { credential: Credential::Password, target: "password"@ }]
    } else {
        seq![]
    }
}

/// Every candidate of a request, in the order in which it is offered.
pub open spec fn auth_plan(method: AuthenticationMethod, home: Seq<char>) -> Seq<CandidateView> {
    requested_candidates(method, home) + fallback_candidates(home) + closing_candidates(method)
}

/// The state in which a chain starts.
pub open spec fn initial(method: AuthenticationMethod, home: Seq<char>) -> AuthModel {
    AuthModel { plan: auth_plan(method, home), cursor: 0, trail: Seq::empty(), authenticated: false }
}

/// The candidate to offer next; `None` once the chain has ended.
pub open spec fn current_candidate(s: AuthModel) -> Option<CandidateView> {
    if !s.authenticated && 0 <= s.cursor < s.plan.len() {
        Some(s.plan[s.cursor])
    } else {
        None
    }
}

/// Whether the chain has ended without a success.
pub open spec fn exhausted(s: AuthModel) -> bool {
    !s.authenticated && current_candidate(s) is None
}

/// Whether `candidate` is a key file of `slot`.
pub open spec fn offers_slot(candidate: CandidateView, slot: KeySlot) -> bool {
    candidate.credential matches Credential::KeyFile { slot: s, .. } && s == slot
}

/// The first index from `from` on that is not a key file of `slot`.
pub open spec fn skip_slot(plan: Seq<CandidateView>, from: int, slot: KeySlot) -> int
    decreases plan.len() - from,
{
    if 0 <= from < plan.len() && offers_slot(plan[from], slot) {
        skip_slot(plan, from + 1, slot)
    } else {
        from
    }
}

/// Where the chain goes after the candidate at `cursor` ended with `outcome`:
/// to the next candidate, past the other variants of a key file that is not
/// there.
pub open spec fn next_cursor(plan: Seq<CandidateView>, cursor: int, outcome: OutcomeView) -> int {
    match (plan[cursor].credential, outcome) {
        (Credential::KeyFile { slot, .. }, OutcomeView::NotFound) => skip_slot(
            plan,
            cursor + 1,
            slot,
        ),
        _ => cursor + 1,
    }
}

/// The state after the current candidate ended with `outcome`. A chain that
/// has ended stays as it is.
pub open spec fn step(s: AuthModel, outcome: OutcomeView) -> AuthModel {
    match current_candidate(s) {
        Some(candidate) => AuthModel {
            plan: s.plan,
            cursor: next_cursor(s.plan, s.cursor, outcome),
            trail: s.trail.push(AttemptView { candidate, outcome }),
            authenticated: outcome is Succeeded,
        },
        None => s,
    }
}

/// The state after the outcomes `outcomes` were reported one after another.
pub open spec fn run(s: AuthModel, outcomes: Seq<OutcomeView>) -> AuthModel
    decreases outcomes.len(),
{
    if outcomes.len() == 0 {
        s
    } else {
        run(step(s, outcomes[0]), outcomes.drop_first())
    }
}

/// Whether the name of the key file `path` suggests an Ed25519 key.
pub fn looks_like_ed25519(path: &str) -> (yes: bool)
    ensures
        yes == suggests_ed25519(path@),
{
    contains(get_filename_from_path(path), "id_ed25519")
}

fn key_file(slot: KeySlot, passphrase: Passphrase, target: String) -> (c: Candidate)
    ensures
        c@ == key_candidate(slot, passphrase, target@),
{
    Candidate { credential: Credential::KeyFile { slot, passphrase }, target }
}

/// The candidates of a request, in the order in which they are offered.
pub fn plan_for(method: &AuthenticationMethod, home: &str) -> (plan: Vec<Candidate>)
    ensures
        plan@.map_values(|c: Candidate| c@) == auth_plan(*method, home@),
{
    let mut plan: Vec<Candidate> = Vec::new();
    match method {
        AuthenticationMethod::PublicKey { private_key_path, passphrase } => {
            let target = expand_home(private_key_path.as_str(), home);
            if passphrase.is_some() {
                plan.push(key_file(KeySlot::Requested, Passphrase::Given, target));
            } else if looks_like_ed25519(target.as_str()) {
                let again = target.clone();
                plan.push(key_file(KeySlot::Requested, Passphrase::Absent, target));
                plan.push(key_file(KeySlot::Requested, Passphrase::Empty, again));
            } else {
                plan.push(key_file(KeySlot::Requested, Passphrase::Absent, target));
            }
        },
        AuthenticationMethod::Agent => {
            plan.push(
                Candidate { credential: Credential::Agent, target: String::from_str("ssh-agent") },
            );
        },
        AuthenticationMethod::Password(_) => {},
    }
    plan.push(Candidate { credential: Credential::Agent, target: String::from_str("ssh-agent") });
    plan.push(
        key_file(KeySlot::IdRsa, Passphrase::Absent, conventional_key_path(home, "id_rsa")),
    );
    plan.push(
        key_file(KeySlot::IdEcdsa, Passphrase::Absent, conventional_key_path(home, "id_ecdsa")),
    );
    plan.push(
        key_file(KeySlot::IdEd25519, Passphrase::Absent, conventional_key_path(home, "id_ed25519")),
    );
    match method {
        AuthenticationMethod::Password(_) => {
            plan.push(
                Candidate { credential: Credential::Password, target: String::from_str("password") },
            );
        },
        _ => {},
    }
    plan
}

/// The fallback chain of one connect attempt.
pub struct Authenticator {
    plan: Vec<Candidate>,
    cursor: usize,
    trail: Vec<Attempt>,
    authenticated: bool,
}

impl View for Authenticator {
    type V = AuthModel;

    closed spec fn view(&self) -> AuthModel {
        AuthModel {
            plan: self.plan@.map_values(|c: Candidate| c@),
            cursor: self.cursor as int,
            trail: self.trail@.map_values(|a: Attempt| a@),
            authenticated: self.authenticated,
        }
    }
}

impl Authenticator {
    /// A chain for `method`, with the conventional keys looked for under
    /// `home`. Nothing has been tried yet.
    pub fn new(method: &AuthenticationMethod, home: &str) -> (chain: Authenticator)
        ensures
            chain@ == initial(*method, home@),
    {
        let chain = Authenticator {
            plan: plan_for(method, home),
            cursor: 0,
            trail: Vec::new(),
            authenticated: false,
        };
        assert(chain.trail@.map_values(|a: Attempt| a@) =~= Seq::<AttemptView>::empty());
        chain
    }

    /// The candidate to offer next, or `None` once the chain has ended.
    pub fn current(&self) -> (next: Option<&Candidate>)
        ensures
            match next {
                Some(candidate) => current_candidate(self@) == Some(candidate@),
                None => current_candidate(self@) is None,
            },
    {
        if !self.authenticated && self.cursor < self.plan.len() {
            Some(&self.plan[self.cursor])
        } else {
            None
        }
    }

    /// Whether an attempt has succeeded.
    pub fn is_authenticated(&self) -> (yes: bool)
        ensures
            yes == self@.authenticated,
    {
        self.authenticated
    }

    /// Whether every candidate was tried and none succeeded.
    pub fn is_exhausted(&self) -> (yes: bool)
        ensures
            yes == exhausted(self@),
    {
        !self.authenticated && self.cursor >= self.plan.len()
    }

    /// How many attempts are on record.
    pub fn attempts_made(&self) -> (n: usize)
        ensures
            n == self@.trail.len(),
    {
        self.trail.len()
    }

    /// The record of the chain so far: every attempt, in order.
    pub fn record_so_far(&self) -> (attempts: &Vec<Attempt>)
        ensures
            attempts@.map_values(|a: Attempt| a@) == self@.trail,
    {
        &self.trail
    }

    /// Records how the attempt with the current candidate ended, and moves
    /// on. Once the chain has ended this changes nothing.
    pub fn record(&mut self, outcome: Outcome)
        ensures
            final(self)@ == step(old(self)@, outcome@),
    {
        if self.authenticated || self.cursor >= self.plan.len() {
            return ;
        }
        let ghost before = self@;
        let credential = self.plan[self.cursor].credential;
        let target = self.plan[self.cursor].target.clone();
        let mut next: usize = self.cursor + 1;
        match (credential, &outcome) {
            (Credential::KeyFile { slot, .. }, Outcome::NotFound) => {
                while next < self.plan.len() && is_slot(&self.plan[next], slot)
                    invariant
                        self.cursor < next <= self.plan.len(),
                        skip_slot(before.plan, next as int, slot) == skip_slot(
                            before.plan,
                            self.cursor + 1,
                            slot,
                        ),
                        before.plan == self.plan@.map_values(|c: Candidate| c@),
                    decreases self.plan.len() - next,
                {
                    next = next + 1;
                }
            },
            _ => {},
        }
        self.authenticated = match outcome {
            Outcome::Succeeded => true,
            _ => false,
        };
        let attempt = Attempt { candidate: Candidate { credential, target }, outcome };
        self.trail.push(attempt);
        self.cursor = next;
        assert(self.trail@.map_values(|a: Attempt| a@) =~= before.trail.push(attempt@));
    }

    /// Ends the chain: `Ok` where an attempt succeeded, else the record of
    /// all that was tried.
    pub fn finish(self) -> (verdict: Result<(), AuthError>)
        ensures
            verdict is Ok <==> self@.authenticated,
            verdict matches Err(error) ==> error@ == self@.trail,
    {
        if self.authenticated {
            Ok(())
        } else {
            Err(AuthError { attempts: self.trail })
        }
    }
}

/// How an attempt ended, from what the SSH library answered: `accepted`
/// where the server took the credential, and the reason where the attempt
/// could not be made. A credential that the server did not take failed
/// with `Authentication failed`.
pub fn outcome_of(answer: Result<bool, String>) -> (outcome: Outcome)
    ensures
        outcome@ == match answer {
            Ok(accepted) => if accepted {
                OutcomeView::Succeeded
            } else {
                OutcomeView::Failed("Authentication failed"@)
            },
            Err(why) => OutcomeView::Failed(why@),
        },
{
    match answer {
        Ok(accepted) => if accepted {
            Outcome::Succeeded
        } else {
            Outcome::Failed(String::from_str("Authentication failed"))
        },
        Err(why) => Outcome::Failed(why),
    }
}

/// How a candidate is called in a progress line.
pub open spec fn candidate_label(candidate: CandidateView) -> Seq<char> {
    match candidate.credential {
        Credential::KeyFile { .. } => "key "@ + candidate.target,
        Credential::Agent => "SSH agent"@,
        Credential::Password => "password"@,
    }
}

/// The progress line of an attempt: what was offered and how that ended.
pub open spec fn attempt_line(attempt: AttemptView) -> Seq<char> {
    let label = candidate_label(attempt.candidate);
    match attempt.outcome {
        OutcomeView::Succeeded => label + " accepted"@,
        OutcomeView::Failed(why) => label + " failed: "@ + why,
        OutcomeView::NotFound => label + " not found"@,
    }
}

/// The progress line that announces the attempt with `candidate`.
pub fn announce(candidate: &Candidate) -> (line: String)
    ensures
        line@ == "Trying "@ + candidate_label(candidate@),
{
    let line = String::from_str("Trying ");
    match candidate.credential {
        Credential::KeyFile { .. } => {
            let line = line.concat("key ").concat(candidate.target.as_str());
            line
        },
        Credential::Agent => line.concat("SSH agent"),
        Credential::Password => line.concat("password"),
    }
}

/// The progress line that reports how `attempt` ended. It names the key
/// file, the agent or the password, and never holds a secret.
pub fn attempt_message(attempt: &Attempt) -> (line: String)
    ensures
        line@ == attempt_line(attempt@),
{
    let label = match attempt.candidate.credential {
        Credential::KeyFile { .. } => String::from_str("key ").concat(
            attempt.candidate.target.as_str(),
        ),
        Credential::Agent => String::from_str("SSH agent"),
        Credential::Password => String::from_str("password"),
    };
    match &attempt.outcome {
        Outcome::Succeeded => label.concat(" accepted"),
        Outcome::Failed(why) => label.concat(" failed: ").concat(why.as_str()),
        Outcome::NotFound => label.concat(" not found"),
    }
}

/// Once an attempt has succeeded, nothing that is reported afterwards
/// changes the chain: it stops at the first success.
pub proof fn law_chain_stops_at_first_success(s: AuthModel, outcomes: Seq<OutcomeView>)
    requires
        s.authenticated,
    ensures
        run(s, outcomes) == s,
    decreases outcomes.len(),
{
    if outcomes.len() > 0 {
        law_chain_stops_at_first_success(s, outcomes.drop_first());
    }
}

/// A chain that has run out stays run out, with its record unchanged.
pub proof fn law_exhausted_chain_stays(s: AuthModel, outcomes: Seq<OutcomeView>)
    requires
        exhausted(s),
    ensures
        run(s, outcomes) == s,
    decreases outcomes.len(),
{
    if outcomes.len() > 0 {
        law_exhausted_chain_stays(s, outcomes.drop_first());
    }
}

/// Reporting `outcomes` and then one more outcome is one more step.
pub proof fn lemma_run_then_step(s: AuthModel, outcomes: Seq<OutcomeView>, last: OutcomeView)
    ensures
        run(s, outcomes.push(last)) == step(run(s, outcomes), last),
    decreases outcomes.len(),
{
    if outcomes.len() == 0 {
        assert(outcomes.push(last).drop_first() =~= outcomes);
        assert(run(step(s, last), outcomes) == step(s, last));
    } else {
        assert(outcomes.push(last).drop_first() =~= outcomes.drop_first().push(last));
        lemma_run_then_step(step(s, outcomes[0]), outcomes.drop_first(), last);
    }
}

/// `part` can be had from `whole` by leaving entries out: the entries of
/// `part` stand in `whole` in the same order.
pub open spec fn in_order_of(part: Seq<CandidateView>, whole: Seq<CandidateView>) -> bool
    decreases whole.len(),
{
    if part.len() == 0 {
        true
    } else if whole.len() == 0 {
        false
    } else {
        (part.last() == whole.last() && in_order_of(part.drop_last(), whole.drop_last()))
            || in_order_of(part, whole.drop_last())
    }
}

/// The candidates of a record, in its order.
pub open spec fn offered(trail: Seq<AttemptView>) -> Seq<CandidateView> {
    trail.map_values(|a: AttemptView| a.candidate)
}

/// What holds of a chain however it has run: it has offered candidates of
/// its plan, in the order of the plan and none twice, from the part of the
/// plan that lies behind it; and it is authenticated exactly if its last
/// attempt succeeded, no attempt before that having succeeded.
pub open spec fn ran_in_order(s: AuthModel) -> bool {
    &&& 0 <= s.cursor <= s.plan.len()
    &&& in_order_of(offered(s.trail), s.plan.take(s.cursor))
    &&& s.authenticated == (s.trail.len() > 0 && s.trail.last().outcome is Succeeded)
    &&& forall|k: int| 0 <= k < s.trail.len() - 1 ==> !((#[trigger] s.trail[k]).outcome is Succeeded)
}

proof fn lemma_in_order_grows(
    part: Seq<CandidateView>,
    whole: Seq<CandidateView>,
    more: Seq<CandidateView>,
)
    requires
        in_order_of(part, whole),
    ensures
        in_order_of(part, whole + more),
    decreases more.len(),
{
    if more.len() > 0 {
        lemma_in_order_grows(part, whole, more.drop_last());
        assert((whole + more).drop_last() =~= whole + more.drop_last());
    }
}

proof fn lemma_skip_slot_bounds(plan: Seq<CandidateView>, from: int, slot: KeySlot)
    requires
        0 <= from <= plan.len(),
    ensures
        from <= skip_slot(plan, from, slot) <= plan.len(),
    decreases plan.len() - from,
{
    if from < plan.len() && offers_slot(plan[from], slot) {
        lemma_skip_slot_bounds(plan, from + 1, slot);
    }
}

proof fn lemma_step_runs_in_order(s: AuthModel, outcome: OutcomeView)
    requires
        ran_in_order(s),
    ensures
        ran_in_order(step(s, outcome)),
{
    if current_candidate(s) is Some {
        let next = step(s, outcome);
        let candidate = s.plan[s.cursor];
        match candidate.credential {
            Credential::KeyFile { slot, .. } => {
                lemma_skip_slot_bounds(s.plan, s.cursor + 1, slot);
            },
            _ => {},
        }
        let before = s.plan.take(s.cursor);
        let with = s.plan.take(s.cursor + 1);
        assert(with.drop_last() =~= before);
        assert(offered(next.trail).drop_last() =~= offered(s.trail));
        lemma_in_order_grows(
            offered(next.trail),
            with,
            s.plan.subrange(s.cursor + 1, next.cursor),
        );
        assert(with + s.plan.subrange(s.cursor + 1, next.cursor) =~= s.plan.take(next.cursor));
    }
}

/// Whatever the outcomes, the chain offers the candidates of its plan in
/// the order of the plan, none of them twice, and stops at the first
/// success.
pub proof fn law_chain_runs_in_plan_order(
    method: AuthenticationMethod,
    home: Seq<char>,
    outcomes: Seq<OutcomeView>,
)
    ensures
        ran_in_order(run(initial(method, home), outcomes)),
        in_order_of(
            offered(run(initial(method, home), outcomes).trail),
            auth_plan(method, home),
        ),
        run(initial(method, home), outcomes).trail.len() <= outcomes.len(),
    decreases outcomes.len(),
{
    let start = initial(method, home);
    let plan = auth_plan(method, home);
    if outcomes.len() > 0 {
        let head = outcomes.drop_last();
        law_chain_runs_in_plan_order(method, home, head);
        assert(outcomes =~= head.push(outcomes.last()));
        lemma_run_then_step(start, head, outcomes.last());
        lemma_step_runs_in_order(run(start, head), outcomes.last());
    }
    let end = run(start, outcomes);
    lemma_run_keeps_the_plan(start, outcomes);
    lemma_in_order_grows(
        offered(end.trail),
        plan.take(end.cursor),
        plan.subrange(end.cursor, plan.len() as int),
    );
    assert(plan.take(end.cursor) + plan.subrange(end.cursor, plan.len() as int) =~= plan);
}

/// The plan of a chain never changes.
pub proof fn lemma_run_keeps_the_plan(s: AuthModel, outcomes: Seq<OutcomeView>)
    ensures
        run(s, outcomes).plan == s.plan,
    decreases outcomes.len(),
{
    if outcomes.len() > 0 {
        lemma_run_keeps_the_plan(step(s, outcomes[0]), outcomes.drop_first());
    }
}

/// A public-key request whose key file is not on disk goes on to the agent
/// and then to the conventional keys `id_rsa`, `id_ecdsa`, `id_ed25519`, in
/// that order, and has not run out before the last of them has failed.
pub proof fn law_missing_key_falls_back_in_order(
    method: AuthenticationMethod,
    home: Seq<char>,
    outcomes: Seq<OutcomeView>,
)
    requires
        method is PublicKey,
        outcomes.len() == 5,
        outcomes[0] is NotFound,
        forall|i: int| 0 <= i < 5 ==> !(outcomes[i] is Succeeded),
    ensures
        ({
            let end = run(initial(method, home), outcomes);
            &&& exhausted(end)
            &&& end.trail.len() == 5
            &&& forall|i: int| 0 <= i < 5 ==> (#[trigger] end.trail[i]).outcome == outcomes[i]
            &&& offers_slot(end.trail[0].candidate, KeySlot::Requested)
            &&& end.trail[0].candidate.target == expand_home_of(
                method->private_key_path@,
                home,
            )
            &&& end.trail.map_values(|a: AttemptView| a.candidate).subrange(1, 5)
                == fallback_candidates(home)
        }),
        forall|k: int|
            0 <= k < 5 ==> !exhausted(#[trigger] run(initial(method, home), outcomes.take(k))),
{
    let first = requested_candidates(method, home);
    let s0 = initial(method, home);
    let s1 = step(s0, outcomes[0]);
    let s2 = step(s1, outcomes[1]);
    let s3 = step(s2, outcomes[2]);
    let s4 = step(s3, outcomes[3]);
    // The slot of the request is skipped as a whole, whether it holds one
    // variant or two.
    assert(s4.cursor == first.len() + 3) by {
        reveal_with_fuel(skip_slot, 2);
    }
    let t0 = outcomes.take(0);
    let t1 = outcomes.take(1);
    let t2 = outcomes.take(2);
    let t3 = outcomes.take(3);
    let t4 = outcomes.take(4);
    assert(t1 =~= t0.push(outcomes[0]));
    lemma_run_then_step(s0, t0, outcomes[0]);
    assert(t2 =~= t1.push(outcomes[1]));
    lemma_run_then_step(s0, t1, outcomes[1]);
    assert(t3 =~= t2.push(outcomes[2]));
    lemma_run_then_step(s0, t2, outcomes[2]);
    assert(t4 =~= t3.push(outcomes[3]));
    lemma_run_then_step(s0, t3, outcomes[3]);
    assert(outcomes =~= t4.push(outcomes[4]));
    lemma_run_then_step(s0, t4, outcomes[4]);
}

fn is_slot(candidate: &Candidate, slot: KeySlot) -> (yes: bool)
    ensures
        yes == offers_slot(candidate@, slot),
{
    match candidate.credential {
        Credential::KeyFile { slot: s, .. } => s == slot,
        _ => false,
    }
}

} // verus!
