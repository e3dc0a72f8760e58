//! One connect attempt as a whole: what is to be done next, from the first
//! look at the address to the start of the workers, and how the attempt
//! ends.
//!
//! The attempt does nothing by itself. It names the next action; the
//! program around this library carries the action out and reports how it
//! went; the attempt moves on. Nothing is tried twice: whatever fails ends
//! the attempt, but for a refused credential, after which the next one is
//! offered, and for the steps of the channel setup that a shell can do
//! without.

use vstd::prelude::*;
use vstd::string::*;
use crate::auth::{
    current_candidate, exhausted, initial, step, AuthModel, AuthenticationMethod, Authenticator,
    Candidate, CandidateView, Outcome, OutcomeView,
};
use crate::channel::{
    after_step, failure_message, failure_text, verdict_of, SetupStep, SetupVerdict,
};
use crate::connect::{
    after_phase, attempts_message, auth_error_text, phase_failure_message, phase_failure_text,
    phase_verdict, ConnectError, ConnectPhase, ErrorKind, PhaseVerdict,
};

verus! {

/// What the program is to do next.
#[derive(Debug, Clone, PartialEq, Eq)]
pub enum ConnectAction {
    /// Turn the host name and the port into socket addresses.
    Resolve,
    /// Open the network stream to the first address, within the connect
    /// timeout.
    OpenStream,
    /// Negotiate the protocol on the stream.
    Handshake,
    /// Offer this candidate to the server; a key file that is not on disk
    /// is reported as not found, without an offer.
    Offer(Candidate),
    /// Carry out this step of the channel setup.
    Setup(SetupStep),
    /// Start the three workers. `sftp` says whether the connection has an
    /// SFTP channel beside its shell.
    StartPumps { sftp: bool },
    /// Nothing: the attempt has ended.
    Finished,
}

/// An action as plain values.
pub enum ActionView {
    Resolve,
    OpenStream,
    Handshake,
    Offer(CandidateView),
    Setup(SetupStep),
    StartPumps { sftp: bool },
    Finished,
}

impl View for ConnectAction {
    type V = ActionView;

    open spec fn view(&self) -> ActionView {
        match self {
            ConnectAction::Resolve => ActionView::Resolve,
            ConnectAction::OpenStream => ActionView::OpenStream,
            ConnectAction::Handshake => ActionView::Handshake,
            ConnectAction::Offer(candidate) => ActionView::Offer(candidate@),
            ConnectAction::Setup(step) => ActionView::Setup(*step),
            ConnectAction::StartPumps { sftp } => ActionView::StartPumps { sftp: *sftp },
            ConnectAction::Finished => ActionView::Finished,
        }
    }
}

/// How an attempt has ended.
pub enum Ending {
    /// The session is connected.
    Connected,
    /// The attempt has failed with an error of this kind and this text.
    Failed { kind: ErrorKind, reason: Seq<char> },
}

/// A connect attempt as plain values.
pub struct AttemptModel {
    pub phase: ConnectPhase,
    pub chain: AuthModel,
    pub step: SetupStep,
    pub sftp: bool,
    pub ended: Option<Ending>,
}

/// The attempt before anything was done.
pub open spec fn fresh_attempt(method: AuthenticationMethod, home: Seq<char>) -> AttemptModel {
    AttemptModel {
        phase: ConnectPhase::Resolve,
        chain: initial(method, home),
        step: SetupStep::OpenChannel,
        sftp: false,
        ended: None,
    }
}

/// What is to be done next.
pub open spec fn next_action(m: AttemptModel) -> ActionView {
    if m.ended is Some {
        ActionView::Finished
    } else {
        match m.phase {
            ConnectPhase::Resolve => ActionView::Resolve,
            ConnectPhase::Transport => ActionView::OpenStream,
            ConnectPhase::Handshake => ActionView::Handshake,
            ConnectPhase::Authenticate => match current_candidate(m.chain) {
                Some(candidate) => ActionView::Offer(candidate),
                None => ActionView::Finished,
            },
            ConnectPhase::Channel => ActionView::Setup(m.step),
            ConnectPhase::StartPumps => ActionView::StartPumps { sftp: m.sftp },
        }
    }
}

/// The reason that a report gives for a failure: its text, and none where
/// it has none.
pub open spec fn reason_of(report: OutcomeView) -> Seq<char> {
    match report {
        OutcomeView::Failed(why) => why,
        _ => Seq::empty(),
    }
}

/// The attempt after the action that it named was reported to have gone as
/// `report` says. An attempt that has ended stays as it is.
pub open spec fn attempt_after(m: AttemptModel, report: OutcomeView) -> AttemptModel {
    if m.ended is Some {
        m
    } else {
        match m.phase {
            ConnectPhase::Authenticate => {
                let chain = step(m.chain, report);
                if chain.authenticated {
                    AttemptModel { phase: ConnectPhase::Channel, chain, ..m }
                } else if exhausted(chain) {
                    AttemptModel {
                        chain,
                        ended: Some(
                            Ending::Failed {
                                kind: ErrorKind::Auth,
                                reason: auth_error_text(chain.trail),
                            },
                        ),
                        ..m
                    }
                } else {
                    AttemptModel { chain, ..m }
                }
            },
            ConnectPhase::Channel => match verdict_of(m.step, report is Succeeded) {
                SetupVerdict::Next(next) => AttemptModel { step: next, ..m },
                SetupVerdict::Ready { sftp } => AttemptModel {
                    phase: ConnectPhase::StartPumps,
                    sftp,
                    ..m
                },
                SetupVerdict::Failed(failed) => AttemptModel {
                    ended: Some(
                        Ending::Failed {
                            kind: ErrorKind::Channel,
                            reason: failure_text(failed, reason_of(report)),
                        },
                    ),
                    ..m
                },
            },
            _ => match phase_verdict(m.phase, report is Succeeded) {
                PhaseVerdict::Next(next) => AttemptModel { phase: next, ..m },
                PhaseVerdict::Connected => AttemptModel { ended: Some(Ending::Connected), ..m },
                PhaseVerdict::Failed(kind) => AttemptModel {
                    ended: Some(
                        Ending::Failed {
                            kind,
                            reason: phase_failure_text(m.phase, reason_of(report)),
                        },
                    ),
                    ..m
                },
            },
        }
    }
}

/// The attempt after the reports `reports`, one after another.
pub open spec fn attempt_after_all(m: AttemptModel, reports: Seq<OutcomeView>) -> AttemptModel
    decreases reports.len(),
{
    if reports.len() == 0 {
        m
    } else {
        attempt_after(attempt_after_all(m, reports.drop_last()), reports.last())
    }
}

enum End {
    Connected,
    Failed { kind: ErrorKind, reason: String },
}

/// One connect attempt.
pub struct ConnectAttempt {
    phase: ConnectPhase,
    chain: Authenticator,
    step: SetupStep,
    sftp: bool,
    ended: Option<End>,
}

impl View for ConnectAttempt {
    type V = AttemptModel;

    closed spec fn view(&self) -> AttemptModel {
        AttemptModel {
            phase: self.phase,
            chain: self.chain@,
            step: self.step,
            sftp: self.sftp,
            ended: match self.ended {
                Some(End::Connected) => Some(Ending::Connected),
                Some(End::Failed { kind, reason }) => Some(Ending::Failed { kind, reason: reason@ }),
                None => None,
            },
        }
    }
}

impl ConnectAttempt {
    /// An attempt that authenticates as `method` asks, with the
    /// conventional keys looked for under `home`. Nothing has been done yet.
    pub fn new(method: &AuthenticationMethod, home: &str) -> (attempt: ConnectAttempt)
        ensures
            attempt@ == fresh_attempt(*method, home@),
    {
        ConnectAttempt {
            phase: ConnectPhase::Resolve,
            chain: Authenticator::new(method, home),
            step: SetupStep::OpenChannel,
            sftp: false,
            ended: None,
        }
    }

    /// The phase that the attempt is in.
    pub fn phase(&self) -> (phase: ConnectPhase)
        ensures
            phase == self@.phase,
    {
        self.phase
    }

    /// What is to be done next.
    pub fn next(&self) -> (action: ConnectAction)
        ensures
            action@ == next_action(self@),
    {
        if self.ended.is_some() {
            return ConnectAction::Finished;
        }
        match self.phase {
            ConnectPhase::Resolve => ConnectAction::Resolve,
            ConnectPhase::Transport => ConnectAction::OpenStream,
            ConnectPhase::Handshake => ConnectAction::Handshake,
            ConnectPhase::Authenticate => match self.chain.current() {
                Some(candidate) => ConnectAction::Offer(
                    Candidate {
                        credential: candidate.credential,
                        target: candidate.target.clone(),
                    },
                ),
                None => ConnectAction::Finished,
            },
            ConnectPhase::Channel => ConnectAction::Setup(self.step),
            ConnectPhase::StartPumps => ConnectAction::StartPumps { sftp: self.sftp },
        }
    }

    /// Takes note of how the action that `next` named went, and moves on.
    /// For an offer the report is the outcome of the attempt with the
    /// candidate. For any other action it says whether the action went
    /// through, with the reason where it did not.
    pub fn report(&mut self, report: Outcome)
        ensures
            final(self)@ == attempt_after(old(self)@, report@),
    {
        if self.ended.is_some() {
            return ;
        }
        let went = match &report {
            Outcome::Succeeded => true,
            _ => false,
        };
        match self.phase {
            ConnectPhase::Authenticate => {
                self.chain.record(report);
                if self.chain.is_authenticated() {
                    self.phase = ConnectPhase::Channel;
                } else if self.chain.is_exhausted() {
                    let reason = attempts_message(self.chain.record_so_far());
                    self.ended = Some(End::Failed { kind: ErrorKind::Auth, reason });
                }
            },
            ConnectPhase::Channel => {
                match after_step(self.step, went) {
                    SetupVerdict::Next(next) => {
                        self.step = next;
                    },
                    SetupVerdict::Ready { sftp } => {
                        self.phase = ConnectPhase::StartPumps;
                        self.sftp = sftp;
                    },
                    SetupVerdict::Failed(failed) => {
                        let reason = match &report {
                            Outcome::Failed(why) => failure_message(failed, why.as_str()),
                            _ => failure_message(failed, ""),
                        };
                        proof {
                            reveal_strlit("");
                        }
                        self.ended = Some(End::Failed { kind: ErrorKind::Channel, reason });
                    },
                }
            },
            phase => {
                match after_phase(phase, went) {
                    PhaseVerdict::Next(next) => {
                        self.phase = next;
                    },
                    PhaseVerdict::Connected => {
                        self.ended = Some(End::Connected);
                    },
                    PhaseVerdict::Failed(kind) => {
                        let reason = match &report {
                            Outcome::Failed(why) => phase_failure_message(phase, why.as_str()),
                            _ => phase_failure_message(phase, ""),
                        };
                        proof {
                            reveal_strlit("");
                        }
                        self.ended = Some(End::Failed { kind, reason });
                    },
                }
            },
        }
    }

    /// Whether the attempt has ended.
    pub fn is_finished(&self) -> (finished: bool)
        ensures
            finished == (self@.ended is Some),
    {
        self.ended.is_some()
    }

    /// How the attempt has ended: connected, with the word whether SFTP is
    /// there, or failed, with the error; and `None` where it has not ended
    /// yet. A failed authentication carries the record of all that was
    /// tried.
    pub fn finish(self) -> (verdict: Option<Result<bool, ConnectError>>)
        ensures
            match self@.ended {
                None => verdict is None,
                Some(Ending::Connected) => verdict == Some(Ok::<bool, ConnectError>(self@.sftp)),
                Some(Ending::Failed { kind, reason }) => verdict matches Some(Err(error))
                    && match kind {
                    ErrorKind::Transport => error matches ConnectError::Transport(text) && text@
                        == reason,
                    ErrorKind::Handshake => error matches ConnectError::Handshake(text) && text@
                        == reason,
                    ErrorKind::Auth => self@.chain.authenticated || (error
                        matches ConnectError::Auth(record) && record@ == self@.chain.trail),
                    ErrorKind::Channel => error matches ConnectError::Channel(text) && text@
                        == reason,
                    ErrorKind::Io => error matches ConnectError::Io(text) && text@ == reason,
                },
            },
    {
        match self.ended {
            None => None,
            Some(End::Connected) => Some(Ok(self.sftp)),
            Some(End::Failed { kind, reason }) => Some(
                Err(
                    match kind {
                        ErrorKind::Transport => ConnectError::Transport(reason),
                        ErrorKind::Handshake => ConnectError::Handshake(reason),
                        ErrorKind::Auth => match self.chain.finish() {
                            Err(record) => ConnectError::Auth(record),
                            Ok(_) => ConnectError::Io(reason),
                        },
                        ErrorKind::Channel => ConnectError::Channel(reason),
                        ErrorKind::Io => ConnectError::Io(reason),
                    },
                ),
            ),
        }
    }
}

/// What holds of an attempt however it has run: past the authentication
/// the chain has succeeded; a connected attempt has gone through every
/// phase; and a failed authentication is a chain that has run out.
pub open spec fn ran_well(m: AttemptModel) -> bool {
    &&& (m.phase == ConnectPhase::Channel || m.phase == ConnectPhase::StartPumps)
        ==> m.chain.authenticated
    &&& (m.phase == ConnectPhase::Resolve || m.phase == ConnectPhase::Transport || m.phase
        == ConnectPhase::Handshake) ==> m.chain.trail.len() == 0 && !m.chain.authenticated
    &&& m.ended == Some(Ending::Connected) ==> m.phase == ConnectPhase::StartPumps
    &&& (m.ended matches Some(Ending::Failed { kind, .. }) && kind == ErrorKind::Auth)
        ==> m.phase == ConnectPhase::Authenticate && exhausted(m.chain)
    &&& (m.ended is None && m.phase == ConnectPhase::Authenticate) ==> !m.chain.authenticated
}

/// No session is connected without authentication: an attempt that ends
/// connected has gone through every phase, and its chain has succeeded. An
/// attempt that fails at the authentication has tried every candidate that
/// its chain came to.
pub proof fn law_no_connection_without_authentication(
    method: AuthenticationMethod,
    home: Seq<char>,
    reports: Seq<OutcomeView>,
)
    ensures
        ran_well(attempt_after_all(fresh_attempt(method, home), reports)),
        attempt_after_all(fresh_attempt(method, home), reports).ended == Some(Ending::Connected)
            ==> attempt_after_all(fresh_attempt(method, home), reports).chain.authenticated,
    decreases reports.len(),
{
    if reports.len() > 0 {
        law_no_connection_without_authentication(method, home, reports.drop_last());
    }
}

/// Nothing is retried: an attempt that has ended stays as it has ended,
/// whatever is reported to it.
pub proof fn law_an_ended_attempt_stays(m: AttemptModel, reports: Seq<OutcomeView>)
    requires
        m.ended is Some,
    ensures
        attempt_after_all(m, reports) == m,
    decreases reports.len(),
{
    if reports.len() > 0 {
        law_an_ended_attempt_stays(m, reports.drop_last());
    }
}

} // verus!
