//! The sessions that the user has saved, and the state of the application
//! around them: the saved sessions and the registry of live connections.

use vstd::prelude::*;
use vstd::string::*;
use crate::config::{is_config_of, ssh_config_for, SshConfig};
use crate::manager::{after_connect, has_session, EngineError, EntryModel, SshManager};
use crate::paths::{conventional_key_of, conventional_key_path};
use crate::text::str_equal;
use crate::{AuthMethod, Protocol, Session};

verus! {

/// Where the key lies that a new session is set up with: `id_ed25519` in
/// the `.ssh` directory of `home`, written with `~` where no home directory
/// is known.
pub fn get_default_ssh_key_path(home: Option<&str>) -> (path: String)
    ensures
        path@ == conventional_key_of(
            match home {
                Some(dir) => dir@,
                None => "~"@,
            },
            "id_ed25519"@,
        ),
{
    match home {
        Some(dir) => conventional_key_path(dir, "id_ed25519"),
        None => conventional_key_path("~", "id_ed25519"),
    }
}

/// Index of the first session with the identifier `id`, or the number of
/// sessions where there is none.
pub open spec fn slot_of(sessions: Seq<Session>, id: Seq<char>) -> int
    decreases sessions.len(),
{
    if sessions.len() == 0 {
        0
    } else if sessions[0].id@ == id {
        0
    } else {
        1 + slot_of(sessions.drop_first(), id)
    }
}

/// Whether a session with the identifier `id` is saved.
pub open spec fn is_saved(sessions: Seq<Session>, id: Seq<char>) -> bool {
    slot_of(sessions, id) < sessions.len()
}

/// The saved sessions after `session` was saved: in the place of the
/// session of its identifier, or at the end where there was none.
pub open spec fn saved(sessions: Seq<Session>, session: Session) -> Seq<Session> {
    if is_saved(sessions, session.id@) {
        sessions.update(slot_of(sessions, session.id@), session)
    } else {
        sessions.push(session)
    }
}

/// The saved sessions after each of `more` was saved, in order.
pub open spec fn saved_all(sessions: Seq<Session>, more: Seq<Session>) -> Seq<Session>
    decreases more.len(),
{
    if more.len() == 0 {
        sessions
    } else {
        saved(saved_all(sessions, more.drop_last()), more.last())
    }
}

/// `slot_of` is the one index that holds `id` with no session of that
/// identifier before it.
pub proof fn lemma_slot_of(sessions: Seq<Session>, id: Seq<char>, k: int)
    requires
        0 <= k <= sessions.len(),
        forall|j: int| 0 <= j < k ==> (#[trigger] sessions[j]).id@ != id,
        k < sessions.len() ==> sessions[k].id@ == id,
    ensures
        slot_of(sessions, id) == k,
    decreases sessions.len(),
{
    if sessions.len() > 0 && k > 0 {
        lemma_slot_of(sessions.drop_first(), id, k - 1);
    }
}

/// Why the application refused a request.
#[derive(Debug, Clone, Copy, PartialEq, Eq, Structural)]
pub enum AppError {
    /// No session of that identifier is saved.
    SessionNotFound,
    /// The registry refused.
    Engine(EngineError),
}

/// The state of the application.
pub struct AppState {
    sessions: Vec<Session>,
    ssh_manager: SshManager,
}

impl AppState {
    /// The state at start: nothing saved, nothing connected.
    pub fn new() -> (state: AppState)
        ensures
            state.sessions().len() == 0,
            state.connections().len() == 0,
    {
        AppState { sessions: Vec::new(), ssh_manager: SshManager::new() }
    }

    /// The saved sessions.
    pub closed spec fn sessions(&self) -> Seq<Session> {
        self.sessions@
    }

    /// The registry of live connections.
    pub closed spec fn connections(&self) -> Seq<EntryModel> {
        self.ssh_manager@
    }

    fn find(&self, session_id: &str) -> (at: usize)
        ensures
            at == slot_of(self.sessions(), session_id@),
            at <= self.sessions().len(),
    {
        let mut at: usize = 0;
        while at < self.sessions.len() && !str_equal(self.sessions[at].id.as_str(), session_id)
            invariant
                at <= self.sessions.len(),
                forall|j: int| 0 <= j < at ==> (#[trigger] self.sessions@[j]).id@ != session_id@,
            decreases self.sessions.len() - at,
        {
            at = at + 1;
        }
        proof {
            lemma_slot_of(self.sessions@, session_id@, at as int);
        }
        at
    }

    /// The registry, to work on the live connections.
    pub fn ssh_manager(&mut self) -> (registry: &mut SshManager)
        ensures
            registry@ == old(self).connections(),
            final(self).sessions() == old(self).sessions(),
            final(self).connections() == final(registry)@,
    {
        &mut self.ssh_manager
    }

    /// The saved sessions, in the order in which they were first saved.
    pub fn list_sessions(&self) -> (all: Vec<&Session>)
        ensures
            all@.len() == self.sessions().len(),
            forall|i: int| 0 <= i < all@.len() ==> *(#[trigger] all@[i]) == self.sessions()[i],
    {
        let mut all: Vec<&Session> = Vec::new();
        let mut i: usize = 0;
        while i < self.sessions.len()
            invariant
                i <= self.sessions.len(),
                all@.len() == i,
                forall|j: int| 0 <= j < i ==> *(#[trigger] all@[j]) == self.sessions@[j],
            decreases self.sessions.len() - i,
        {
            all.push(&self.sessions[i]);
            i = i + 1;
        }
        all
    }

    /// Saves `session`, in the place of the session of its identifier where
    /// there is one.
    pub fn update_session(&mut self, session: Session)
        ensures
            final(self).sessions() == saved(old(self).sessions(), session),
            final(self).connections() == old(self).connections(),
    {
        let at = self.find(session.id.as_str());
        if at < self.sessions.len() {
            self.sessions.set(at, session);
        } else {
            self.sessions.push(session);
        }
    }

    /// Sets up and saves a new session: public-key authentication with the
    /// key at `default_key_path`, never used so far. The identifier and the
    /// time of creation are the caller's to make.
    pub fn create_session(
        &mut self,
        id: String,
        name: String,
        host: String,
        port: u16,
        username: String,
        protocol: Protocol,
        default_key_path: String,
        created_at: String,
    ) -> (at: usize)
        ensures
            final(self).sessions() == saved(
                old(self).sessions(),
                Session {
                    id,
                    name,
                    host,
                    port,
                    username,
                    auth_method: AuthMethod::PublicKey { key_path: default_key_path },
                    protocol,
                    created_at,
                    last_used: None,
                },
            ),
            at == slot_of(old(self).sessions(), id@),
            final(self).connections() == old(self).connections(),
    {
        let at = self.find(id.as_str());
        let session = Session {
            id,
            name,
            host,
            port,
            username,
            auth_method: AuthMethod::PublicKey { key_path: default_key_path },
            protocol,
            created_at,
            last_used: None,
        };
        if at < self.sessions.len() {
            self.sessions.set(at, session);
        } else {
            self.sessions.push(session);
        }
        at
    }

    /// The saved session with the identifier `session_id`.
    pub fn get_session(&self, session_id: &str) -> (found: Option<&Session>)
        ensures
            match found {
                Some(session) => is_saved(self.sessions(), session_id@) && *session
                    == self.sessions()[slot_of(self.sessions(), session_id@)],
                None => !is_saved(self.sessions(), session_id@),
            },
    {
        let at = self.find(session_id);
        if at < self.sessions.len() {
            Some(&self.sessions[at])
        } else {
            None
        }
    }

    /// Takes the session with the identifier `session_id` out of the saved
    /// sessions. Where there is none, nothing changes.
    pub fn delete_session(&mut self, session_id: &str)
        ensures
            final(self).sessions() == if is_saved(old(self).sessions(), session_id@) {
                old(self).sessions().remove(slot_of(old(self).sessions(), session_id@))
            } else {
                old(self).sessions()
            },
            final(self).connections() == old(self).connections(),
    {
        let at = self.find(session_id);
        if at < self.sessions.len() {
            let _gone = self.sessions.remove(at);
        }
    }

    /// Takes in the sessions that were read from the store: each is saved,
    /// in order.
    pub fn load_sessions(&mut self, stored: Vec<Session>)
        ensures
            final(self).sessions() == saved_all(old(self).sessions(), stored@),
            final(self).connections() == old(self).connections(),
    {
        let mut stored = stored;
        let ghost all = stored@;
        let mut rest: Vec<Session> = Vec::new();
        // Turned around, so that the sessions can be taken off the end in
        // their order.
        while stored.len() > 0
            invariant
                stored@.len() + rest@.len() == all.len(),
                stored@ == all.take(stored@.len() as int),
                forall|j: int|
                    0 <= j < rest@.len() ==> #[trigger] rest@[j] == all[all.len() - 1 - j],
            decreases stored.len(),
        {
            let session = stored.pop().unwrap();
            rest.push(session);
        }
        while rest.len() > 0
            invariant
                rest@.len() <= all.len(),
                forall|j: int|
                    0 <= j < rest@.len() ==> #[trigger] rest@[j] == all[all.len() - 1 - j],
                self.sessions() == saved_all(
                    old(self).sessions(),
                    all.take(all.len() - rest@.len()),
                ),
                self.connections() == old(self).connections(),
            decreases rest.len(),
        {
            let ghost done = all.len() - rest@.len();
            let session = rest.pop().unwrap();
            proof {
                assert(all.take(done + 1).drop_last() =~= all.take(done));
            }
            self.update_session(session);
        }
    }

    /// Begins to connect the saved session `session_id`: its identifier is
    /// reserved in the registry, and the connect request for it is handed
    /// back. A session that is not saved is refused, and so is one that has
    /// a connection already; neither changes anything.
    pub fn connect_ssh(&mut self, session_id: &str) -> (request: Result<SshConfig, AppError>)
        ensures
            final(self).sessions() == old(self).sessions(),
            ({
                let saved = old(self).sessions();
                let live = old(self).connections();
                if !is_saved(saved, session_id@) {
                    &&& request matches Err(AppError::SessionNotFound)
                    &&& final(self).connections() == live
                } else if has_session(live, session_id@) {
                    &&& request matches Err(AppError::Engine(EngineError::AlreadyConnected))
                    &&& final(self).connections() == live
                } else {
                    &&& request matches Ok(config) && is_config_of(
                        config,
                        saved[slot_of(saved, session_id@)],
                    )
                    &&& final(self).connections() == after_connect(live, session_id@)
                }
            }),
    {
        let at = self.find(session_id);
        if at >= self.sessions.len() {
            return Err(AppError::SessionNotFound);
        }
        match self.ssh_manager.connect(session_id) {
            Err(error) => Err(AppError::Engine(error)),
            Ok(_) => Ok(ssh_config_for(&self.sessions[at])),
        }
    }
}

} // verus!
