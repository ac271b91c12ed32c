//! The process-wide session registry kept by the server controller:
//! one entry per live session, keyed by the session's identity. The
//! controller registers a session when its actor starts and disconnects
//! it exactly once when the actor terminates or one of its callbacks
//! fails — and a failure touches no other session's entry.

use std::collections::HashMap;

use vstd::prelude::*;

use crate::session::next_state;
use crate::session::step_actions;
use crate::session::Session;
use crate::session::SessionAction;
use crate::session::SessionEvent;
use crate::session::SessionState;

verus! {

broadcast use vstd::std_specs::hash::group_hash_axioms;

/// The registry: identity to session, unique keys, insertion order
/// irrelevant.
pub struct Registry {
    sessions: HashMap<u64, Session>,
}

impl View for Registry {
    type V = Map<u64, Session>;

    closed spec fn view(&self) -> Map<u64, Session> {
        self.sessions@
    }
}

impl Registry {
    /// A fresh registry with no sessions.
    pub fn new() -> (registry: Registry)
        ensures
            registry@ == Map::<u64, Session>::empty(),
    {
        Registry { sessions: HashMap::new() }
    }

    /// How many sessions are registered.
    pub fn len(&self) -> (n: usize)
        ensures
            n == self@.dom().len(),
    {
        self.sessions.len()
    }

    /// Whether a session is registered under this identity.
    pub fn contains(&self, id: u64) -> (present: bool)
        ensures
            present == self@.contains_key(id),
    {
        self.sessions.contains_key(&id)
    }

    /// The session registered under this identity, if any.
    pub fn get(&self, id: u64) -> (session: Option<&Session>)
        ensures
            self@.contains_key(id) ==> session == Some(&self@[id]),
            !self@.contains_key(id) ==> session is None,
    {
        self.sessions.get(&id)
    }

    /// Register a session under its identity. A session already
    /// registered under the same identity is replaced.
    pub fn register(&mut self, session: Session)
        ensures
            final(self)@ == old(self)@.insert(session.id, session),
    {
        let id = session.id;
        self.sessions.insert(id, session);
    }

    /// Route one event to the session registered under this identity —
    /// the server's dispatch of an inbound message or a callback verdict
    /// to one session. Every other entry is left exactly as it was;
    /// nothing happens when no session is registered there.
    pub fn dispatch(&mut self, id: u64, event: SessionEvent) -> (actions: Option<
        Vec<SessionAction>,
    >)
        ensures
            !old(self)@.contains_key(id) ==> final(self)@ == old(self)@ && actions is None,
            old(self)@.contains_key(id) ==> {
                &&& final(self)@ == old(self)@.insert(
                    id,
                    Session {
                        id: old(self)@[id].id,
                        state: next_state(old(self)@[id].state, event),
                    },
                )
                &&& actions matches Some(performed) && performed@ == step_actions(
                    old(self)@[id].state,
                    event,
                )
            },
    {
        match self.sessions.remove(&id) {
            Some(mut session) => {
                let performed = session.handle_event(event);
                self.sessions.insert(id, session);
                proof {
                    assert(self@ =~= old(self)@.insert(
                        id,
                        Session {
                            id: old(self)@[id].id,
                            state: next_state(old(self)@[id].state, event),
                        },
                    ));
                }
                Some(performed)
            },
            None => None,
        }
    }

    /// Remove the session registered under this identity, reporting
    /// whether one was there. This is the controller's single
    /// disconnection point: it returns true — and the controller fires
    /// its disconnect callback — at most once per registration, since
    /// the entry is gone afterwards.
    pub fn disconnect(&mut self, id: u64) -> (was_registered: bool)
        ensures
            final(self)@ == old(self)@.remove(id),
            was_registered == old(self)@.contains_key(id),
            !final(self)@.contains_key(id),
    {
        let removed = self.sessions.remove(&id);
        removed.is_some()
    }
}

/// Law: disconnecting one session — for a failed callback or a closed
/// transport — leaves every other session's entry exactly as it was,
/// and removes the disconnected entry itself, so a second disconnect of
/// the same identity reports nothing to remove.
pub proof fn lemma_disconnect_isolated(registry: Map<u64, Session>, failed: u64, other: u64)
    requires
        other != failed,
    ensures
        registry.remove(failed).contains_key(other) == registry.contains_key(other),
        registry.contains_key(other) ==> registry.remove(failed)[other] == registry[other],
        !registry.remove(failed).contains_key(failed),
{
}

/// Law: a freshly registered session is active, is found under its own
/// identity, and registering it changes no other identity's entry.
pub proof fn lemma_register_isolated(registry: Map<u64, Session>, session: Session, other: u64)
    requires
        other != session.id,
        session.state == SessionState::Active,
    ensures
        registry.insert(session.id, session)[session.id].state == SessionState::Active,
        registry.insert(session.id, session).contains_key(other) == registry.contains_key(other),
        registry.contains_key(other) ==> registry.insert(session.id, session)[other]
            == registry[other],
{
}

} // verus!
