//! The live sessions, by handle.
//!
//! The registry owns its sessions. Work on a session is routed through the
//! registry by handle, and touches that session alone: every other session
//! stays exactly as it was.

use std::collections::HashMap;
use vstd::prelude::*;
use crate::attributes::{Attributes, WindowSize};
use crate::event::ControlEvent;
use crate::session::{Pty, PtyView};

verus! {

/// Why an operation on the registry failed.
#[derive(Clone, Copy, Debug, PartialEq, Eq, Structural)]
pub enum SessionError {
    /// No live session has this handle.
    NotFound,
    /// A live session has this handle already.
    DuplicateId,
    /// The session was removed while a reader waited for it.
    SessionClosed,
}

/// The live sessions, by handle.
pub struct Registry {
    sessions: HashMap<usize, Pty>,
}

/// What a reader's attempt to drain the session `id` gives: an entry, the
/// advice to wait (`Ok(None)`), or a failure. A reader that comes back from
/// waiting (`resumed`) and finds the session gone learns that it was closed;
/// a reader that asks for a session that is not there learns just that.
pub open spec fn drain_result(
    sessions: Map<usize, PtyView>,
    id: usize,
    resumed: bool,
) -> Result<Option<Seq<u8>>, SessionError> {
    if !sessions.contains_key(id) {
        if resumed {
            Err(SessionError::SessionClosed)
        } else {
            Err(SessionError::NotFound)
        }
    } else if sessions[id].line.outbound.len() > 0 {
        Ok(Some(sessions[id].line.outbound[0]))
    } else {
        Ok(None)
    }
}

/// The sessions after the session `id` has consumed `bytes`.
pub open spec fn consumed(sessions: Map<usize, PtyView>, id: usize, bytes: Seq<u8>) -> Map<
    usize,
    PtyView,
> {
    if sessions.contains_key(id) {
        sessions.insert(id, sessions[id].consume(bytes).0)
    } else {
        sessions
    }
}

/// The sessions after the oldest entry of the session `id` has left.
pub open spec fn drained(sessions: Map<usize, PtyView>, id: usize) -> Map<usize, PtyView> {
    if sessions.contains_key(id) {
        sessions.insert(id, sessions[id].drained())
    } else {
        sessions
    }
}

/// Sessions do not interfere. Input to one session changes no other, so two
/// inputs to different sessions give the same sessions, the same events and
/// the same entries to readers in whichever order they arrive.
pub proof fn sessions_do_not_interfere(
    sessions: Map<usize, PtyView>,
    a: usize,
    x: Seq<u8>,
    b: usize,
    y: Seq<u8>,
    resumed: bool,
)
    requires
        a != b,
        sessions.contains_key(a),
        sessions.contains_key(b),
    ensures
        consumed(sessions, a, x)[b] == sessions[b],
        consumed(consumed(sessions, a, x), b, y) == consumed(consumed(sessions, b, y), a, x),
        consumed(sessions, a, x)[b].consume(y).1 == sessions[b].consume(y).1,
        drain_result(consumed(sessions, a, x), b, resumed) == drain_result(sessions, b, resumed),
        drained(consumed(sessions, a, x), b) == consumed(drained(sessions, b), a, x),
{
    assert(consumed(consumed(sessions, a, x), b, y) =~= consumed(consumed(sessions, b, y), a, x));
    assert(drained(consumed(sessions, a, x), b) =~= consumed(drained(sessions, b), a, x));
}

/// A reader that waited on a session learns of its removal: once the
/// session is gone, the reader's next attempt fails with `SessionClosed`.
pub proof fn removal_closes_reader(sessions: Map<usize, PtyView>, id: usize)
    ensures
        drain_result(sessions.remove(id), id, true) == Err::<Option<Seq<u8>>, SessionError>(
            SessionError::SessionClosed,
        ),
{
}

/// A reader that waited on an empty queue gets the first entry that an
/// input finishes, and goes on waiting while no input finishes one.
pub proof fn input_wakes_reader(sessions: Map<usize, PtyView>, id: usize, bytes: Seq<u8>)
    requires
        sessions.contains_key(id),
        sessions[id].line.outbound.len() == 0,
    ensures
        ({
            let queue = sessions[id].consume(bytes).0.line.outbound;
            drain_result(consumed(sessions, id, bytes), id, true) == if queue.len() > 0 {
                Ok::<Option<Seq<u8>>, SessionError>(Some(queue[0]))
            } else {
                Ok::<Option<Seq<u8>>, SessionError>(None)
            }
        }),
{
}

impl View for Registry {
    type V = Map<usize, PtyView>;

    closed spec fn view(&self) -> Map<usize, PtyView> {
        self.sessions@.map_values(|pty: Pty| pty@)
    }
}

impl Registry {
    /// Every session is filed under its own handle.
    #[verifier::type_invariant]
    spec fn keyed_by_id(self) -> bool {
        forall|id: usize| #[trigger]
            self.sessions@.contains_key(id) ==> self.sessions@[id]@.id == id
    }

    /// Moves the sessions out, so that they can be worked on; the caller
    /// puts them back.
    fn take(&mut self) -> (sessions: HashMap<usize, Pty>)
        ensures
            sessions == old(self).sessions,
            final(self).sessions@ == Map::<usize, Pty>::empty(),
            forall|id: usize| #[trigger]
                sessions@.contains_key(id) ==> sessions@[id]@.id == id,
    {
        proof {
            use_type_invariant(&*self);
        }
        let mut sessions = HashMap::new();
        core::mem::swap(&mut self.sessions, &mut sessions);
        sessions
    }

    /// A registry without sessions.
    pub fn new() -> (registry: Registry)
        ensures
            registry@ == Map::<usize, PtyView>::empty(),
    {
        let registry = Registry { sessions: HashMap::new() };
        assert(registry@ =~= Map::<usize, PtyView>::empty());
        registry
    }

    /// Whether a live session has the handle `id`.
    pub fn contains(&self, id: usize) -> (found: bool)
        ensures
            found == self@.contains_key(id),
    {
        self.sessions.contains_key(&id)
    }

    /// Number of live sessions.
    pub fn len(&self) -> (count: usize)
        ensures
            count == self@.len(),
    {
        proof {
            assert(self@.dom() =~= self.sessions@.dom());
        }
        self.sessions.len()
    }

    /// Creates a fresh session under the handle `id` and files it.
    /// Fails with `DuplicateId`, and changes nothing, where a live session
    /// has that handle.
    pub fn allocate(&mut self, id: usize) -> (res: Result<(), SessionError>)
        ensures
            old(self)@.contains_key(id) ==> {
                &&& res == Err::<(), SessionError>(SessionError::DuplicateId)
                &&& final(self)@ == old(self)@
            },
            !old(self)@.contains_key(id) ==> {
                &&& res.is_ok()
                &&& final(self)@.contains_key(id)
                &&& final(self)@[id].is_fresh(id)
                &&& final(self)@.remove(id) == old(self)@
            },
    {
        if self.sessions.contains_key(&id) {
            return Err(SessionError::DuplicateId);
        }
        let mut sessions = self.take();
        sessions.insert(id, Pty::new(id));
        self.sessions = sessions;
        assert(self@.remove(id) =~= old(self)@);
        Ok(())
    }

    /// The session under the handle `id`. Fails with `NotFound` where no
    /// live session has that handle.
    pub fn get(&self, id: usize) -> (res: Result<&Pty, SessionError>)
        ensures
            match res {
                Ok(pty) => self@.contains_key(id) && pty@ == self@[id] && pty@.id == id,
                Err(e) => !self@.contains_key(id) && e == SessionError::NotFound,
            },
    {
        proof {
            use_type_invariant(self);
        }
        match self.sessions.get(&id) {
            Some(pty) => Ok(pty),
            None => Err(SessionError::NotFound),
        }
    }

    /// Takes the session under the handle `id` out of the registry and hands
    /// it back. Fails with `NotFound`, and changes nothing, where no live
    /// session has that handle.
    pub fn remove(&mut self, id: usize) -> (res: Result<Pty, SessionError>)
        ensures
            final(self)@ == old(self)@.remove(id),
            match res {
                Ok(pty) => old(self)@.contains_key(id) && pty@ == old(self)@[id] && pty@.id == id,
                Err(e) => !old(self)@.contains_key(id) && e == SessionError::NotFound,
            },
    {
        let mut sessions = self.take();
        let found = sessions.remove(&id);
        self.sessions = sessions;
        assert(self@ =~= old(self)@.remove(id));
        match found {
            Some(pty) => Ok(pty),
            None => Err(SessionError::NotFound),
        }
    }

    /// Replaces the attributes of the session `id`. Fails with `NotFound`,
    /// and changes nothing, where no live session has that handle.
    pub fn set_attr(&mut self, id: usize, attr: Attributes) -> (res: Result<(), SessionError>)
        ensures
            old(self)@.contains_key(id) ==> {
                &&& res.is_ok()
                &&& final(self)@ == old(self)@.insert(id, old(self)@[id].with_attr(attr))
            },
            !old(self)@.contains_key(id) ==> {
                &&& res == Err::<(), SessionError>(SessionError::NotFound)
                &&& final(self)@ == old(self)@
            },
    {
        let mut sessions = self.take();
        let res = match sessions.remove(&id) {
            Some(pty) => {
                let mut pty = pty;
                pty.set_attr(attr);
                sessions.insert(id, pty);
                Ok(())
            },
            None => Err(SessionError::NotFound),
        };
        self.sessions = sessions;
        proof {
            if res.is_ok() {
                assert(self@ =~= old(self)@.insert(id, old(self)@[id].with_attr(attr)));
            } else {
                assert(self@ =~= old(self)@);
            }
        }
        res
    }

    /// Replaces the window size of the session `id`. Fails with `NotFound`,
    /// and changes nothing, where no live session has that handle.
    pub fn set_winsize(&mut self, id: usize, winsize: WindowSize) -> (res: Result<
        (),
        SessionError,
    >)
        ensures
            old(self)@.contains_key(id) ==> {
                &&& res.is_ok()
                &&& final(self)@ == old(self)@.insert(id, old(self)@[id].with_winsize(winsize))
            },
            !old(self)@.contains_key(id) ==> {
                &&& res == Err::<(), SessionError>(SessionError::NotFound)
                &&& final(self)@ == old(self)@
            },
    {
        let mut sessions = self.take();
        let res = match sessions.remove(&id) {
            Some(pty) => {
                let mut pty = pty;
                pty.set_winsize(winsize);
                sessions.insert(id, pty);
                Ok(())
            },
            None => Err(SessionError::NotFound),
        };
        self.sessions = sessions;
        proof {
            if res.is_ok() {
                assert(self@ =~= old(self)@.insert(id, old(self)@[id].with_winsize(winsize)));
            } else {
                assert(self@ =~= old(self)@);
            }
        }
        res
    }

    /// Feeds `bytes` to the session `id` and hands back the requests to
    /// collaborators. No other session changes. Fails with `NotFound`, and
    /// changes nothing, where no live session has that handle.
    pub fn consume(&mut self, id: usize, bytes: &[u8]) -> (res: Result<
        Vec<ControlEvent>,
        SessionError,
    >)
        ensures
            final(self)@ == consumed(old(self)@, id, bytes@),
            match res {
                Ok(events) => old(self)@.contains_key(id) && events@ == old(self)@[id].consume(
                    bytes@,
                ).1,
                Err(e) => !old(self)@.contains_key(id) && e == SessionError::NotFound,
            },
    {
        let mut sessions = self.take();
        let res = match sessions.remove(&id) {
            Some(pty) => {
                let mut pty = pty;
                let events = pty.consume(bytes);
                sessions.insert(id, pty);
                Ok(events)
            },
            None => Err(SessionError::NotFound),
        };
        self.sessions = sessions;
        proof {
            assert(self@ =~= consumed(old(self)@, id, bytes@));
        }
        res
    }

    /// One attempt of a reader to drain the session `id`.
    ///
    /// Hands back the oldest entry of the queue, which leaves the queue; or
    /// `Ok(None)` where the queue is empty and the reader has to wait. Where
    /// no live session has the handle, the attempt fails: with `NotFound`
    /// for a reader that has not waited, with `SessionClosed` for one that
    /// comes back from waiting (`resumed`), since the session it waited for
    /// was removed meanwhile. No other session changes.
    pub fn drain(&mut self, id: usize, resumed: bool) -> (res: Result<
        Option<Vec<u8>>,
        SessionError,
    >)
        ensures
            final(self)@ == drained(old(self)@, id),
            match res {
                Ok(Some(entry)) => drain_result(old(self)@, id, resumed) == Ok::<
                    Option<Seq<u8>>,
                    SessionError,
                >(Some(entry@)),
                Ok(None) => drain_result(old(self)@, id, resumed) == Ok::<
                    Option<Seq<u8>>,
                    SessionError,
                >(None),
                Err(e) => drain_result(old(self)@, id, resumed) == Err::<
                    Option<Seq<u8>>,
                    SessionError,
                >(e),
            },
    {
        let mut sessions = self.take();
        let res = match sessions.remove(&id) {
            Some(pty) => {
                let mut pty = pty;
                let entry = pty.drain();
                sessions.insert(id, pty);
                Ok(entry)
            },
            None => if resumed {
                Err(SessionError::SessionClosed)
            } else {
                Err(SessionError::NotFound)
            },
        };
        self.sessions = sessions;
        proof {
            assert(self@ =~= drained(old(self)@, id));
        }
        res
    }
}

} // verus!
