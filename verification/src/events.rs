use vstd::prelude::*;
use crate::server::{session_key, session_key_of, McpServerState, ServerModel};
use crate::session::SessionModel;

verus! {

/// The seconds between two heartbeats of an event stream.
pub const HEARTBEAT_INTERVAL_SECS: u64 = 30;

/// The name of the heartbeat event.
pub const HEARTBEAT_EVENT: &'static str = "ping";

/// What is pushed to the client over its event stream.
#[derive(Debug, PartialEq, Eq)]
pub struct Event {
    /// The count of the events of the stream up to this one.
    pub id: u64,
    pub name: String,
    pub data: String,
}

pub struct EventModel {
    pub id: u64,
    pub name: Seq<char>,
    pub data: Seq<char>,
}

impl Event {
    pub open spec fn view(&self) -> EventModel {
        EventModel { id: self.id, name: self.name@, data: self.data@ }
    }
}

/// The heartbeat that is the `id`-th event of its stream.
pub open spec fn heartbeat(id: u64) -> EventModel {
    EventModel { id, name: HEARTBEAT_EVENT@, data: "{}"@ }
}

/// The event stream of one connection. It has no end of its own: the host
/// asks for the next heartbeat every `HEARTBEAT_INTERVAL_SECS` seconds for
/// as long as the connection stands.
pub struct EventStream {
    session_id: String,
    emitted: u64,
}

impl EventStream {
    /// The session that the stream belongs to.
    pub closed spec fn session(&self) -> Seq<char> {
        self.session_id@
    }

    /// How many events the stream has yielded.
    pub closed spec fn emitted(&self) -> u64 {
        self.emitted
    }

    /// Opens the stream of a session. Nothing was yielded yet.
    pub fn open(session_id: &str) -> (stream: EventStream)
        ensures
            stream.session() == session_id@,
            stream.emitted() == 0,
    {
        EventStream { session_id: String::from_str(session_id), emitted: 0 }
    }

    /// The session that the stream belongs to.
    pub fn session_id(&self) -> (id: &str)
        ensures
            id@ == self.session(),
    {
        self.session_id.as_str()
    }

    /// The id of the event that was yielded last; 0 before the first.
    pub fn last_event_id(&self) -> (id: u64)
        ensures
            id == self.emitted(),
    {
        self.emitted
    }

    /// Yields the next heartbeat. Its id is one more than that of the
    /// event before it.
    pub fn next_event(&mut self) -> (event: Event)
        requires
            old(self).emitted() < u64::MAX,
        ensures
            final(self).session() == old(self).session(),
            final(self).emitted() == old(self).emitted() + 1,
            event@ == heartbeat(final(self).emitted()),
    {
        self.emitted = self.emitted + 1;
        Event {
            id: self.emitted,
            name: String::from_str(HEARTBEAT_EVENT),
            data: String::from_str("{}"),
        }
    }
}

/// The server after the session `session_id` was sent the event
/// `event_id`: the session remembers it as its last event. Where there is
/// no such session nothing changes.
pub open spec fn note_event_step(
    s: ServerModel,
    session_id: Seq<char>,
    event_id: u64,
) -> ServerModel {
    let key = session_key(session_id);
    if s.sessions.contains_key(key) {
        ServerModel {
            sessions: s.sessions.insert(
                key,
                SessionModel { last_event_id: event_id, ..s.sessions[key] },
            ),
            ..s
        }
    } else {
        s
    }
}

/// Records that the session `session_id` was sent the event `event_id`.
pub fn note_event(state: &mut McpServerState, session_id: &str, event_id: u64)
    ensures
        final(state)@ == note_event_step(old(state)@, session_id@, event_id),
{
    let known = match state.sessions.get(session_key_of(session_id)) {
        Some(session) => Some(session.duplicate()),
        None => None,
    };
    match known {
        Some(mut session) => {
            session.last_event_id = event_id;
            state.sessions.put(session);
        },
        None => {},
    }
}

/// The server after the session `session_id` was torn down.
pub open spec fn close_session_step(s: ServerModel, session_id: Seq<char>) -> ServerModel {
    ServerModel { sessions: s.sessions.remove(session_key(session_id)), ..s }
}

/// Tears down the session `session_id`. Says whether there was one.
pub fn close_session(state: &mut McpServerState, session_id: &str) -> (closed: bool)
    ensures
        final(state)@ == close_session_step(old(state)@, session_id@),
        closed == old(state)@.sessions.contains_key(session_key(session_id@)),
{
    state.sessions.remove(session_key_of(session_id))
}

/// The HTTP status that answers a teardown: 200 where a session was torn
/// down, 202 where there was none to tear down.
pub fn teardown_status(closed: bool) -> (status: u16)
    ensures
        status == if closed {
            200u16
        } else {
            202u16
        },
{
    if closed {
        200
    } else {
        202
    }
}

} // verus!
