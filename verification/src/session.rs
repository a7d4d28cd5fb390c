use vstd::prelude::*;
use vstd::hash_map::StringHashMap;
use crate::registry::{
    duplicate_resources, duplicate_tools, resources_model, tools_model, Resource, ResourceModel,
    Tool, ToolModel,
};

verus! {

/// What the server keeps of one client: when it came and was last heard of,
/// whether it finished the handshake, and the tools and resources it was
/// offered when it initialized.
#[derive(Debug, PartialEq, Eq)]
pub struct Session {
    pub id: String,
    pub initialized: bool,
    /// Milliseconds since the Unix epoch.
    pub created_at: u64,
    /// Milliseconds since the Unix epoch.
    pub last_activity: u64,
    pub last_event_id: u64,
    pub tools: Vec<Tool>,
    pub resources: Vec<Resource>,
}

pub struct SessionModel {
    pub id: Seq<char>,
    pub initialized: bool,
    pub created_at: u64,
    pub last_activity: u64,
    pub last_event_id: u64,
    pub tools: Seq<ToolModel>,
    pub resources: Seq<ResourceModel>,
}

impl Session {
    pub open spec fn view(&self) -> SessionModel {
        SessionModel {
            id: self.id@,
            initialized: self.initialized,
            created_at: self.created_at,
            last_activity: self.last_activity,
            last_event_id: self.last_event_id,
            tools: tools_model(self.tools@),
            resources: resources_model(self.resources@),
        }
    }

    /// A copy that stands for the same session.
    pub fn duplicate(&self) -> (copy: Session)
        ensures
            copy@ == self@,
    {
        Session {
            id: self.id.clone(),
            initialized: self.initialized,
            created_at: self.created_at,
            last_activity: self.last_activity,
            last_event_id: self.last_event_id,
            tools: duplicate_tools(&self.tools),
            resources: duplicate_resources(&self.resources),
        }
    }
}

/// A session that has just been opened at time `now` with this offer.
pub open spec fn fresh_session(
    id: Seq<char>,
    now: u64,
    tools: Seq<ToolModel>,
    resources: Seq<ResourceModel>,
) -> SessionModel {
    SessionModel {
        id,
        initialized: false,
        created_at: now,
        last_activity: now,
        last_event_id: 0,
        tools,
        resources,
    }
}

/// The sessions of one server, each found by its id.
pub struct SessionStore {
    sessions: StringHashMap<Session>,
}

impl SessionStore {
    /// The sessions by id.
    pub closed spec fn view(&self) -> Map<Seq<char>, SessionModel> {
        Map::new(
            |id: Seq<char>| self.sessions@.contains_key(id),
            |id: Seq<char>| self.sessions@[id]@,
        )
    }

    /// Every session is filed under its own id.
    #[verifier::type_invariant]
    spec fn well_formed(&self) -> bool {
        forall|id: Seq<char>| #[trigger]
            self.sessions@.contains_key(id) ==> self.sessions@[id].id@ == id
    }

    /// A store without sessions.
    pub fn new() -> (store: SessionStore)
        ensures
            store@ == Map::<Seq<char>, SessionModel>::empty(),
    {
        let store = SessionStore { sessions: StringHashMap::new() };
        assert(store@ =~= Map::<Seq<char>, SessionModel>::empty());
        store
    }

    /// The session `id`, where there is one.
    pub fn get(&self, id: &str) -> (found: Option<&Session>)
        ensures
            match found {
                Some(s) => self@.contains_key(id@) && self@[id@] == s@ && s.id@ == id@,
                None => !self@.contains_key(id@),
            },
    {
        proof {
            use_type_invariant(self);
        }
        self.sessions.get(id)
    }

    /// Whether there is a session `id`.
    pub fn contains(&self, id: &str) -> (found: bool)
        ensures
            found == self@.contains_key(id@),
    {
        self.sessions.contains_key(id)
    }

    /// How many sessions there are.
    pub fn len(&self) -> (n: usize)
        ensures
            n == self@.len(),
    {
        proof {
            assert(self@.dom() =~= self.sessions@.dom());
        }
        self.sessions.len()
    }

    /// Files `session` under its id, in place of the session that was filed
    /// under that id before, if there was one.
    pub fn put(&mut self, session: Session)
        ensures
            final(self)@ == old(self)@.insert(session.id@, session@),
    {
        proof {
            use_type_invariant(&*self);
        }
        let key = session.id.clone();
        let mut taken = SessionStore::new();
        std::mem::swap(self, &mut taken);
        let SessionStore { sessions } = taken;
        let mut sessions = sessions;
        sessions.insert(key, session);
        *self = SessionStore { sessions };
        assert(self@ =~= old(self)@.insert(session.id@, session@));
    }

    /// Takes the session `id` out of the store. Says whether there was one.
    pub fn remove(&mut self, id: &str) -> (removed: bool)
        ensures
            removed == old(self)@.contains_key(id@),
            final(self)@ == old(self)@.remove(id@),
    {
        proof {
            use_type_invariant(&*self);
        }
        let removed = self.sessions.contains_key(id);
        let mut taken = SessionStore::new();
        std::mem::swap(self, &mut taken);
        let SessionStore { sessions } = taken;
        let mut sessions = sessions;
        sessions.remove(id);
        *self = SessionStore { sessions };
        assert(self@ =~= old(self)@.remove(id@));
        removed
    }

    /// The session `id`: the one that is there, untouched, or else a new one,
    /// opened at `now` with this offer. Returns a copy of it.
    pub fn get_or_create(
        &mut self,
        id: &str,
        now: u64,
        tools: Vec<Tool>,
        resources: Vec<Resource>,
    ) -> (session: Session)
        ensures
            session.id@ == id@,
            old(self)@.contains_key(id@) ==> final(self)@ == old(self)@ && session@ == old(
                self,
            )@[id@],
            !old(self)@.contains_key(id@) ==> session@ == fresh_session(
                id@,
                now,
                tools_model(tools@),
                resources_model(resources@),
            ) && final(self)@ == old(self)@.insert(id@, session@),
    {
        match self.get(id) {
            Some(found) => found.duplicate(),
            None => {
                let session = Session {
                    id: String::from_str(id),
                    initialized: false,
                    created_at: now,
                    last_activity: now,
                    last_event_id: 0,
                    tools,
                    resources,
                };
                let copy = session.duplicate();
                self.put(session);
                copy
            },
        }
    }
}

impl SessionStore {
    /// Changes the session `id` by `mutator`: the session is taken out,
    /// handed to `mutator`, and what comes back is filed under the id it
    /// then has. Says whether there was such a session; where there was
    /// none, nothing changes and `mutator` is not called.
    pub fn update<F: FnOnce(Session) -> Session>(&mut self, id: &str, mutator: F) -> (updated: bool)
        requires
            forall|s: Session| mutator.requires((s,)),
        ensures
            updated == old(self)@.contains_key(id@),
            !updated ==> final(self)@ == old(self)@,
            updated ==> exists|before: Session, after: Session|
                before@ == old(self)@[id@] && mutator.ensures((before,), after) && final(self)@
                    == old(self)@.remove(id@).insert(after.id@, after@),
    {
        let before = match self.get(id) {
            Some(found) => found.duplicate(),
            None => {
                return false;
            },
        };
        let _ = self.remove(id);
        let after = mutator(before);
        self.put(after);
        true
    }
}

} // verus!
