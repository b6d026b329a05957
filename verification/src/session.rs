use vstd::prelude::*;

use crate::server::{build_ws_url, ws_url, WsUrlError};
use crate::text::same_text;

verus! {

/// The sessions of the socket server: each config that a client posted,
/// under the id that was handed out for it.
pub struct SessionRegistry<S> {
    entries: Vec<(String, S)>,
    sessions: Ghost<Map<Seq<char>, S>>,
}

impl<S> View for SessionRegistry<S> {
    type V = Map<Seq<char>, S>;

    /// Session id -> the services of that session.
    closed spec fn view(&self) -> Map<Seq<char>, S> {
        self.sessions@
    }
}

/// The entries hold distinct ids, and they are exactly the map's entries.
spec fn entries_match<S>(entries: Seq<(String, S)>, sessions: Map<Seq<char>, S>) -> bool {
    &&& forall|i: int, j: int|
        0 <= i < j < entries.len() ==> #[trigger] entries[i].0@ != #[trigger] entries[j].0@
    &&& forall|i: int|
        0 <= i < entries.len() ==> #[trigger] sessions.contains_key(entries[i].0@)
            && sessions[entries[i].0@] == entries[i].1
    &&& forall|k: Seq<char>|
        #[trigger] sessions.contains_key(k) ==> exists|i: int|
            0 <= i < entries.len() && #[trigger] entries[i].0@ == k
}

impl<S> SessionRegistry<S> {
    /// The entries hold distinct ids, and they are exactly the view.
    #[verifier::type_invariant]
    spec fn wf(&self) -> bool {
        entries_match(self.entries@, self.sessions@)
    }

    /// A registry with no session.
    pub fn new() -> (res: Self)
        ensures
            res@ == Map::<Seq<char>, S>::empty(),
    {
        SessionRegistry { entries: Vec::new(), sessions: Ghost(Map::empty()) }
    }

    /// Where session `id` stands among the entries, if it is there.
    fn position(&self, id: &str) -> (res: Option<usize>)
        ensures
            match res {
                Some(i) => i < self.entries@.len() && self.entries@[i as int].0@ == id@,
                None => !self@.contains_key(id@),
            },
    {
        proof {
            use_type_invariant(self);
        }
        let mut i: usize = 0;
        while i < self.entries.len()
            invariant
                entries_match(self.entries@, self.sessions@),
                i <= self.entries@.len(),
                forall|j: int| 0 <= j < i ==> self.entries@[j].0@ != id@,
            decreases self.entries@.len() - i,
        {
            if same_text(self.entries[i].0.as_str(), id) {
                return Some(i);
            }
            i = i + 1;
        }
        None
    }

    /// The services of session `id`, if there is such a session.
    pub fn get(&self, id: &str) -> (res: Option<&S>)
        ensures
            match res {
                Some(s) => self@.contains_key(id@) && *s == self@[id@],
                None => !self@.contains_key(id@),
            },
    {
        proof {
            use_type_invariant(self);
        }
        match self.position(id) {
            Some(i) => {
                assert(self.sessions@.contains_key(self.entries@[i as int].0@));
                Some(&self.entries[i].1)
            },
            None => None,
        }
    }

    /// Stores `services` under `id`, in place of what was stored there.
    pub fn insert(&mut self, id: String, services: S)
        ensures
            final(self)@ == old(self)@.insert(id@, services),
    {
        let ghost key = id@;
        let pos = self.position(id.as_str());
        let mut taken = SessionRegistry::new();
        std::mem::swap(self, &mut taken);
        proof {
            use_type_invariant(&taken);
        }
        let SessionRegistry { mut entries, sessions } = taken;
        let ghost old_entries = entries@;
        let ghost old_sessions = sessions@;
        let ghost new_sessions = old_sessions.insert(key, services);
        match pos {
            Some(i) => {
                entries.set(i, (id, services));
                assert forall|a: int, b: int|
                    0 <= a < b < entries@.len() implies #[trigger] entries@[a].0@
                    != #[trigger] entries@[b].0@ by {
                    assert(old_entries[a].0@ != old_entries[b].0@);
                }
                assert forall|j: int| 0 <= j < entries@.len() implies #[trigger] new_sessions.contains_key(
                    entries@[j].0@) && new_sessions[entries@[j].0@] == entries@[j].1 by {
                    if j != i {
                        assert(old_entries[j].0@ != old_entries[i as int].0@);
                        assert(old_sessions.contains_key(old_entries[j].0@));
                    }
                }
                assert forall|k: Seq<char>| #[trigger] new_sessions.contains_key(k) implies exists|j: int|
                    0 <= j < entries@.len() && #[trigger] entries@[j].0@ == k by {
                    if k != key {
                        assert(old_sessions.contains_key(k));
                        let j = choose|j: int| 0 <= j < old_entries.len() && #[trigger] old_entries[j].0@ == k;
                        assert(entries@[j].0@ == k);
                    } else {
                        assert(entries@[i as int].0@ == k);
                    }
                }
            },
            None => {
                let ghost n: int = old_entries.len() as int;
                assert forall|j: int| 0 <= j < old_entries.len() implies #[trigger] old_entries[j].0@ != key by {
                    assert(old_sessions.contains_key(old_entries[j].0@));
                }
                entries.push((id, services));
                assert forall|a: int, b: int|
                    0 <= a < b < entries@.len() implies #[trigger] entries@[a].0@
                    != #[trigger] entries@[b].0@ by {
                    if b < n {
                        assert(old_entries[a].0@ != old_entries[b].0@);
                    } else {
                        assert(old_entries[a].0@ != key);
                    }
                }
                assert forall|j: int| 0 <= j < entries@.len() implies #[trigger] new_sessions.contains_key(
                    entries@[j].0@) && new_sessions[entries@[j].0@] == entries@[j].1 by {
                    if j < n {
                        assert(old_sessions.contains_key(old_entries[j].0@));
                        assert(old_entries[j].0@ != key);
                    }
                }
                assert forall|k: Seq<char>| #[trigger] new_sessions.contains_key(k) implies exists|j: int|
                    0 <= j < entries@.len() && #[trigger] entries@[j].0@ == k by {
                    if k != key {
                        assert(old_sessions.contains_key(k));
                        let j = choose|j: int| 0 <= j < old_entries.len() && #[trigger] old_entries[j].0@ == k;
                        assert(entries@[j].0@ == k);
                    } else {
                        assert(entries@[n].0@ == k);
                    }
                }
            },
        }
        *self = SessionRegistry { entries, sessions: Ghost(new_sessions) };
    }

    /// Takes session `id` out, giving back its services if it was there.
    pub fn remove(&mut self, id: &str) -> (res: Option<S>)
        ensures
            final(self)@ == old(self)@.remove(id@),
            match res {
                Some(s) => old(self)@.contains_key(id@) && s == old(self)@[id@],
                None => !old(self)@.contains_key(id@),
            },
    {
        proof {
            use_type_invariant(&*self);
        }
        match self.position(id) {
            Some(i) => {
                let mut taken = SessionRegistry::new();
                std::mem::swap(self, &mut taken);
                proof {
                    use_type_invariant(&taken);
                }
                let SessionRegistry { mut entries, sessions } = taken;
                let ghost old_entries = entries@;
                let ghost old_sessions = sessions@;
                let ghost new_sessions = old_sessions.remove(id@);
                assert(old_sessions.contains_key(old_entries[i as int].0@));
                let (_, s) = entries.remove(i);
                assert forall|a: int, b: int|
                    0 <= a < b < entries@.len() implies #[trigger] entries@[a].0@
                    != #[trigger] entries@[b].0@ by {
                    if b < i {
                        assert(old_entries[a].0@ != old_entries[b].0@);
                    } else if a < i {
                        assert(old_entries[a].0@ != old_entries[b + 1].0@);
                    } else {
                        assert(old_entries[a + 1].0@ != old_entries[b + 1].0@);
                    }
                }
                assert forall|j: int| 0 <= j < entries@.len() implies #[trigger] new_sessions.contains_key(
                    entries@[j].0@) && new_sessions[entries@[j].0@] == entries@[j].1 by {
                    if j < i {
                        assert(old_sessions.contains_key(old_entries[j].0@));
                        assert(old_entries[j].0@ != old_entries[i as int].0@);
                    } else {
                        assert(old_sessions.contains_key(old_entries[j + 1].0@));
                        assert(old_entries[i as int].0@ != old_entries[j + 1].0@);
                    }
                }
                assert forall|k: Seq<char>| #[trigger] new_sessions.contains_key(k) implies exists|j: int|
                    0 <= j < entries@.len() && #[trigger] entries@[j].0@ == k by {
                    assert(old_sessions.contains_key(k));
                    let j = choose|j: int| 0 <= j < old_entries.len() && #[trigger] old_entries[j].0@ == k;
                    if j < i {
                        assert(entries@[j].0@ == k);
                    } else {
                        assert(j != i);
                        assert(entries@[j - 1].0@ == k);
                    }
                }
                *self = SessionRegistry { entries, sessions: Ghost(new_sessions) };
                Some(s)
            },
            None => {
                assert(self.sessions@.remove(id@) =~= self.sessions@);
                None
            },
        }
    }

    /// Registers a new session for `services` and gives back its id and the
    /// address of its socket. A request without a `Host` header gets no
    /// session: the registry is left as it was.
    pub fn open_session(&mut self, host: Option<&str>, scheme: &str, services: S) -> (res: Result<
        (String, String),
        WsUrlError,
    >)
        ensures
            match res {
                Ok((id, url)) => {
                    &&& host matches Some(h) && url@ == ws_url(h@, scheme@, id@)
                    &&& final(self)@ == old(self)@.insert(id@, services)
                    &&& is_session_id(id@)
                },
                Err(e) => {
                    &&& host is None
                    &&& e == WsUrlError::MissingHost
                    &&& final(self)@ == old(self)@
                },
            },
    {
        let id = new_session_id();
        let url = build_ws_url(host, scheme, id.as_str())?;
        self.insert(id.clone(), services);
        Ok((id, url))
    }
}

/// A session that was opened is found under its id, with the services it was
/// opened with, until it is closed; once closed its id is refused.
pub proof fn lemma_session_found_until_closed<S>(sessions: Map<Seq<char>, S>, id: Seq<char>, services: S)
    ensures
        sessions.insert(id, services).contains_key(id),
        sessions.insert(id, services)[id] == services,
        !sessions.insert(id, services).remove(id).contains_key(id),
{
}

/// Each client's config is a bubble of its own: opening or closing one session
/// leaves every other session as it was.
pub proof fn lemma_sessions_isolated<S>(sessions: Map<Seq<char>, S>, id: Seq<char>, services: S, other: Seq<char>)
    requires
        other != id,
    ensures
        sessions.insert(id, services).contains_key(other) == sessions.contains_key(other),
        sessions.insert(id, services)[other] == sessions[other],
        sessions.remove(id).contains_key(other) == sessions.contains_key(other),
        sessions.remove(id)[other] == sessions[other],
{
}

/// The shape of a session id: 36 characters with `-` at the 9th, 14th,
/// 19th and 24th.
pub open spec fn is_session_id(id: Seq<char>) -> bool {
    &&& id.len() == 36
    &&& id[8] == '-'
    &&& id[13] == '-'
    &&& id[18] == '-'
    &&& id[23] == '-'
}

/// Draws a random id with `uuid::Uuid::new_v4()` and renders it with
/// `to_string()`, which writes the hyphenated form (36 characters, `-` after
/// the 8th, 12th, 16th and 20th hex digit). Which id comes out is left open:
/// it rests on the system's random source (and `new_v4` panics if that
/// source fails, which no input here can cause or avoid).
#[verifier::external_body]
fn new_session_id() -> (res: String)
    ensures
        is_session_id(res@),
{
    uuid::Uuid::new_v4().to_string()
}

} // verus!
