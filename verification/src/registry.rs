//! The registry: the sessions by name, and their names by id.

use vstd::prelude::*;
use vstd::string::*;
use dashmap::DashMap;
use crate::cli::{SelectorView, SessionSelector};
use crate::naming::{
    is_first_free, lemma_first_free_unique, lemma_numbered_bound_with_base, numbered,
    numbered_name, unique_name,
};
use crate::reap::reaped;
use crate::session::{Session, SessionView};
use crate::store::{
    name_entries, names_get, names_insert, names_new, names_remove, names_retain_known,
    session_entries, sessions_contains, sessions_entries, sessions_get, sessions_insert,
    sessions_is_empty, sessions_len, sessions_new, sessions_remove, sessions_retain_running,
};

verus! {

/// What a registry holds, as plain values.
#[verifier::ext_equal]
pub struct RegistryView {
    /// The sessions, each under the name at which it was inserted.
    pub sessions: Map<Seq<char>, SessionView>,
    /// For each id in use, the name under which its session was inserted.
    pub lookup: Map<usize, Seq<char>>,
    /// The least number above every id that a session of this registry
    /// has had. It never goes down, so no new session gets an id again
    /// that another one has had.
    pub next_id: nat,
}

impl RegistryView {
    pub open spec fn empty() -> RegistryView {
        RegistryView { sessions: Map::empty(), lookup: Map::empty(), next_id: 0 }
    }

    /// The registry without its sessions. The ids that they had stay spent.
    pub open spec fn cleared(self) -> RegistryView {
        RegistryView { sessions: Map::empty(), lookup: Map::empty(), next_id: self.next_id }
    }

    /// The id for the next new session, if one is left.
    pub open spec fn new_id(self) -> Option<usize> {
        if self.next_id <= usize::MAX {
            Some(self.next_id as usize)
        } else {
            None
        }
    }

    /// Whether the registry holds finitely many entries.
    pub open spec fn wf(self) -> bool {
        self.sessions.dom().finite() && self.lookup.dom().finite()
    }

    /// The names in use.
    pub open spec fn names(self) -> Set<Seq<char>> {
        self.sessions.dom()
    }

    pub open spec fn count(self) -> nat {
        self.sessions.dom().len()
    }

    /// Whether no name is in use.
    pub open spec fn is_empty(self) -> bool {
        self.sessions.dom() == Set::<Seq<char>>::empty()
    }

    /// Whether a client that connects to the session under `name` is
    /// taken: there is such a session and no client holds it yet.
    pub open spec fn takes_client(self, name: Seq<char>) -> bool {
        self.sessions.contains_key(name) && !self.sessions[name].info.connected
    }

    /// The registry after a client has connected to the session under
    /// `name` at `now`. Unchanged where the client is not taken.
    pub open spec fn attached(self, name: Seq<char>, now: i64) -> RegistryView {
        if self.takes_client(name) {
            self.replace(name, self.sessions[name].attached_at(now))
        } else {
            self
        }
    }

    /// The registry with the session under `name` kept for a client that
    /// is told to come. Unchanged where no session is under `name`.
    pub open spec fn claimed(self, name: Seq<char>) -> RegistryView {
        match self.get(name) {
            Some(session) => self.replace(name, session.claimed()),
            None => self,
        }
    }

    /// The registry after the client of the session under `name` is
    /// gone, or the one that it was kept for did not come. Unchanged
    /// where no session is under `name`.
    pub open spec fn disconnected(self, name: Seq<char>) -> RegistryView {
        match self.get(name) {
            Some(session) => self.replace(name, session.disconnected()),
            None => self,
        }
    }

    /// The registry with `now` as the time at which a client of the
    /// session under `name` last came or went. Unchanged where no
    /// session is under `name`.
    pub open spec fn stamped(self, name: Seq<char>, now: i64) -> RegistryView {
        match self.get(name) {
            Some(session) => self.replace(name, session.stamped(now)),
            None => self,
        }
    }

    /// The session under `name`.
    pub open spec fn get(self, name: Seq<char>) -> Option<SessionView> {
        if self.sessions.contains_key(name) {
            Some(self.sessions[name])
        } else {
            None
        }
    }

    /// The session that `id` leads to: first from the id to a name, then
    /// from that name to the session.
    pub open spec fn get_by_id(self, id: usize) -> Option<SessionView> {
        if self.lookup.contains_key(id) {
            self.get(self.lookup[id])
        } else {
            None
        }
    }

    /// The session that a selector stands for.
    pub open spec fn find(self, selector: SelectorView) -> Option<SessionView> {
        match selector {
            SelectorView::Id(id) => self.get_by_id(id),
            SelectorView::Name(name) => self.get(name),
        }
    }

    /// The name under which the session stands that a selector stands for.
    pub open spec fn key_of(self, selector: SelectorView) -> Option<Seq<char>> {
        match selector {
            SelectorView::Id(id) => if self.lookup.contains_key(id) && self.sessions.contains_key(
                self.lookup[id],
            ) {
                Some(self.lookup[id])
            } else {
                None
            },
            SelectorView::Name(name) => if self.sessions.contains_key(name) {
                Some(name)
            } else {
                None
            },
        }
    }

    /// The registry with `session` under `name`, and `name` under the
    /// session's id. The id counts as spent from now on.
    pub open spec fn insert(self, name: Seq<char>, session: SessionView) -> RegistryView {
        RegistryView {
            sessions: self.sessions.insert(name, session),
            lookup: self.lookup.insert(session.id, name),
            next_id: if session.id >= self.next_id {
                (session.id + 1) as nat
            } else {
                self.next_id
            },
        }
    }

    /// The registry without the session under `name` and without the
    /// entry of that session's id. Unchanged where no session is under `name`.
    pub open spec fn remove(self, name: Seq<char>) -> RegistryView {
        if self.sessions.contains_key(name) {
            RegistryView {
                sessions: self.sessions.remove(name),
                lookup: self.lookup.remove(self.sessions[name].id),
                next_id: self.next_id,
            }
        } else {
            self
        }
    }

    /// The registry with `session` in place of the one under `name`. The ids stay.
    pub open spec fn replace(self, name: Seq<char>, session: SessionView) -> RegistryView {
        RegistryView { sessions: self.sessions.insert(name, session), ..self }
    }

    /// The names of the sessions whose child `waits` does not report as exited.
    pub open spec fn running(self, waits: Seq<(i32, i32)>) -> Set<Seq<char>> {
        Set::new(
            |name: Seq<char>|
                self.sessions.contains_key(name) && !reaped(self.sessions[name].pty.pid, waits),
        )
    }

    /// The registry without the sessions whose child `waits` reports as
    /// exited, and without the ids that led to their names.
    pub open spec fn clean(self, waits: Seq<(i32, i32)>) -> RegistryView {
        let running = self.running(waits);
        RegistryView {
            sessions: self.sessions.restrict(running),
            lookup: self.lookup.restrict(
                Set::new(|id: usize| self.lookup.contains_key(id) && running.contains(self.lookup[id])),
            ),
            next_id: self.next_id,
        }
    }

    /// Whether each id leads to a name under which a session with that id stands.
    pub open spec fn sound(self) -> bool {
        forall|id: usize| #[trigger]
            self.lookup.contains_key(id) ==> self.sessions.contains_key(self.lookup[id])
                && self.sessions[self.lookup[id]].id == id
    }

    /// Whether the id of each session leads to the name under which it stands.
    pub open spec fn complete(self) -> bool {
        forall|name: Seq<char>| #[trigger]
            self.sessions.contains_key(name) ==> self.lookup.contains_pair(
                self.sessions[name].id,
                name,
            )
    }

    /// Whether the two views agree: an id leads to a name exactly when
    /// a session is under that name and has that id.
    pub open spec fn consistent(self) -> bool {
        forall|id: usize, name: Seq<char>|
            #![trigger self.lookup.contains_pair(id, name)]
            self.lookup.contains_pair(id, name) <==> self.sessions.contains_key(name)
                && self.sessions[name].id == id
    }

    /// Whether every session is under its own name.
    pub open spec fn named(self) -> bool {
        forall|name: Seq<char>|
            self.sessions.contains_key(name) ==> (#[trigger] self.sessions[name]).name == name
    }

    /// Whether every id in use is one that counts as spent.
    pub open spec fn issued(self) -> bool {
        forall|id: usize| #[trigger] self.lookup.contains_key(id) ==> id < self.next_id
    }

    /// Whether the registry is as a daemon keeps it: its entries are
    /// finitely many, the two views agree, every session stands under its
    /// own name, and no id in use can be given again.
    pub open spec fn sane(self) -> bool {
        self.wf() && self.consistent() && self.named() && self.issued()
    }
}

/// The sessions of the daemon.
pub struct SessionList {
    sessions: DashMap<String, Session>,
    lookup: DashMap<usize, String>,
    /// The highest id that a session of this registry has had.
    last_id: Option<usize>,
}

impl View for SessionList {
    type V = RegistryView;

    closed spec fn view(&self) -> RegistryView {
        RegistryView {
            sessions: session_entries(self.sessions),
            lookup: name_entries(self.lookup),
            next_id: match self.last_id {
                Some(id) => (id + 1) as nat,
                None => 0,
            },
        }
    }
}

impl SessionList {
    pub fn new() -> (r: Self)
        ensures
            r@ == RegistryView::empty(),
            r@.wf(),
    {
        let r = SessionList { sessions: sessions_new(), lookup: names_new(), last_id: None };
        assert(r@.sessions =~= Map::empty());
        assert(r@.lookup =~= Map::empty());
        r
    }

    /// Returns the number of sessions
    pub fn count(&self) -> (r: usize)
        ensures
            r == self@.count(),
    {
        sessions_len(&self.sessions)
    }

    /// Checks if a session exists by name
    pub fn contains(&self, name: &str) -> (r: bool)
        ensures
            r == self@.sessions.contains_key(name@),
    {
        sessions_contains(&self.sessions, name)
    }

    /// Gets a session by name
    pub fn get(&self, name: &str) -> (r: Option<Session>)
        ensures
            r.deep_view() == self@.get(name@),
    {
        sessions_get(&self.sessions, name)
    }

    /// Gets a session by id
    pub fn get_by_id(&self, id: usize) -> (r: Option<Session>)
        ensures
            r.deep_view() == self@.get_by_id(id),
    {
        match names_get(&self.lookup, id) {
            Some(name) => sessions_get(&self.sessions, name.as_str()),
            None => None,
        }
    }

    /// Inserts a session into the list
    pub fn insert(&mut self, name: String, session: Session)
        requires
            old(self)@.wf(),
        ensures
            final(self)@ == old(self)@.insert(name@, session@),
            final(self)@.wf(),
    {
        self.last_id = match self.last_id {
            Some(id) => if session.id >= id {
                Some(session.id)
            } else {
                Some(id)
            },
            None => Some(session.id),
        };
        names_insert(&mut self.lookup, session.id, name.clone());
        sessions_insert(&mut self.sessions, name, session);
    }

    /// Removes a session by name
    pub fn remove(&mut self, name: &str) -> (r: Option<Session>)
        requires
            old(self)@.wf(),
        ensures
            final(self)@ == old(self)@.remove(name@),
            r.deep_view() == old(self)@.get(name@),
            final(self)@.wf(),
    {
        match sessions_remove(&mut self.sessions, name) {
            Some(session) => {
                names_remove(&mut self.lookup, session.id);
                Some(session)
            },
            None => None,
        }
    }

    /// Removes sessions with exited processes. Each entry of `waits` is
    /// the pid of a child and what a non-blocking wait for it returned.
    /// Tells whether no session is left.
    pub fn clean(&mut self, waits: &Vec<(i32, i32)>) -> (r: bool)
        requires
            old(self)@.wf(),
        ensures
            final(self)@ == old(self)@.clean(waits@),
            r == final(self)@.is_empty(),
            final(self)@.wf(),
    {
        sessions_retain_running(&mut self.sessions, waits);
        names_retain_known(&mut self.lookup, &self.sessions);
        proof {
            let before = old(self)@;
            let after = before.clean(waits@);
            assert(self@.sessions =~= after.sessions);
            assert(self@.lookup =~= after.lookup);
            lemma_restrict_finite(before.sessions, before.running(waits@));
            lemma_restrict_finite(
                before.lookup,
                Set::new(
                    |id: usize|
                        before.lookup.contains_key(id) && before.running(waits@).contains(
                            before.lookup[id],
                        ),
                ),
            );
        }
        sessions_is_empty(&self.sessions)
    }

    pub fn is_empty(&self) -> (r: bool)
        ensures
            r == self@.is_empty(),
    {
        sessions_is_empty(&self.sessions)
    }

    /// The sessions, each with the name under which it stands. Every
    /// session occurs once; the order is not fixed.
    pub fn iter(&self) -> (r: Vec<(String, Session)>)
        ensures
            is_listing(r.deep_view(), self@.sessions),
            r.len() == self@.count(),
    {
        let r = sessions_entries(&self.sessions);
        proof {
            let listed = r.deep_view();
            assert forall|name: Seq<char>| self@.sessions.contains_key(name) implies exists|
                i: int,
            |
                0 <= i < listed.len() && (#[trigger] listed[i]).0 == name by {
                let i = choose|i: int| 0 <= i < r.len() && (#[trigger] r[i]).0@ == name;
                assert(listed[i].0 == name);
            }
            lemma_listing_len(listed, self@.sessions);
        }
        r
    }

    /// The name for a new session that asks for `base`: `base` itself if
    /// it is free, else its first numbered form that is.
    pub fn unique_name(&self, base: &str) -> (r: String)
        requires
            self@.wf(),
        ensures
            r@ == unique_name(base@, self@.names()),
            !self@.sessions.contains_key(r@),
    {
        if !self.contains(base) {
            return String::from_str(base);
        }
        let count = self.count();
        let ghost taken = self@.names();
        let mut i: usize = 0;
        loop
            invariant
                taken == self@.names(),
                taken.finite(),
                taken.contains(base@),
                count == taken.len(),
                forall|j: nat| j < i ==> taken.contains(#[trigger] numbered(base@, j)),
            decreases count - i,
        {
            let candidate = numbered_name(base, i);
            if !self.contains(candidate.as_str()) {
                proof {
                    let k = choose|k: nat| is_first_free(base@, taken, k);
                    assert(is_first_free(base@, taken, i as nat));
                    lemma_first_free_unique(base@, taken, i as nat, k);
                }
                return candidate;
            }
            proof {
                assert forall|j: nat| j < i + 1 implies taken.contains(
                    #[trigger] numbered(base@, j),
                ) by {
                    if j == i {
                        assert(numbered(base@, j) == candidate@);
                    }
                }
                lemma_numbered_bound_with_base(base@, taken, (i + 1) as nat);
            }
            i = i + 1;
        }
    }

    /// The session that a selector stands for.
    pub fn find(&self, selector: &SessionSelector) -> (r: Option<Session>)
        ensures
            r.deep_view() == self@.find(selector@),
    {
        match selector {
            SessionSelector::Id(id) => self.get_by_id(*id),
            SessionSelector::Name(name) => self.get(name.as_str()),
        }
    }

    /// Records that a client has connected to the session under `name` at
    /// `now`. Tells whether the client is taken: it is not where there is
    /// no such session or a client holds it already, and then nothing changes.
    pub fn attach_at(&mut self, name: &str, now: i64) -> (r: bool)
        requires
            old(self)@.wf(),
        ensures
            final(self)@ == old(self)@.attached(name@, now),
            r == old(self)@.takes_client(name@),
            final(self)@.wf(),
    {
        match sessions_get(&self.sessions, name) {
            Some(session) => {
                if session.info.connected() {
                    return false;
                }
                let mut session = session;
                session.attach_at(now);
                sessions_insert(&mut self.sessions, String::from_str(name), session);
                true
            },
            None => false,
        }
    }

    /// Keeps the session under `name` for a client that is told to come.
    /// Tells whether there is such a session.
    pub fn claim(&mut self, name: &str) -> (r: bool)
        requires
            old(self)@.wf(),
        ensures
            final(self)@ == old(self)@.claimed(name@),
            r == old(self)@.sessions.contains_key(name@),
            final(self)@.wf(),
    {
        match sessions_get(&self.sessions, name) {
            Some(session) => {
                let mut session = session;
                session.claim();
                sessions_insert(&mut self.sessions, String::from_str(name), session);
                true
            },
            None => false,
        }
    }

    /// Records that the client of the session under `name` is gone.
    /// Tells whether there is such a session.
    pub fn disconnect(&mut self, name: &str) -> (r: bool)
        requires
            old(self)@.wf(),
        ensures
            final(self)@ == old(self)@.disconnected(name@),
            r == old(self)@.sessions.contains_key(name@),
            final(self)@.wf(),
    {
        match sessions_get(&self.sessions, name) {
            Some(session) => {
                let mut session = session;
                session.disconnect();
                sessions_insert(&mut self.sessions, String::from_str(name), session);
                true
            },
            None => false,
        }
    }

    /// Records `now` as the time at which a client of the session under
    /// `name` last came or went. Tells whether there is such a session.
    pub fn stamp(&mut self, name: &str, now: i64) -> (r: bool)
        requires
            old(self)@.wf(),
        ensures
            final(self)@ == old(self)@.stamped(name@, now),
            r == old(self)@.sessions.contains_key(name@),
            final(self)@.wf(),
    {
        match sessions_get(&self.sessions, name) {
            Some(session) => {
                let mut session = session;
                session.stamp(now);
                sessions_insert(&mut self.sessions, String::from_str(name), session);
                true
            },
            None => false,
        }
    }

    /// The name under which the session stands that a selector stands for.
    pub fn key_of(&self, selector: &SessionSelector) -> (r: Option<String>)
        ensures
            r.deep_view() == self@.key_of(selector@),
    {
        match selector {
            SessionSelector::Id(id) => {
                match names_get(&self.lookup, *id) {
                    Some(name) => if sessions_contains(&self.sessions, name.as_str()) {
                        Some(name)
                    } else {
                        None
                    },
                    None => None,
                }
            },
            SessionSelector::Name(name) => if sessions_contains(&self.sessions, name.as_str()) {
                Some(name.clone())
            } else {
                None
            },
        }
    }

    /// The id for the next new session: one more than the highest that a
    /// session of this registry has had, whether or not that session is
    /// still there. `None` where no id is left.
    pub fn next_id(&self) -> (r: Option<usize>)
        ensures
            r == self@.new_id(),
    {
        match self.last_id {
            Some(id) => if id < usize::MAX {
                Some(id + 1)
            } else {
                None
            },
            None => Some(0),
        }
    }

    /// Takes every session out of the registry. Their ids stay spent.
    pub fn drain(&mut self) -> (r: Vec<(String, Session)>)
        ensures
            final(self)@ == old(self)@.cleared(),
            is_listing(r.deep_view(), old(self)@.sessions),
            r.len() == old(self)@.count(),
            final(self)@.wf(),
    {
        let r = self.iter();
        self.sessions = sessions_new();
        self.lookup = names_new();
        assert(self@.sessions =~= Map::empty());
        assert(self@.lookup =~= Map::empty());
        r
    }
}

/// Whether `listed` holds each entry of `sessions` once, and nothing else.
pub open spec fn is_listing(
    listed: Seq<(Seq<char>, SessionView)>,
    sessions: Map<Seq<char>, SessionView>,
) -> bool {
    &&& forall|i: int|
        0 <= i < listed.len() ==> sessions.contains_pair((#[trigger] listed[i]).0, listed[i].1)
    &&& forall|i: int, j: int|
        0 <= i < j < listed.len() ==> (#[trigger] listed[i]).0 != (#[trigger] listed[j]).0
    &&& forall|name: Seq<char>|
        sessions.contains_key(name) ==> exists|i: int|
            0 <= i < listed.len() && (#[trigger] listed[i]).0 == name
}

/// A listing of a map is as long as the map has entries.
pub proof fn lemma_listing_len(
    listed: Seq<(Seq<char>, SessionView)>,
    sessions: Map<Seq<char>, SessionView>,
)
    requires
        is_listing(listed, sessions),
    ensures
        listed.len() == sessions.dom().len(),
        sessions.dom().finite(),
{
    let keys = Seq::new(listed.len(), |i: int| listed[i].0);
    assert(keys.no_duplicates());
    assert(keys.to_set() =~= sessions.dom()) by {
        assert forall|name: Seq<char>| keys.to_set().contains(name) implies sessions.dom().contains(
            name,
        ) by {
            let i = choose|i: int| 0 <= i < keys.len() && keys[i] == name;
            assert(sessions.contains_pair(listed[i].0, listed[i].1));
        }
        assert forall|name: Seq<char>| sessions.dom().contains(name) implies keys.to_set().contains(
            name,
        ) by {
            let i = choose|i: int| 0 <= i < listed.len() && (#[trigger] listed[i]).0 == name;
            assert(keys[i] == name);
        }
    }
    keys.unique_seq_to_set();
    vstd::seq_lib::seq_to_set_is_finite(keys);
}

/// A registry holds no session exactly when no name is in use.
pub proof fn lemma_empty_count(reg: RegistryView)
    requires
        reg.wf(),
    ensures
        reg.count() == 0 <==> reg.is_empty(),
{
    if reg.count() == 0 {
        reg.sessions.dom().lemma_len0_is_empty();
        assert(reg.sessions.dom() =~= Set::<Seq<char>>::empty());
    }
}

/// A finite map that is cut down to some of its keys is finite.
pub proof fn lemma_restrict_finite<K, V>(m: Map<K, V>, keys: Set<K>)
    requires
        m.dom().finite(),
    ensures
        m.restrict(keys).dom().finite(),
{
    assert(m.restrict(keys).dom() =~= m.dom().intersect(keys));
    vstd::set_lib::lemma_len_intersect(m.dom(), keys);
}

} // verus!
