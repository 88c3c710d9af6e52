//! What holds of the registry across requests.

use vstd::prelude::*;
use crate::cli::SelectorView;
use crate::daemon::{attach_effect, attach_post, is_info_listing, Attached};
use crate::error::SeshError;
use crate::proto::SeshInfoView;
use crate::pty::PtyView;
use crate::reap::reaped;
use crate::registry::{is_listing, RegistryView};
use crate::session::SessionView;
use crate::term::{Size, WinSize};

verus! {

/// One request that adds or removes a session.
pub enum Call {
    /// A start request that asks for the name `name`.
    Start { name: Seq<char>, program: Seq<char>, socket: Seq<char>, pty: PtyView, now: i64 },
    /// A kill request.
    Kill { selector: Option<SelectorView> },
}

impl RegistryView {
    /// The registry after `call`.
    pub open spec fn after(self, call: Call) -> RegistryView {
        match call {
            Call::Start { name, program, socket, pty, now } => self.inserted(
                self.new_name(name),
                program,
                socket,
                pty,
                now,
            ),
            Call::Kill { selector } => self.killed(selector),
        }
    }

    /// The registry after `calls`, in their order.
    pub open spec fn after_all(self, calls: Seq<Call>) -> RegistryView
        decreases calls.len(),
    {
        if calls.len() == 0 {
            self
        } else {
            self.after_all(calls.drop_last()).after(calls.last())
        }
    }
}

/// The two readings of agreement are the same: each id leads to a fitting
/// session and each session is led to by its id, exactly when an id leads
/// to a name if and only if a session with that id stands under it.
pub proof fn lemma_consistent_is_sound_and_complete(reg: RegistryView)
    ensures
        reg.consistent() <==> reg.sound() && reg.complete(),
{
    if reg.consistent() {
        assert forall|id: usize| #[trigger] reg.lookup.contains_key(id) implies reg.sessions.contains_key(
            reg.lookup[id],
        ) && reg.sessions[reg.lookup[id]].id == id by {
            assert(reg.lookup.contains_pair(id, reg.lookup[id]));
        }
        assert forall|name: Seq<char>| #[trigger]
            reg.sessions.contains_key(name) implies reg.lookup.contains_pair(
            reg.sessions[name].id,
            name,
        ) by {
            let id = reg.sessions[name].id;
            assert(reg.lookup.contains_pair(id, name) <==> reg.sessions.contains_key(name)
                && reg.sessions[name].id == id);
        }
    }
    if reg.sound() && reg.complete() {
        assert forall|id: usize, name: Seq<char>|
            #![trigger reg.lookup.contains_pair(id, name)]
            reg.lookup.contains_pair(id, name) <==> reg.sessions.contains_key(name)
                && reg.sessions[name].id == id by {
            if reg.lookup.contains_pair(id, name) {
                assert(reg.lookup.contains_key(id));
            }
            if reg.sessions.contains_key(name) && reg.sessions[name].id == id {
                assert(reg.lookup.contains_pair(reg.sessions[name].id, name));
            }
        }
    }
}

/// An empty registry is sane, and so is one whose sessions have all been taken out.
pub proof fn lemma_empty_sane(reg: RegistryView)
    ensures
        RegistryView::empty().sane(),
        reg.cleared().sane(),
{
}

/// In a sane registry no two sessions have the same id.
pub proof fn lemma_ids_unique(reg: RegistryView, a: Seq<char>, b: Seq<char>)
    requires
        reg.sane(),
        reg.sessions.contains_key(a),
        reg.sessions.contains_key(b),
        reg.sessions[a].id == reg.sessions[b].id,
    ensures
        a == b,
{
    lemma_consistent_is_sound_and_complete(reg);
    assert(reg.lookup.contains_pair(reg.sessions[a].id, a));
    assert(reg.lookup.contains_pair(reg.sessions[b].id, b));
}

/// In a sane registry a selector that finds a session leads to the name
/// under which it stands, and that is the session's own name.
pub proof fn lemma_selected_by_own_name(reg: RegistryView, selector: SelectorView)
    requires
        reg.sane(),
    ensures
        match reg.find(selector) {
            Some(session) => reg.key_of(selector) == Some(session.name) && reg.sessions[session.name]
                == session && (selector matches SelectorView::Id(id) ==> session.id == id),
            None => reg.key_of(selector) is None,
        },
{
    lemma_consistent_is_sound_and_complete(reg);
}

/// Inserting a session under a free name keeps the views in agreement
/// exactly when its id is free too.
pub proof fn lemma_insert_consistent(reg: RegistryView, name: Seq<char>, session: SessionView)
    requires
        reg.consistent(),
        !reg.sessions.contains_key(name),
    ensures
        reg.insert(name, session).consistent() <==> !reg.lookup.contains_key(session.id),
{
    let after = reg.insert(name, session);
    lemma_consistent_is_sound_and_complete(reg);
    lemma_consistent_is_sound_and_complete(after);
    if !reg.lookup.contains_key(session.id) {
        assert forall|id: usize| #[trigger] after.lookup.contains_key(id) implies after.sessions.contains_key(
            after.lookup[id],
        ) && after.sessions[after.lookup[id]].id == id by {
            if id != session.id {
                assert(reg.lookup.contains_key(id));
            }
        }
        assert forall|n: Seq<char>| #[trigger]
            after.sessions.contains_key(n) implies after.lookup.contains_pair(
            after.sessions[n].id,
            n,
        ) by {
            if n != name {
                assert(reg.sessions.contains_key(n));
                assert(reg.lookup.contains_key(reg.sessions[n].id));
            }
        }
    } else {
        let other = reg.lookup[session.id];
        assert(reg.sessions.contains_key(other));
        assert(after.sessions.contains_key(other));
        assert(after.sessions[other].id == session.id);
        assert(!after.lookup.contains_pair(session.id, other));
    }
}

/// Removing a session keeps the views in agreement.
pub proof fn lemma_remove_consistent(reg: RegistryView, name: Seq<char>)
    requires
        reg.consistent(),
    ensures
        reg.remove(name).consistent(),
{
    let after = reg.remove(name);
    lemma_consistent_is_sound_and_complete(reg);
    lemma_consistent_is_sound_and_complete(after);
    if reg.sessions.contains_key(name) {
        assert forall|id: usize| #[trigger] after.lookup.contains_key(id) implies after.sessions.contains_key(
            after.lookup[id],
        ) && after.sessions[after.lookup[id]].id == id by {
            assert(reg.lookup.contains_key(id));
            if reg.lookup[id] == name {
                assert(reg.sessions[name].id == id);
            }
        }
        assert forall|n: Seq<char>| #[trigger]
            after.sessions.contains_key(n) implies after.lookup.contains_pair(
            after.sessions[n].id,
            n,
        ) by {
            assert(reg.sessions.contains_key(n));
            assert(reg.sessions.contains_key(name));
            if reg.sessions[n].id == reg.sessions[name].id {
                assert(reg.lookup.contains_pair(reg.sessions[n].id, n));
                assert(reg.lookup.contains_pair(reg.sessions[name].id, name));
            }
        }
    }
}

/// Removing the sessions whose child has exited keeps the views in agreement.
pub proof fn lemma_clean_consistent(reg: RegistryView, waits: Seq<(i32, i32)>)
    requires
        reg.consistent(),
    ensures
        reg.clean(waits).consistent(),
{
    let after = reg.clean(waits);
    lemma_consistent_is_sound_and_complete(reg);
    lemma_consistent_is_sound_and_complete(after);
    assert forall|id: usize| #[trigger] after.lookup.contains_key(id) implies after.sessions.contains_key(
        after.lookup[id],
    ) && after.sessions[after.lookup[id]].id == id by {
        assert(reg.lookup.contains_key(id));
    }
    assert forall|n: Seq<char>| #[trigger]
        after.sessions.contains_key(n) implies after.lookup.contains_pair(after.sessions[n].id, n) by {
        assert(reg.sessions.contains_key(n));
        assert(reg.lookup.contains_pair(reg.sessions[n].id, n));
        assert(reg.running(waits).contains(n));
    }
}

/// Putting a session in the place of one with the same id keeps the views in agreement.
pub proof fn lemma_replace_consistent(reg: RegistryView, name: Seq<char>, session: SessionView)
    requires
        reg.consistent(),
        reg.sessions.contains_key(name),
        session.id == reg.sessions[name].id,
    ensures
        reg.replace(name, session).consistent(),
{
    let after = reg.replace(name, session);
    lemma_consistent_is_sound_and_complete(reg);
    lemma_consistent_is_sound_and_complete(after);
    assert forall|id: usize| #[trigger] after.lookup.contains_key(id) implies after.sessions.contains_key(
        after.lookup[id],
    ) && after.sessions[after.lookup[id]].id == id by {
        assert(reg.lookup.contains_key(id));
    }
    assert forall|n: Seq<char>| #[trigger]
        after.sessions.contains_key(n) implies after.lookup.contains_pair(after.sessions[n].id, n) by {
        assert(reg.sessions.contains_key(n));
    }
}

/// A client that comes or goes leaves the views in agreement.
pub proof fn lemma_client_changes_consistent(reg: RegistryView, name: Seq<char>, now: i64)
    requires
        reg.consistent(),
    ensures
        reg.attached(name, now).consistent(),
        reg.claimed(name).consistent(),
        reg.disconnected(name).consistent(),
        reg.stamped(name, now).consistent(),
{
    if reg.sessions.contains_key(name) {
        let s = reg.sessions[name];
        lemma_replace_consistent(reg, name, s.attached_at(now));
        lemma_replace_consistent(reg, name, s.claimed());
        lemma_replace_consistent(reg, name, s.disconnected());
        lemma_replace_consistent(reg, name, s.stamped(now));
    }
}

/// A client that comes or goes leaves a registry sane.
pub proof fn lemma_client_changes_sane(reg: RegistryView, name: Seq<char>, now: i64)
    requires
        reg.sane(),
    ensures
        reg.attached(name, now).sane(),
        reg.claimed(name).sane(),
        reg.disconnected(name).sane(),
        reg.stamped(name, now).sane(),
{
    lemma_client_changes_consistent(reg, name, now);
}

/// What a removal gives in a sane registry: the session that leaves
/// bears the name asked for, its id leads nowhere afterwards, and the
/// other sessions stay as they were.
pub proof fn lemma_remove_in_sane(reg: RegistryView, name: Seq<char>)
    requires
        reg.sane(),
        reg.sessions.contains_key(name),
    ensures
        reg.sessions[name].name == name,
        !reg.remove(name).sessions.contains_key(name),
        reg.remove(name).get_by_id(reg.sessions[name].id) is None,
        reg.remove(name).count() == reg.count() - 1,
        forall|other: Seq<char>|
            other != name ==> reg.remove(name).get(other) == #[trigger] reg.get(other),
        forall|id: usize|
            id != reg.sessions[name].id ==> reg.remove(name).get_by_id(id) == #[trigger] reg.get_by_id(
                id,
            ),
{
    lemma_consistent_is_sound_and_complete(reg);
    assert forall|id: usize| id != reg.sessions[name].id implies reg.remove(name).get_by_id(id)
        == #[trigger] reg.get_by_id(id) by {
        if reg.lookup.contains_key(id) {
            assert(reg.lookup.contains_pair(id, reg.lookup[id]));
        }
    }
}

/// Removing a session leaves a registry sane.
pub proof fn lemma_remove_sane(reg: RegistryView, name: Seq<char>)
    requires
        reg.sane(),
    ensures
        reg.remove(name).sane(),
{
    lemma_remove_consistent(reg, name);
}

/// Removing the sessions whose child has exited leaves a registry sane.
pub proof fn lemma_clean_sane(reg: RegistryView, waits: Seq<(i32, i32)>)
    requires
        reg.sane(),
    ensures
        reg.clean(waits).sane(),
{
    lemma_clean_consistent(reg, waits);
    crate::registry::lemma_restrict_finite(reg.sessions, reg.running(waits));
    crate::registry::lemma_restrict_finite(
        reg.lookup,
        Set::new(
            |id: usize| reg.lookup.contains_key(id) && reg.running(waits).contains(reg.lookup[id]),
        ),
    );
}

/// A session that comes in under its own name, which is free, and with
/// the next new id leaves a registry sane.
pub proof fn lemma_insert_sane(reg: RegistryView, name: Seq<char>, session: SessionView)
    requires
        reg.sane(),
        !reg.sessions.contains_key(name),
        session.name == name,
        reg.new_id() == Some(session.id),
    ensures
        reg.insert(name, session).sane(),
        reg.insert(name, session).next_id == reg.next_id + 1,
{
    assert(!reg.lookup.contains_key(session.id));
    lemma_insert_consistent(reg, name, session);
}

/// A kill request keeps a registry sane.
pub proof fn lemma_kill_sane(reg: RegistryView, selector: Option<SelectorView>)
    requires
        reg.sane(),
    ensures
        reg.killed(selector).sane(),
{
    if let Some(sel) = selector {
        if let Some(name) = reg.key_of(sel) {
            lemma_remove_sane(reg, name);
        }
    }
}

/// A start request keeps a registry sane. The session that it adds
/// gets an id that no session of the registry has or has had: the ids
/// in use stay as they were, and the new one lies above them all.
pub proof fn lemma_start_sane(
    reg: RegistryView,
    requested: Seq<char>,
    program: Seq<char>,
    socket: Seq<char>,
    pty: PtyView,
    now: i64,
)
    requires
        reg.sane(),
    ensures
        ({
            let name = reg.new_name(requested);
            let after = reg.inserted(name, program, socket, pty, now);
            &&& after.sane()
            &&& after.next_id >= reg.next_id
            &&& forall|id: usize| #[trigger]
                reg.lookup.contains_key(id) ==> after.lookup.contains_pair(id, reg.lookup[id])
            &&& reg.new_id() matches Some(id) ==> {
                &&& !reg.lookup.contains_key(id)
                &&& after.lookup.contains_pair(id, name)
                &&& after.sessions[name].id == id
                &&& after.count() == reg.count() + 1
            }
        }),
{
    let name = reg.new_name(requested);
    crate::naming::lemma_unique_name_is_free(crate::naming::base_name(requested), reg.names());
    if let Some(id) = reg.new_id() {
        lemma_insert_sane(
            reg,
            name,
            RegistryView::new_session(id, name, program, socket, pty, now),
        );
    }
}

/// A start or kill request never lowers the count of spent ids.
pub proof fn lemma_ids_stay_spent(reg: RegistryView, call: Call)
    ensures
        reg.after(call).next_id >= reg.next_id,
{
}

/// For any run of start and kill requests on an empty registry the
/// registry is sane after the run: the two views agree.
pub proof fn lemma_calls_keep_consistent(calls: Seq<Call>)
    ensures
        RegistryView::empty().after_all(calls).sane(),
    decreases calls.len(),
{
    let start = RegistryView::empty();
    if calls.len() > 0 {
        lemma_calls_keep_consistent(calls.drop_last());
        let reg = start.after_all(calls.drop_last());
        match calls.last() {
            Call::Start { name, program, socket, pty, now } => {
                lemma_start_sane(reg, name, program, socket, pty, now);
            },
            Call::Kill { selector } => {
                lemma_kill_sane(reg, selector);
            },
        }
    }
}

/// A second kill request with the same selector removes nothing and
/// leaves the registry as the first left it.
pub proof fn lemma_kill_twice(reg: RegistryView, selector: Option<SelectorView>)
    ensures
        reg.killed(selector).kill_target(selector) is None,
        reg.killed(selector).killed(selector) == reg.killed(selector),
{
}

/// Once a session's child is reported as exited and the registry is
/// cleaned, no selector finds the session that stood under its name.
pub proof fn lemma_reaped_is_gone(reg: RegistryView, waits: Seq<(i32, i32)>, name: Seq<char>)
    requires
        reg.sessions.contains_key(name),
        reaped(reg.sessions[name].pty.pid, waits),
    ensures
        !reg.clean(waits).sessions.contains_key(name),
        reg.clean(waits).find(SelectorView::Name(name)) is None,
        forall|id: usize|
            reg.lookup.contains_pair(id, name) ==> (#[trigger] reg.clean(waits).find(
                SelectorView::Id(id),
            )) is None,
{
}

/// Once a session's child is reported as exited and the registry is
/// cleaned, a list does not tell of it and an attach request for its
/// name is answered with `NotFound`.
pub proof fn lemma_reaped_not_listed_nor_attached(
    reg: RegistryView,
    waits: Seq<(i32, i32)>,
    name: Seq<char>,
    infos: Seq<SeshInfoView>,
    size: Option<WinSize>,
    term: Size,
    answer: Result<Attached, SeshError>,
)
    requires
        reg.sessions.contains_key(name),
        reaped(reg.sessions[name].pty.pid, waits),
        is_info_listing(infos, reg.clean(waits).sessions),
        attach_post(reg.clean(waits), Some(SelectorView::Name(name)), size, term, answer),
    ensures
        forall|i: int| 0 <= i < infos.len() ==> (#[trigger] infos[i]).name != name,
        answer == Err::<Attached, SeshError>(SeshError::NotFound),
{
    let after = reg.clean(waits);
    let listed = choose|listed: Seq<(Seq<char>, SessionView)>|
        #![trigger is_listing(listed, after.sessions)]
        is_listing(listed, after.sessions) && infos == crate::daemon::info_views(listed);
    assert forall|i: int| 0 <= i < infos.len() implies (#[trigger] infos[i]).name != name by {
        assert(after.sessions.contains_pair(listed[i].0, listed[i].1));
    }
}

/// Of two attach requests for one session, made one after the other,
/// the second is answered with `AlreadyConnected` if the first was
/// accepted: whether or not the first client has connected meanwhile.
pub proof fn lemma_second_attach_refused(
    reg: RegistryView,
    selector: SelectorView,
    first: Result<Attached, SeshError>,
    second: Result<Attached, SeshError>,
    second_after_connect: Result<Attached, SeshError>,
    now: i64,
    size: Option<WinSize>,
    term: Size,
    next_size: Option<WinSize>,
    next_term: Size,
)
    requires
        attach_post(reg, Some(selector), size, term, first),
        first is Ok,
        attach_post(attach_effect(reg, first), Some(selector), next_size, next_term, second),
        attach_post(
            attach_effect(reg, first).attached(first->Ok_0.relay.name@, now),
            Some(selector),
            next_size,
            next_term,
            second_after_connect,
        ),
    ensures
        second == Err::<Attached, SeshError>(SeshError::AlreadyConnected),
        second_after_connect == Err::<Attached, SeshError>(SeshError::AlreadyConnected),
{
}

/// A session has one client at most: a client that connects while
/// another holds the session is not taken, and nothing changes.
pub proof fn lemma_one_client(reg: RegistryView, name: Seq<char>, t1: i64, t2: i64)
    ensures
        !reg.attached(name, t1).takes_client(name),
        reg.attached(name, t1).attached(name, t2) == reg.attached(name, t1),
{
}

/// Once its client is gone, a session can be attached to again.
pub proof fn lemma_free_after_client_gone(
    reg: RegistryView,
    selector: SelectorView,
    size: Option<WinSize>,
    term: Size,
    answer: Result<Attached, SeshError>,
)
    requires
        reg.key_of(selector) is Some,
        attach_post(
            reg.disconnected(reg.key_of(selector)->0),
            Some(selector),
            size,
            term,
            answer,
        ),
    ensures
        answer is Ok,
{
}

/// A detach request leaves the session that it selects free, without a
/// client and kept for none, and with the time of the request as its
/// attach time, whether or not a client had connected after the attach
/// request. The attach time has grown if the clock has advanced past the
/// previous one.
pub proof fn lemma_attach_then_detach(reg: RegistryView, selector: SelectorView, t1: i64, t2: i64)
    requires
        reg.key_of(selector) is Some,
    ensures
        ({
            let name = reg.key_of(selector)->0;
            let held = reg.claimed(name).attached(name, t1);
            let left = held.detached(Some(selector), t2);
            let idle = reg.detached(Some(selector), t2);
            &&& !left.sessions[name].info.connected
            &&& left.sessions[name].info.idle()
            &&& left.sessions[name].info.attach_time == t2
            &&& reg.sessions[name].info.idle() ==> held.sessions[name].info.connected
                && held.sessions[name].info.attach_time == t1
            &&& t2 > held.sessions[name].info.attach_time ==> left.sessions[name].info.attach_time
                > held.sessions[name].info.attach_time
            &&& !idle.sessions[name].info.connected
            &&& idle.sessions[name].info.attach_time == t2
            &&& left.detaching(Some(selector)).stamped(name, t2) == left
        }),
{
    let name = reg.key_of(selector)->0;
    let held = reg.claimed(name).attached(name, t1);
    assert(held.detach_target(Some(selector)) == Some(name));
    assert(reg.detach_target(Some(selector)) == Some(name));
    let left = held.detached(Some(selector), t2);
    assert(left.detaching(Some(selector)).stamped(name, t2).sessions =~= left.sessions);
}

} // verus!
