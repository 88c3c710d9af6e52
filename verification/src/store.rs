//! The two concurrent maps in which the registry keeps its sessions.
//!
//! Nothing in this file is proved: each function states what the `dashmap`
//! method that it calls does to the entries of the map.

use vstd::prelude::*;
use dashmap::DashMap;
use crate::reap::{is_running, known_name, reaped};
use crate::session::{Session, SessionView};

verus! {

/// `dashmap::DashMap`. What is inside a map stays hidden; the two
/// functions below name what it holds.
#[verifier::external_type_specification]
#[verifier::external_body]
#[verifier::reject_recursive_types(K)]
#[verifier::reject_recursive_types(V)]
#[verifier::reject_recursive_types(S)]
pub struct ExDashMap<K, V, S>(DashMap<K, V, S>);

/// The sessions that a map holds, each under the key at which it was inserted.
pub uninterp spec fn session_entries(map: DashMap<String, Session>) -> Map<Seq<char>, SessionView>;

/// The names that a map holds, each under the id at which it was inserted.
pub uninterp spec fn name_entries(map: DashMap<usize, String>) -> Map<usize, Seq<char>>;

/// `DashMap::new`: a map without entries.
#[verifier::external_body]
pub(crate) fn sessions_new() -> (r: DashMap<String, Session>)
    ensures
        session_entries(r).dom() == Set::<Seq<char>>::empty(),
{
    DashMap::new()
}

/// `DashMap::len`: the number of entries.
#[verifier::external_body]
pub(crate) fn sessions_len(map: &DashMap<String, Session>) -> (n: usize)
    ensures
        n == session_entries(*map).dom().len(),
{
    map.len()
}

/// `DashMap::is_empty`: whether the map has no entry.
#[verifier::external_body]
pub(crate) fn sessions_is_empty(map: &DashMap<String, Session>) -> (r: bool)
    ensures
        r == (session_entries(*map).dom() == Set::<Seq<char>>::empty()),
{
    map.is_empty()
}

/// `DashMap::contains_key`: whether the map has an entry under `name`.
#[verifier::external_body]
pub(crate) fn sessions_contains(map: &DashMap<String, Session>, name: &str) -> (r: bool)
    ensures
        r == session_entries(*map).contains_key(name@),
{
    map.contains_key(name)
}

/// `DashMap::get`: a copy of the session under `name`, if there is one.
#[verifier::external_body]
pub(crate) fn sessions_get(map: &DashMap<String, Session>, name: &str) -> (r: Option<Session>)
    ensures
        match r {
            Some(s) => session_entries(*map).contains_key(name@) && s@ == session_entries(
                *map,
            )[name@],
            None => !session_entries(*map).contains_key(name@),
        },
{
    map.get(name).map(|entry| entry.value().clone())
}

/// `DashMap::insert`: the map holds `session` under `name`, in place of
/// what it held there; its other entries stay.
#[verifier::external_body]
pub(crate) fn sessions_insert(map: &mut DashMap<String, Session>, name: String, session: Session)
    ensures
        session_entries(*final(map)) == session_entries(*old(map)).insert(name@, session@),
{
    map.insert(name, session);
}

/// `DashMap::remove`: the entry under `name` leaves the map and its
/// session is returned; the other entries stay.
#[verifier::external_body]
pub(crate) fn sessions_remove(map: &mut DashMap<String, Session>, name: &str) -> (r: Option<
    Session,
>)
    ensures
        session_entries(*final(map)) == session_entries(*old(map)).remove(name@),
        match r {
            Some(s) => session_entries(*old(map)).contains_key(name@) && s@ == session_entries(
                *old(map),
            )[name@],
            None => !session_entries(*old(map)).contains_key(name@),
        },
{
    map.remove(name).map(|pair| pair.1)
}

/// `DashMap::retain`, keeping the sessions whose child `waits` does not
/// report as exited: those entries stay as they are, the others leave.
#[verifier::external_body]
pub(crate) fn sessions_retain_running(
    map: &mut DashMap<String, Session>,
    waits: &Vec<(i32, i32)>,
)
    ensures
        forall|name: Seq<char>|
            session_entries(*final(map)).contains_key(name) <==> session_entries(
                *old(map),
            ).contains_key(name) && !reaped(session_entries(*old(map))[name].pty.pid, waits@),
        forall|name: Seq<char>|
            session_entries(*final(map)).contains_key(name) ==> session_entries(*final(map))[name]
                == session_entries(*old(map))[name],
{
    map.retain(|_, session| is_running(session, waits));
}

/// `DashMap::iter`, each entry copied out: every entry of the map occurs
/// once, in an order that is not fixed.
#[verifier::external_body]
pub(crate) fn sessions_entries(map: &DashMap<String, Session>) -> (r: Vec<(String, Session)>)
    ensures
        forall|i: int|
            0 <= i < r.len() ==> session_entries(*map).contains_key((#[trigger] r[i]).0@)
                && session_entries(*map)[r[i].0@] == r[i].1@,
        forall|i: int, j: int| 0 <= i < j < r.len() ==> (#[trigger] r[i]).0@ != (#[trigger] r[j]).0@,
        forall|name: Seq<char>|
            session_entries(*map).contains_key(name) ==> exists|i: int|
                0 <= i < r.len() && (#[trigger] r[i]).0@ == name,
{
    map.iter().map(|entry| (entry.key().clone(), entry.value().clone())).collect()
}

/// `DashMap::new`: a map without entries.
#[verifier::external_body]
pub(crate) fn names_new() -> (r: DashMap<usize, String>)
    ensures
        name_entries(r).dom() == Set::<usize>::empty(),
{
    DashMap::new()
}

/// `DashMap::get`: a copy of the name under `id`, if there is one.
#[verifier::external_body]
pub(crate) fn names_get(map: &DashMap<usize, String>, id: usize) -> (r: Option<String>)
    ensures
        match r {
            Some(name) => name_entries(*map).contains_key(id) && name@ == name_entries(*map)[id],
            None => !name_entries(*map).contains_key(id),
        },
{
    map.get(&id).map(|entry| entry.value().clone())
}

/// `DashMap::insert`: the map holds `name` under `id`, in place of what
/// it held there; its other entries stay.
#[verifier::external_body]
pub(crate) fn names_insert(map: &mut DashMap<usize, String>, id: usize, name: String)
    ensures
        name_entries(*final(map)) == name_entries(*old(map)).insert(id, name@),
{
    map.insert(id, name);
}

/// `DashMap::remove`: the entry under `id` leaves the map; the other entries stay.
#[verifier::external_body]
pub(crate) fn names_remove(map: &mut DashMap<usize, String>, id: usize)
    ensures
        name_entries(*final(map)) == name_entries(*old(map)).remove(id),
{
    map.remove(&id);
}

/// `DashMap::retain`, keeping the names under which `sessions` holds a
/// session: those entries stay as they are, the others leave.
#[verifier::external_body]
pub(crate) fn names_retain_known(
    map: &mut DashMap<usize, String>,
    sessions: &DashMap<String, Session>,
)
    ensures
        forall|id: usize|
            name_entries(*final(map)).contains_key(id) <==> name_entries(*old(map)).contains_key(
                id,
            ) && session_entries(*sessions).contains_key(name_entries(*old(map))[id]),
        forall|id: usize|
            name_entries(*final(map)).contains_key(id) ==> name_entries(*final(map))[id]
                == name_entries(*old(map))[id],
{
    map.retain(|_, name| known_name(sessions, name));
}

} // verus!
