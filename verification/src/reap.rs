//! Which sessions have lost their child.

use vstd::prelude::*;
use dashmap::DashMap;
use crate::session::Session;
use crate::store::{session_entries, sessions_contains};

verus! {

/// Whether a non-blocking wait that returned `result` found that the child has exited.
pub open spec fn spec_child_exited(result: i32) -> bool {
    result > 0
}

/// Whether the child `pid` is among those that `waits` reports as exited.
/// Each entry of `waits` is a pid and what a non-blocking wait for it returned.
pub open spec fn reaped(pid: i32, waits: Seq<(i32, i32)>) -> bool {
    exists|i: int| 0 <= i < waits.len() && (#[trigger] waits[i]).0 == pid && spec_child_exited(
        waits[i].1,
    )
}

pub fn child_exited(result: i32) -> (r: bool)
    ensures
        r == spec_child_exited(result),
{
    result > 0
}

pub fn is_reaped(pid: i32, waits: &Vec<(i32, i32)>) -> (r: bool)
    ensures
        r == reaped(pid, waits@),
{
    let mut i: usize = 0;
    while i < waits.len()
        invariant
            i <= waits.len(),
            forall|j: int| 0 <= j < i ==> !((#[trigger] waits@[j]).0 == pid && spec_child_exited(
                waits@[j].1,
            )),
        decreases waits.len() - i,
    {
        if waits[i].0 == pid && child_exited(waits[i].1) {
            return true;
        }
        i = i + 1;
    }
    false
}

/// Whether the child of `session` is not among those that `waits` reports as exited.
pub fn is_running(session: &Session, waits: &Vec<(i32, i32)>) -> (r: bool)
    ensures
        r == !reaped(session@.pty.pid, waits@),
{
    !is_reaped(session.pid(), waits)
}

/// Whether `sessions` holds a session under `name`.
pub(crate) fn known_name(sessions: &DashMap<String, Session>, name: &String) -> (r: bool)
    ensures
        r == session_entries(*sessions).contains_key(name@),
{
    sessions_contains(sessions, name.as_str())
}

} // verus!
