use sesh::cli::SessionSelector;
use sesh::pty::Pty;
use sesh::reap::{child_exited, is_reaped, is_running};
use sesh::registry::SessionList;
use sesh::session::{Session, SessionInfo};

fn session(id: usize, name: &str, pid: i32) -> Session {
    Session::started_at(
        id,
        name.to_string(),
        format!("/bin/{}", name),
        Pty::new("prog").spawned(10 + pid, pid),
        format!("/tmp/sesh/{}.sock", name),
        1_000,
    )
}

fn names(list: &SessionList) -> Vec<String> {
    let mut names: Vec<String> = list.iter().into_iter().map(|e| e.0).collect();
    names.sort();
    names
}

#[test]
fn new_registry_is_empty() {
    let list = SessionList::new();
    assert_eq!(list.count(), 0);
    assert!(list.is_empty());
    assert!(!list.contains("sh"));
    assert!(list.get("sh").is_none());
    assert!(list.get_by_id(0).is_none());
    assert!(list.iter().is_empty());
}

#[test]
fn insert_adds_to_both_views() {
    let mut list = SessionList::new();
    list.insert("sh".to_string(), session(0, "sh", 100));
    list.insert("vi".to_string(), session(1, "vi", 101));
    assert_eq!(list.count(), 2);
    assert!(!list.is_empty());
    assert!(list.contains("sh"));
    assert!(list.contains("vi"));
    assert!(!list.contains("ed"));
    assert_eq!(list.get("sh").unwrap().pid(), 100);
    assert_eq!(list.get("vi").unwrap().id, 1);
    assert_eq!(list.get_by_id(0).unwrap().name, "sh");
    assert_eq!(list.get_by_id(1).unwrap().name, "vi");
    assert!(list.get_by_id(2).is_none());
    assert_eq!(names(&list), vec!["sh".to_string(), "vi".to_string()]);
}

#[test]
fn get_returns_what_was_inserted() {
    let mut list = SessionList::new();
    list.insert("sh".to_string(), session(5, "sh", 321));
    let found = list.get("sh").unwrap();
    assert_eq!(found.id, 5);
    assert_eq!(found.name, "sh");
    assert_eq!(found.program, "/bin/sh");
    assert_eq!(found.pty.pid(), 321);
    assert_eq!(found.pty.fd(), 331);
    assert!(found.pty.kills_on_drop());
    assert_eq!(found.info.start_time(), 1_000);
    assert_eq!(found.info.attach_time(), 0);
    assert!(!found.info.connected());
    assert_eq!(found.info.sock_path(), "/tmp/sesh/sh.sock");
}

#[test]
fn remove_takes_from_both_views() {
    let mut list = SessionList::new();
    list.insert("sh".to_string(), session(0, "sh", 100));
    list.insert("vi".to_string(), session(1, "vi", 101));
    let removed = list.remove("sh").unwrap();
    assert_eq!(removed.name, "sh");
    assert_eq!(removed.pid(), 100);
    assert_eq!(list.count(), 1);
    assert!(!list.contains("sh"));
    assert!(list.get_by_id(0).is_none());
    assert_eq!(list.get_by_id(1).unwrap().name, "vi");
    assert!(list.remove("sh").is_none());
    assert_eq!(list.count(), 1);
}

#[test]
fn remove_of_unknown_name_changes_nothing() {
    let mut list = SessionList::new();
    list.insert("sh".to_string(), session(0, "sh", 100));
    assert!(list.remove("nope").is_none());
    assert_eq!(list.count(), 1);
    assert!(list.contains("sh"));
    assert_eq!(list.get_by_id(0).unwrap().name, "sh");
}

#[test]
fn views_agree_after_inserts_and_removes() {
    let mut list = SessionList::new();
    for (id, name) in ["a", "b", "c", "d"].iter().enumerate() {
        list.insert(name.to_string(), session(id, name, 200 + id as i32));
    }
    list.remove("b");
    list.remove("d");
    for id in 0..6 {
        let by_id = list.get_by_id(id);
        let expected = list.iter().into_iter().find(|e| e.1.id == id);
        match (by_id, expected) {
            (Some(s), Some(e)) => {
                assert_eq!(s.name, e.0);
                assert_eq!(s.id, id);
            }
            (None, None) => {}
            _ => panic!("views disagree on id {}", id),
        }
    }
    assert!(list.get_by_id(0).is_some());
    assert!(list.get_by_id(1).is_none());
    assert!(list.get_by_id(2).is_some());
    assert!(list.get_by_id(3).is_none());
}

#[test]
fn clean_removes_sessions_whose_child_exited() {
    let mut list = SessionList::new();
    list.insert("a".to_string(), session(0, "a", 100));
    list.insert("b".to_string(), session(1, "b", 101));
    list.insert("c".to_string(), session(2, "c", 102));
    let empty = list.clean(&vec![(100, 0), (101, 101), (102, -1)]);
    assert!(!empty);
    assert_eq!(names(&list), vec!["a".to_string(), "c".to_string()]);
    assert!(list.get_by_id(1).is_none());
    assert_eq!(list.get_by_id(0).unwrap().name, "a");
    assert_eq!(list.get_by_id(2).unwrap().name, "c");
}

#[test]
fn clean_tells_when_the_registry_is_empty() {
    let mut list = SessionList::new();
    assert!(list.clean(&vec![]));
    list.insert("a".to_string(), session(0, "a", 100));
    assert!(!list.clean(&vec![]));
    assert!(!list.clean(&vec![(999, 999)]));
    assert!(list.clean(&vec![(100, 100)]));
    assert_eq!(list.count(), 0);
    assert!(list.get_by_id(0).is_none());
}

#[test]
fn wait_results_decide_who_is_reaped() {
    assert!(child_exited(1));
    assert!(child_exited(4321));
    assert!(!child_exited(0));
    assert!(!child_exited(-1));
    let waits = vec![(1, 0), (2, 2), (3, -1), (1, 1)];
    assert!(is_reaped(1, &waits));
    assert!(is_reaped(2, &waits));
    assert!(!is_reaped(3, &waits));
    assert!(!is_reaped(4, &waits));
    assert!(!is_running(&session(0, "a", 2), &waits));
    assert!(is_running(&session(0, "a", 3), &waits));
}

#[test]
fn iter_lists_every_session_once() {
    let mut list = SessionList::new();
    for (id, name) in ["x", "y", "z"].iter().enumerate() {
        list.insert(name.to_string(), session(id, name, 300 + id as i32));
    }
    let listed = list.iter();
    assert_eq!(listed.len(), 3);
    for (name, s) in &listed {
        assert_eq!(name, &s.name);
        assert_eq!(list.get(name).unwrap().id, s.id);
    }
    assert_eq!(names(&list), vec!["x".to_string(), "y".to_string(), "z".to_string()]);
}

#[test]
fn unique_name_numbers_taken_names() {
    let mut list = SessionList::new();
    assert_eq!(list.unique_name("sh"), "sh");
    list.insert("sh".to_string(), session(0, "sh", 1));
    assert_eq!(list.unique_name("sh"), "sh-0");
    list.insert("sh-0".to_string(), session(1, "sh-0", 2));
    assert_eq!(list.unique_name("sh"), "sh-1");
    list.insert("sh-2".to_string(), session(2, "sh-2", 3));
    assert_eq!(list.unique_name("sh"), "sh-1");
    list.insert("sh-1".to_string(), session(3, "sh-1", 4));
    assert_eq!(list.unique_name("sh"), "sh-3");
    assert_eq!(list.unique_name("vi"), "vi");
    list.remove("sh");
    assert_eq!(list.unique_name("sh"), "sh");
}

#[test]
fn unique_name_reaches_two_digit_numbers() {
    let mut list = SessionList::new();
    list.insert("p".to_string(), session(0, "p", 1));
    for i in 0..11 {
        let name = format!("p-{}", i);
        list.insert(name.clone(), session(i + 1, &name, 2));
    }
    assert_eq!(list.unique_name("p"), "p-11");
}

#[test]
fn selectors_find_sessions_by_name_and_by_id() {
    let mut list = SessionList::new();
    list.insert("sh".to_string(), session(0, "sh", 100));
    list.insert("vi".to_string(), session(1, "vi", 101));
    assert_eq!(list.find(&SessionSelector::Name("vi".to_string())).unwrap().pid(), 101);
    assert_eq!(list.find(&SessionSelector::Id(0)).unwrap().name, "sh");
    assert!(list.find(&SessionSelector::Name("ed".to_string())).is_none());
    assert!(list.find(&SessionSelector::Id(7)).is_none());
    assert_eq!(list.key_of(&SessionSelector::Id(1)), Some("vi".to_string()));
    assert_eq!(list.key_of(&SessionSelector::Id(9)), None);
    assert_eq!(list.key_of(&SessionSelector::Name("ghost".to_string())), None);
    assert_eq!(list.key_of(&SessionSelector::Name("sh".to_string())), Some("sh".to_string()));
}

#[test]
fn clients_come_and_go() {
    let mut list = SessionList::new();
    list.insert("sh".to_string(), session(0, "sh", 100));
    assert!(list.attach_at("sh", 5_000));
    let held = list.get("sh").unwrap();
    assert!(held.info.connected());
    assert_eq!(held.info.attach_time(), 5_000);
    assert_eq!(held.info.start_time(), 1_000);
    assert!(list.disconnect("sh"));
    let idle = list.get("sh").unwrap();
    assert!(!idle.info.connected());
    assert_eq!(idle.info.attach_time(), 5_000);
    assert!(list.stamp("sh", 6_000));
    assert_eq!(list.get("sh").unwrap().info.attach_time(), 6_000);
    assert_eq!(list.get_by_id(0).unwrap().info.attach_time(), 6_000);
    assert!(!list.attach_at("nope", 1));
    assert!(!list.disconnect("nope"));
    assert!(!list.stamp("nope", 1));
    assert_eq!(list.count(), 1);
}

#[test]
fn drain_empties_the_registry() {
    let mut list = SessionList::new();
    list.insert("a".to_string(), session(0, "a", 100));
    list.insert("b".to_string(), session(1, "b", 101));
    let mut drained: Vec<String> = list.drain().into_iter().map(|e| e.0).collect();
    drained.sort();
    assert_eq!(drained, vec!["a".to_string(), "b".to_string()]);
    assert!(list.is_empty());
    assert_eq!(list.count(), 0);
    assert!(list.get_by_id(0).is_none());
    assert!(list.drain().is_empty());
    assert_eq!(list.next_id(), Some(2));
}

#[test]
fn next_id_lies_above_every_id_given() {
    let mut list = SessionList::new();
    assert_eq!(list.next_id(), Some(0));
    list.insert("a".to_string(), session(0, "a", 1));
    assert_eq!(list.next_id(), Some(1));
    list.insert("b".to_string(), session(7, "b", 2));
    assert_eq!(list.next_id(), Some(8));
    list.insert("c".to_string(), session(3, "c", 3));
    assert_eq!(list.next_id(), Some(8));
    list.remove("b");
    assert_eq!(list.next_id(), Some(8));
    list.clean(&vec![(1, 1), (3, 3)]);
    assert!(list.is_empty());
    assert_eq!(list.next_id(), Some(8));
}

#[test]
fn next_id_runs_out_at_the_largest_id() {
    let mut list = SessionList::new();
    list.insert("z".to_string(), session(usize::MAX - 1, "z", 1));
    assert_eq!(list.next_id(), Some(usize::MAX));
    list.insert("y".to_string(), session(usize::MAX, "y", 2));
    assert_eq!(list.next_id(), None);
    list.remove("y");
    assert_eq!(list.next_id(), None);
}

#[test]
fn session_knows_its_log_group_and_client_socket() {
    let mut s = session(12, "sh-0", 4242);
    assert_eq!(s.log_group(), "12: sh-0");
    assert_eq!(s.pid(), 4242);
    s.attach_at(77);
    assert!(s.info.connected());
    assert_eq!(s.detach(), "/tmp/sesh/client-4242.sock");
    assert!(!s.info.connected());
    assert_eq!(s.info.attach_time(), 77);
    s.stamp(99);
    assert_eq!(s.info.attach_time(), 99);
}

#[test]
fn session_info_starts_without_a_client() {
    let info = SessionInfo::started_at("/tmp/sesh/a.sock".to_string(), 42);
    assert_eq!(info.start_time(), 42);
    assert_eq!(info.attach_time(), 0);
    assert!(!info.connected());
    assert_eq!(info.sock_path(), "/tmp/sesh/a.sock");
    let now = SessionInfo::new("/tmp/sesh/b.sock".to_string());
    assert!(now.start_time() > 1_600_000_000_000);
    assert_eq!(now.attach_time(), 0);
    assert!(!now.connected());
    assert_eq!(now.sock_path(), "/tmp/sesh/b.sock");
}
