use croc::tcp;
use croc::tcp::rooms::{roomInfo, Join, RoomMap, Watch};
use croc::tcp::{StopSignal, Sweep};

fn key(s: &str) -> String {
    String::from(s)
}

#[test]
fn fresh_registry_has_no_rooms() {
    let rooms = RoomMap::new();
    assert_eq!(rooms.len(), 0);
    assert_eq!(rooms.get(&key("R")), None);
    assert_eq!(rooms.watch(&key("R")), Watch::Gone);
}

#[test]
fn first_peer_makes_the_room() {
    let mut rooms = RoomMap::new();
    assert_eq!(rooms.join(&key("R"), 7, 1000), Join::Created);
    assert_eq!(
        rooms.get(&key("R")),
        Some(roomInfo { full: false, opened: 1000, first: Some(7), second: None })
    );
    assert_eq!(rooms.len(), 1);
}

#[test]
fn room_is_matched_once_and_a_third_peer_changes_nothing() {
    let mut rooms = RoomMap::new();
    assert_eq!(rooms.join(&key("R"), 1, 10), Join::Created);
    assert_eq!(rooms.join(&key("R"), 2, 20), Join::Matched { first: 1 });
    let matched = rooms.get(&key("R"));
    assert_eq!(
        matched,
        Some(roomInfo { full: true, opened: 10, first: Some(1), second: Some(2) })
    );
    assert_eq!(rooms.join(&key("R"), 3, 30), Join::Full);
    assert_eq!(rooms.get(&key("R")), matched);
    assert_eq!(rooms.join(&key("R"), 4, 40), Join::Full);
    assert_eq!(rooms.get(&key("R")), matched);
    assert_eq!(rooms.len(), 1);
}

#[test]
fn rooms_with_different_keys_do_not_meet() {
    let mut rooms = RoomMap::new();
    assert_eq!(rooms.join(&key("a"), 1, 0), Join::Created);
    assert_eq!(rooms.join(&key("b"), 2, 0), Join::Created);
    assert_eq!(rooms.join(&key("A"), 3, 0), Join::Created);
    assert_eq!(rooms.join(&key(""), 4, 0), Join::Created);
    assert_eq!(rooms.len(), 4);
    assert_eq!(rooms.join(&key("b"), 5, 1), Join::Matched { first: 2 });
    assert_eq!(rooms.get(&key("a")).unwrap().full, false);
    assert_eq!(rooms.get(&key("b")).unwrap().full, true);
}

#[test]
fn removed_room_can_be_made_again() {
    let mut rooms = RoomMap::new();
    rooms.join(&key("R"), 1, 10);
    rooms.join(&key("R"), 2, 20);
    rooms.remove(&key("R"));
    assert_eq!(rooms.get(&key("R")), None);
    assert_eq!(rooms.len(), 0);
    assert_eq!(rooms.join(&key("R"), 3, 30), Join::Created);
    assert_eq!(rooms.get(&key("R")).unwrap().first, Some(3));
}

#[test]
fn removing_a_room_that_is_not_there_changes_nothing() {
    let mut rooms = RoomMap::new();
    rooms.join(&key("a"), 1, 10);
    rooms.remove(&key("b"));
    assert_eq!(rooms.len(), 1);
    assert!(rooms.get(&key("a")).is_some());
}

#[test]
fn removing_one_room_leaves_the_others() {
    let mut rooms = RoomMap::new();
    for (i, name) in ["a", "b", "c", "d"].iter().enumerate() {
        rooms.join(&key(name), i as u64, 10);
    }
    rooms.remove(&key("b"));
    assert_eq!(rooms.len(), 3);
    assert_eq!(rooms.get(&key("a")).unwrap().first, Some(0));
    assert_eq!(rooms.get(&key("b")), None);
    assert_eq!(rooms.get(&key("c")).unwrap().first, Some(2));
    assert_eq!(rooms.get(&key("d")).unwrap().first, Some(3));
}

#[test]
fn waiting_room_is_abandoned_and_full_room_is_not() {
    let mut rooms = RoomMap::new();
    rooms.join(&key("w"), 1, 10);
    rooms.join(&key("f"), 2, 10);
    rooms.join(&key("f"), 3, 11);
    assert_eq!(rooms.remove_waiting(&key("w")), true);
    assert_eq!(rooms.remove_waiting(&key("f")), false);
    assert_eq!(rooms.remove_waiting(&key("none")), false);
    assert_eq!(rooms.get(&key("w")), None);
    assert!(rooms.get(&key("f")).is_some());
}

#[test]
fn waiting_peer_is_probed_until_its_partner_comes() {
    let mut rooms = RoomMap::new();
    rooms.join(&key("R"), 5, 10);
    assert_eq!(rooms.watch(&key("R")), Watch::Probe { conn: 5 });
    rooms.join(&key("R"), 6, 20);
    assert_eq!(rooms.watch(&key("R")), Watch::Ready);
    rooms.remove(&key("R"));
    assert_eq!(rooms.watch(&key("R")), Watch::Gone);
}

#[test]
fn reaper_evicts_a_room_that_waited_longer_than_the_ttl() {
    let mut rooms = RoomMap::new();
    rooms.join(&key("R"), 1, 1000);
    assert_eq!(rooms.delete_old(1000 + 500, 500), Vec::<String>::new());
    assert!(rooms.get(&key("R")).is_some());
    assert_eq!(rooms.delete_old(1000 + 501, 500), vec![key("R")]);
    assert_eq!(rooms.get(&key("R")), None);
    assert_eq!(rooms.len(), 0);
}

#[test]
fn reaper_never_evicts_a_full_room() {
    let mut rooms = RoomMap::new();
    rooms.join(&key("R"), 1, 1000);
    rooms.join(&key("R"), 2, 1400);
    assert_eq!(rooms.delete_old(u64::MAX, 500), Vec::<String>::new());
    assert_eq!(
        rooms.get(&key("R")),
        Some(roomInfo { full: true, opened: 1000, first: Some(1), second: Some(2) })
    );
}

#[test]
fn reaper_takes_the_stale_rooms_and_leaves_the_rest() {
    let mut rooms = RoomMap::new();
    rooms.join(&key("old1"), 1, 0);
    rooms.join(&key("young"), 2, 900);
    rooms.join(&key("old2"), 3, 10);
    rooms.join(&key("full"), 4, 0);
    rooms.join(&key("full"), 5, 1);
    rooms.join(&key("old3"), 6, 20);
    let mut removed = rooms.delete_old(1000, 500);
    removed.sort();
    assert_eq!(removed, vec![key("old1"), key("old2"), key("old3")]);
    assert_eq!(rooms.len(), 2);
    assert!(rooms.get(&key("young")).is_some());
    assert!(rooms.get(&key("full")).is_some());
}

#[test]
fn reaper_with_a_clock_behind_the_room_evicts_nothing() {
    let mut rooms = RoomMap::new();
    rooms.join(&key("R"), 1, 1000);
    assert_eq!(rooms.delete_old(10, 0), Vec::<String>::new());
    assert_eq!(rooms.delete_old(1000, 0), Vec::<String>::new());
    assert_eq!(rooms.delete_old(1001, 0), vec![key("R")]);
}

#[test]
fn reaper_stops_on_the_sign_and_when_nobody_can_give_it() {
    let mut rooms = RoomMap::new();
    rooms.join(&key("R"), 1, 0);
    assert_eq!(tcp::delete_old_rooms(&mut rooms, StopSignal::Stop, 1_000_000, 1), Sweep::Stopped);
    assert_eq!(
        tcp::delete_old_rooms(&mut rooms, StopSignal::Disconnected, 1_000_000, 1),
        Sweep::Stopped
    );
    assert!(rooms.get(&key("R")).is_some());
    assert_eq!(
        tcp::delete_old_rooms(&mut rooms, StopSignal::Empty, 1_000_000, 1),
        Sweep::Swept { removed: vec![key("R")] }
    );
    assert_eq!(rooms.get(&key("R")), None);
    assert_eq!(
        tcp::delete_old_rooms(&mut rooms, StopSignal::Empty, 2_000_000, 1),
        Sweep::Swept { removed: vec![] }
    );
}

#[test]
fn relay_defaults() {
    let s = tcp::run("localhost", String::from("9009"), String::from("pass123"), String::new());
    assert_eq!(s.host, "localhost");
    assert_eq!(s.port, "9009");
    assert_eq!(s.password, "pass123");
    assert_eq!(s.banner, "");
    assert_eq!(s.room_ttl, 3 * 3600 * 1000);
    assert_eq!(s.room_cleanup_interval, 600 * 1000);
    assert_eq!(s.rooms.len(), 0);
    assert_eq!(tcp::HEARTBEAT, 1);
    assert_eq!(tcp::HEARTBEAT_INTERVAL, 1000);
}

#[test]
fn relay_listens_on_every_interface_when_asked_for_loopback() {
    let s = tcp::run("127.0.0.1", String::from("9009"), String::new(), String::new());
    assert_eq!(s.listen_addr(), "0.0.0.0:9009");
    let s = tcp::run("localhost", String::from("9010"), String::new(), String::new());
    assert_eq!(s.listen_addr(), "localhost:9010");
    let s = tcp::run("10.127.0.0.1", String::from("1"), String::new(), String::new());
    assert_eq!(s.listen_addr(), "10.0.0.0.0:1");
    let s = tcp::run("127.0.0.1127.0.0.1", String::from("2"), String::new(), String::new());
    assert_eq!(s.listen_addr(), "0.0.0.0127.0.0.1:2");
}
