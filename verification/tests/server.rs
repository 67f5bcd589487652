use termchat_wan::directory::OnlineDb;
use termchat_wan::message::{Chunk, NetMessage};
use termchat_wan::router::{handle_disconnect, handle_message};

#[test]
fn logon_binds_and_logoff_frees() {
    let mut db = OnlineDb::new();
    db.logon("alice".to_string(), 1);
    db.logon("bob".to_string(), 2);
    assert_eq!(db.get_endpoint_by_user(&"alice".to_string()), Some(1));
    assert_eq!(db.get_endpoint_by_user(&"bob".to_string()), Some(2));
    assert_eq!(db.logoff(1), Some("alice".to_string()));
    assert_eq!(db.get_endpoint_by_user(&"alice".to_string()), None);
    // a second logoff of the same endpoint finds nothing
    assert_eq!(db.logoff(1), None);
    // a never-announced endpoint is tolerated too
    assert_eq!(db.logoff(42), None);
}

#[test]
fn logon_same_user_is_last_writer_wins() {
    let mut db = OnlineDb::new();
    db.logon("alice".to_string(), 1);
    db.logon("alice".to_string(), 7);
    assert_eq!(db.get_endpoint_by_user(&"alice".to_string()), Some(7));
    let eps = db.all_endpoints();
    assert_eq!(eps, vec![7]);
    // the stale reverse entry is gone with the old binding
    assert_eq!(db.logoff(1), None);
    assert_eq!(db.logoff(7), Some("alice".to_string()));
}

#[test]
fn logon_same_endpoint_rebinds() {
    let mut db = OnlineDb::new();
    db.logon("alice".to_string(), 1);
    db.logon("bob".to_string(), 1);
    assert_eq!(db.get_endpoint_by_user(&"alice".to_string()), None);
    assert_eq!(db.get_endpoint_by_user(&"bob".to_string()), Some(1));
    assert_eq!(db.all_endpoints().len(), 1);
}

#[test]
fn announce_fans_out_to_everyone() {
    let mut db = OnlineDb::new();
    db.logon("alice".to_string(), 1);
    let targets = handle_message(&mut db, &NetMessage::Hi("bob".to_string()), 2);
    let mut sorted = targets.clone();
    sorted.sort();
    assert_eq!(sorted, vec![1, 2]);
}

#[test]
fn chat_fans_out_to_everyone() {
    let mut db = OnlineDb::new();
    db.logon("alice".to_string(), 1);
    db.logon("bob".to_string(), 2);
    let msg = NetMessage::UserMessage("alice".to_string(), "hi".to_string());
    let mut targets = handle_message(&mut db, &msg, 1);
    targets.sort();
    assert_eq!(targets, vec![1, 2]);
    // the heartbeat is rebroadcast the same way
    let mut hb = handle_message(&mut db, &NetMessage::BBB("alice".to_string()), 1);
    hb.sort();
    assert_eq!(hb, vec![1, 2]);
}

#[test]
fn whisper_goes_to_exactly_the_addressee() {
    let mut db = OnlineDb::new();
    db.logon("alice".to_string(), 1);
    db.logon("bob".to_string(), 2);
    let msg = NetMessage::WhisperMessage("alice".to_string(), "bob".to_string(), "x".to_string());
    let targets = handle_message(&mut db, &msg, 1);
    assert_eq!(targets, vec![2]);
}

#[test]
fn whisper_to_unknown_user_is_silently_dropped() {
    let mut db = OnlineDb::new();
    db.logon("alice".to_string(), 1);
    let msg = NetMessage::WhisperMessage("alice".to_string(), "ghost".to_string(), "x".to_string());
    let targets = handle_message(&mut db, &msg, 1);
    assert!(targets.is_empty());
    // the sender's binding is untouched: no error, no side effect
    assert_eq!(db.get_endpoint_by_user(&"alice".to_string()), Some(1));
}

#[test]
fn file_chunk_routes_like_a_whisper() {
    let mut db = OnlineDb::new();
    db.logon("alice".to_string(), 1);
    db.logon("bob".to_string(), 2);
    let msg = NetMessage::UserData(
        "alice".to_string(),
        "bob".to_string(),
        "f.txt".to_string(),
        Chunk::Data(vec![1, 2, 3]),
    );
    assert_eq!(handle_message(&mut db, &msg, 1), vec![2]);
    let stray = NetMessage::UserData(
        "alice".to_string(),
        "ghost".to_string(),
        "f.txt".to_string(),
        Chunk::End,
    );
    assert!(handle_message(&mut db, &stray, 1).is_empty());
}

#[test]
fn disconnect_of_a_bound_user_broadcasts_a_leave() {
    let mut db = OnlineDb::new();
    db.logon("alice".to_string(), 1);
    db.logon("bob".to_string(), 2);
    let (msg, targets) = handle_disconnect(&mut db, 1).expect("alice was bound");
    match msg {
        NetMessage::Bye(u) => assert_eq!(u, "alice"),
        _ => panic!("a leave must be synthesized"),
    }
    assert_eq!(targets, vec![2]);
    // an unbound endpoint disconnecting makes no noise
    assert!(handle_disconnect(&mut db, 1).is_none());
}

#[test]
fn leave_message_unbinds_the_sender() {
    let mut db = OnlineDb::new();
    db.logon("alice".to_string(), 1);
    db.logon("bob".to_string(), 2);
    // the sender endpoint is unbound, whatever name the message claims
    let targets = handle_message(&mut db, &NetMessage::Bye("alice".to_string()), 1);
    assert_eq!(targets, vec![2]);
    assert_eq!(db.get_endpoint_by_user(&"alice".to_string()), None);
}
