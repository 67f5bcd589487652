use termchat_wan::client::Client;
use termchat_wan::commands::file_name_of;
use termchat_wan::events::{ActionItem, Effect, TermInput};
use termchat_wan::message::{Chunk, NetMessage};
use termchat_wan::state::MessageType;

fn type_and_commit(client: &mut Client, line: &str) -> Vec<Effect> {
    for c in line.chars() {
        let fx = client.process_terminal_event(TermInput::Character(c));
        assert!(fx.is_empty());
    }
    client.process_terminal_event(TermInput::Enter)
}

#[test]
fn scripted_run_announces_and_broadcasts() {
    let mut client = Client::new("alice".to_string());
    // connect: the announce goes out and the heartbeat is scheduled
    let fx = client.on_connect();
    assert_eq!(fx.len(), 2);
    assert!(matches!(&fx[0], Effect::Send(NetMessage::Hi(u)) if u == "alice"));
    assert!(matches!(&fx[1], Effect::Schedule(ActionItem::Heartbeat(_), _)));
    // the server echoes the announce back; the client's own name adds nothing
    let fx = client.process_network_message(NetMessage::Hi("alice".to_string()));
    assert!(fx.is_empty());
    assert_eq!(client.state().message_count(), 0);
    // type "hello" and commit
    let fx = type_and_commit(&mut client, "hello");
    assert_eq!(fx.len(), 1);
    match &fx[0] {
        Effect::Send(NetMessage::UserMessage(u, t)) => {
            assert_eq!(u, "alice");
            assert_eq!(t, "hello");
        },
        _ => panic!("a broadcast must be sent"),
    }
    // the transcript holds the line as self-authored
    assert_eq!(client.state().message_count(), 1);
    let entry = client.state().message_at(0);
    assert_eq!(entry.user, "alice (me)");
    match &entry.message_type {
        MessageType::Text(t) => assert_eq!(t, "hello"),
        _ => panic!("the echo must be chat text"),
    }
}

#[test]
fn send_command_with_a_missing_file_reports_and_starts_nothing() {
    let mut client = Client::new("me".to_string());
    let fx = type_and_commit(&mut client, "?send bob ./missing.txt");
    // the command parses: the loop is asked to open the file
    assert_eq!(fx.len(), 1);
    let path = match &fx[0] {
        Effect::OpenFile { from, to, path } => {
            assert_eq!(from, "me");
            assert_eq!(to, "bob");
            path.clone()
        },
        _ => panic!("an open-file request must come out"),
    };
    assert_eq!(path, "./missing.txt");
    // the file does not exist: the opener reports failure
    let before = client.state().message_count();
    let fx = client.file_opened("me".to_string(), "bob".to_string(), &path, None);
    // a displayed error, no action enqueued, no transfer started
    assert!(fx.is_empty());
    assert_eq!(client.state().message_count(), before + 1);
    match &client.state().message_at(before).message_type {
        MessageType::System(_, termchat_wan::state::SystemMessageType::Error) => {},
        _ => panic!("the failure must be displayed"),
    }
    assert_eq!(client.state().progress_count(), 0);
}

#[test]
fn zero_length_file_fails_at_construction_through_the_client_too() {
    let mut client = Client::new("me".to_string());
    let fx = client.file_opened("me".to_string(), "bob".to_string(), "./empty.bin", Some(0));
    assert!(fx.is_empty());
    match &client.state().message_at(0).message_type {
        MessageType::System(text, termchat_wan::state::SystemMessageType::Error) => {
            assert_eq!(text, "Don't send blank file");
        },
        _ => panic!("the rejection must be displayed"),
    }
}

#[test]
fn file_opened_on_a_real_size_schedules_the_transfer() {
    let mut client = Client::new("me".to_string());
    let fx = client.file_opened("me".to_string(), "bob".to_string(), "/tmp/f.bin", Some(17));
    assert_eq!(fx.len(), 1);
    match &fx[0] {
        Effect::Schedule(ActionItem::SendFile(sf), 0) => {
            assert_eq!(sf.from, "me");
            assert_eq!(sf.to, "bob");
            assert_eq!(sf.file_name, "f.bin");
            assert_eq!(sf.file_size, 17);
        },
        _ => panic!("the transfer must be scheduled at once"),
    }
}

#[test]
fn msg_command_whispers_and_does_not_broadcast() {
    let mut client = Client::new("me".to_string());
    let fx = type_and_commit(&mut client, "?msg bob hi there");
    assert_eq!(fx.len(), 1);
    match &fx[0] {
        Effect::Send(NetMessage::WhisperMessage(f, t, c)) => {
            assert_eq!(f, "me");
            assert_eq!(t, "bob");
            assert_eq!(c, "hi there");
        },
        _ => panic!("exactly one whisper must be sent"),
    }
    // echoed locally, but no broadcast chat was sent
    assert_eq!(client.state().message_count(), 1);
    assert_eq!(client.state().message_at(0).user, "me (me)");
}

#[test]
fn quoted_arguments_stay_one_word() {
    let mut client = Client::new("me".to_string());
    let fx = type_and_commit(&mut client, "?msg \"bob smith\" \"hi  there\" again");
    assert_eq!(fx.len(), 1);
    match &fx[0] {
        Effect::Send(NetMessage::WhisperMessage(_, t, c)) => {
            assert_eq!(t, "bob smith");
            assert_eq!(c, "hi  there again");
        },
        _ => panic!("a whisper must be sent"),
    }
}

#[test]
fn command_errors_are_displayed_inline() {
    let mut client = Client::new("me".to_string());
    // missing arguments
    let fx = type_and_commit(&mut client, "?msg bob");
    assert!(fx.is_empty());
    match &client.state().message_at(0).message_type {
        MessageType::System(text, _) => assert_eq!(text, "Content is blank"),
        _ => panic!("the parse error must be displayed"),
    }
    // mismatched quotes
    let fx = type_and_commit(&mut client, "?msg bob \"oops");
    assert!(fx.is_empty());
    match &client.state().message_at(1).message_type {
        MessageType::System(text, _) => assert_eq!(text, "Mismatched quotes"),
        _ => panic!("the quoting error must be displayed"),
    }
    // unknown command: echoed, then reported
    let fx = type_and_commit(&mut client, "?frobnicate now");
    assert!(fx.is_empty());
    assert_eq!(client.state().message_at(2).user, "me (me)");
    match &client.state().message_at(3).message_type {
        MessageType::System(text, _) => assert_eq!(text, "This command doesn't exists"),
        _ => panic!("the unknown command must be reported"),
    }
}

#[test]
fn inbound_messages_update_the_transcript() {
    let mut client = Client::new("me".to_string());
    let fx = client.process_network_message(NetMessage::Hi("bob".to_string()));
    assert!(matches!(fx.as_slice(), [Effect::Bell]));
    let fx = client.process_network_message(NetMessage::UserMessage(
        "bob".to_string(),
        "hello".to_string(),
    ));
    assert!(matches!(fx.as_slice(), [Effect::Bell]));
    // a whisper for somebody else is not accepted
    let fx = client.process_network_message(NetMessage::WhisperMessage(
        "bob".to_string(),
        "carol".to_string(),
        "x".to_string(),
    ));
    assert!(fx.is_empty());
    // one addressed to this user is
    let fx = client.process_network_message(NetMessage::WhisperMessage(
        "bob".to_string(),
        "me".to_string(),
        "psst".to_string(),
    ));
    assert!(matches!(fx.as_slice(), [Effect::Bell]));
    // a peer's heartbeat makes no entry
    let fx = client.process_network_message(NetMessage::BBB("bob".to_string()));
    assert!(fx.is_empty());
    assert_eq!(client.state().message_count(), 3);
    match &client.state().message_at(2).message_type {
        MessageType::PrivateText(c) => assert_eq!(c, "psst"),
        _ => panic!("the whisper must land"),
    }
}

#[test]
fn inbound_chunk_data_is_handed_out_to_be_written() {
    let mut client = Client::new("me".to_string());
    let fx = client.process_network_message(NetMessage::UserData(
        "bob".to_string(),
        "me".to_string(),
        "f.bin".to_string(),
        Chunk::Data(vec![1, 2, 3]),
    ));
    assert_eq!(fx.len(), 1);
    match &fx[0] {
        Effect::WriteFile { from, file_name, data } => {
            assert_eq!(from, "bob");
            assert_eq!(file_name, "f.bin");
            assert_eq!(data, &vec![1, 2, 3]);
        },
        _ => panic!("the bytes must be written out"),
    }
}

#[test]
fn duplicate_end_marker_is_harmless() {
    let mut client = Client::new("me".to_string());
    let end = NetMessage::UserData(
        "bob".to_string(),
        "me".to_string(),
        "f.bin".to_string(),
        Chunk::End,
    );
    let fx = client.process_network_message(end);
    assert!(matches!(fx.as_slice(), [Effect::Bell]));
    let end_again = NetMessage::UserData(
        "bob".to_string(),
        "me".to_string(),
        "f.bin".to_string(),
        Chunk::End,
    );
    // delivered twice: no crash, just one more informational entry
    let fx = client.process_network_message(end_again);
    assert!(matches!(fx.as_slice(), [Effect::Bell]));
    assert_eq!(client.state().message_count(), 2);
    assert_eq!(client.state().progress_count(), 0);
}

#[test]
fn escape_and_interrupt_stop_the_loop() {
    let mut client = Client::new("me".to_string());
    assert!(matches!(
        client.process_terminal_event(TermInput::Esc).as_slice(),
        [Effect::Stop]
    ));
    assert!(matches!(
        client.process_terminal_event(TermInput::CtrlC).as_slice(),
        [Effect::Stop]
    ));
}

#[test]
fn file_names_come_from_the_path_tail() {
    assert_eq!(file_name_of("./a/b.txt"), Some("b.txt".to_string()));
    assert_eq!(file_name_of("plain.bin"), Some("plain.bin".to_string()));
    assert_eq!(file_name_of("dir/"), None);
    assert_eq!(file_name_of("a/.."), None);
    assert_eq!(file_name_of(""), None);
}
