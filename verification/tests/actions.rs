use termchat_wan::action::{
    run_send, FileRead, Heartbeat, Processing, SendFile, SendWhisper, CHUNK_SIZE,
    HEARTBEAT_PERIOD_MICROS,
};
use termchat_wan::message::{Chunk, NetMessage};
use termchat_wan::state::{ProgressState, State};
use termchat_wan::util::ErrorKind;

#[test]
fn whisper_emits_once_and_completes() {
    let w = SendWhisper::new("me", "bob", "hi there").unwrap();
    let (message, processing) = w.process();
    match message {
        NetMessage::WhisperMessage(f, t, c) => {
            assert_eq!(f, "me");
            assert_eq!(t, "bob");
            assert_eq!(c, "hi there");
        },
        _ => panic!("a whisper must go out"),
    }
    assert!(matches!(processing, Processing::Completed));
}

#[test]
fn heartbeat_reschedules_itself() {
    let h = Heartbeat::new("alice".to_string());
    let (message, processing) = h.process();
    assert!(matches!(message, NetMessage::BBB(u) if u == "alice"));
    assert!(matches!(processing, Processing::Partial(d) if d == HEARTBEAT_PERIOD_MICROS));
}

#[test]
fn blank_file_is_rejected_at_construction() {
    let r = SendFile::new("me", "bob", "empty.bin", 0);
    let e = r.err().expect("a zero-length file must be rejected");
    assert!(matches!(e.kind, ErrorKind::FileAccess));
    assert_eq!(e.text, "Don't send blank file");
}

fn collect_chunks(content: Vec<u8>) -> (Vec<NetMessage>, State) {
    let action =
        SendFile::new("me", "bob", "f.bin", content.len() as u64).expect("non-empty file");
    let mut state = State::new();
    let msgs = run_send(action, &mut state, &content);
    (msgs, state)
}

#[test]
fn small_file_is_one_chunk_then_end() {
    let (msgs, state) = collect_chunks(vec![7u8; 5]);
    assert_eq!(msgs.len(), 2);
    match &msgs[0] {
        NetMessage::UserData(f, t, n, Chunk::Data(d)) => {
            assert_eq!(f, "me");
            assert_eq!(t, "bob");
            assert_eq!(n, "f.bin");
            assert_eq!(d.len(), 5);
        },
        _ => panic!("first message must carry data"),
    }
    assert!(matches!(&msgs[1], NetMessage::UserData(_, _, _, Chunk::End)));
    assert_eq!(state.progress_at(0).state, ProgressState::Completed);
    assert_eq!(state.progress_at(0).total, 5);
}

#[test]
fn large_file_is_ceil_chunks_then_end() {
    // two full chunks and a remainder
    let total = 2 * CHUNK_SIZE + 10;
    let (msgs, state) = collect_chunks((0..total).map(|i| (i % 251) as u8).collect());
    assert_eq!(msgs.len(), 3 + 1);
    for (i, m) in msgs.iter().take(3).enumerate() {
        match m {
            NetMessage::UserData(_, _, _, Chunk::Data(d)) => {
                let expected = if i < 2 { CHUNK_SIZE } else { 10 };
                assert_eq!(d.len(), expected);
                assert_eq!(d[0], ((i * CHUNK_SIZE) % 251) as u8);
            },
            _ => panic!("data chunks come first"),
        }
    }
    assert!(matches!(&msgs[3], NetMessage::UserData(_, _, _, Chunk::End)));
    assert_eq!(state.progress_at(0).state, ProgressState::Completed);
    assert_eq!(state.progress_at(0).total, total as u64);
}

#[test]
fn exact_multiple_has_no_short_chunk() {
    let (msgs, _state) = collect_chunks(vec![1u8; CHUNK_SIZE]);
    assert_eq!(msgs.len(), 2);
    match &msgs[0] {
        NetMessage::UserData(_, _, _, Chunk::Data(d)) => assert_eq!(d.len(), CHUNK_SIZE),
        _ => panic!("one full chunk expected"),
    }
}

#[test]
fn failed_read_ends_the_transfer_with_an_error_chunk() {
    let mut action = SendFile::new("me", "bob", "f.bin", 100).unwrap();
    let mut state = State::new();
    let (message, processing) = action.process(&mut state, FileRead::Failed);
    assert!(matches!(message, NetMessage::UserData(_, _, _, Chunk::Error)));
    assert!(matches!(processing, Processing::Completed));
    // the progress entry is terminal and the failure is reported locally
    assert_eq!(state.progress_at(0).state, ProgressState::Completed);
    assert_eq!(state.message_count(), 1);
    match &state.message_at(0).message_type {
        termchat_wan::state::MessageType::System(text, kind) => {
            assert_eq!(text, "Error sending file");
            assert!(matches!(kind, termchat_wan::state::SystemMessageType::Error));
        },
        _ => panic!("the failure must be reported"),
    }
}
