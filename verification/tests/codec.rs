use termchat_wan::codec::{decode, encode};
use termchat_wan::message::{Chunk, NetMessage};
use termchat_wan::util::ErrorKind;

fn round_trip(m: NetMessage) -> NetMessage {
    let bytes = encode(&m);
    decode(&bytes).expect("an encoded message must decode")
}

#[test]
fn hi_round_trip() {
    match round_trip(NetMessage::Hi("alice".to_string())) {
        NetMessage::Hi(u) => assert_eq!(u, "alice"),
        _ => panic!("wrong variant"),
    }
}

#[test]
fn bye_round_trip() {
    match round_trip(NetMessage::Bye("bob".to_string())) {
        NetMessage::Bye(u) => assert_eq!(u, "bob"),
        _ => panic!("wrong variant"),
    }
}

#[test]
fn heartbeat_round_trip() {
    match round_trip(NetMessage::BBB("carol".to_string())) {
        NetMessage::BBB(u) => assert_eq!(u, "carol"),
        _ => panic!("wrong variant"),
    }
}

#[test]
fn broadcast_round_trip() {
    match round_trip(NetMessage::UserMessage("alice".to_string(), "hello all".to_string())) {
        NetMessage::UserMessage(u, t) => {
            assert_eq!(u, "alice");
            assert_eq!(t, "hello all");
        },
        _ => panic!("wrong variant"),
    }
}

#[test]
fn whisper_round_trip() {
    match round_trip(NetMessage::WhisperMessage(
        "alice".to_string(),
        "bob".to_string(),
        "psst".to_string(),
    )) {
        NetMessage::WhisperMessage(f, t, c) => {
            assert_eq!(f, "alice");
            assert_eq!(t, "bob");
            assert_eq!(c, "psst");
        },
        _ => panic!("wrong variant"),
    }
}

#[test]
fn file_chunk_round_trips() {
    match round_trip(NetMessage::UserData(
        "alice".to_string(),
        "bob".to_string(),
        "notes.txt".to_string(),
        Chunk::Data(vec![0u8, 1, 2, 255]),
    )) {
        NetMessage::UserData(f, t, n, Chunk::Data(d)) => {
            assert_eq!(f, "alice");
            assert_eq!(t, "bob");
            assert_eq!(n, "notes.txt");
            assert_eq!(d, vec![0u8, 1, 2, 255]);
        },
        _ => panic!("wrong variant"),
    }
    match round_trip(NetMessage::UserData(
        "a".to_string(),
        "b".to_string(),
        "n".to_string(),
        Chunk::End,
    )) {
        NetMessage::UserData(_, _, _, Chunk::End) => {},
        _ => panic!("wrong variant"),
    }
    match round_trip(NetMessage::UserData(
        "a".to_string(),
        "b".to_string(),
        "n".to_string(),
        Chunk::Error,
    )) {
        NetMessage::UserData(_, _, _, Chunk::Error) => {},
        _ => panic!("wrong variant"),
    }
}

#[test]
fn non_ascii_round_trip() {
    match round_trip(NetMessage::UserMessage("aliz\u{00e9}".to_string(), "caf\u{00e9} \u{2615}".to_string())) {
        NetMessage::UserMessage(u, t) => {
            assert_eq!(u, "aliz\u{00e9}");
            assert_eq!(t, "caf\u{00e9} \u{2615}");
        },
        _ => panic!("wrong variant"),
    }
}

#[test]
fn exact_bytes_of_hi() {
    // tag 0 as u32 LE, byte length 1 as u64 LE, then the letter.
    let bytes = encode(&NetMessage::Hi("a".to_string()));
    assert_eq!(bytes, vec![0, 0, 0, 0, 1, 0, 0, 0, 0, 0, 0, 0, b'a']);
}

#[test]
fn decode_rejects_malformed_bytes() {
    // too short for a tag
    let e = decode(&vec![1, 2]).unwrap_err();
    assert!(matches!(e.kind, ErrorKind::ProtocolDecode));
    // unknown tag
    assert!(decode(&vec![9, 0, 0, 0]).is_err());
    // length field promising more than the buffer holds
    assert!(decode(&vec![0, 0, 0, 0, 5, 0, 0, 0, 0, 0, 0, 0, b'a']).is_err());
    // trailing garbage after a complete message
    let mut bytes = encode(&NetMessage::Hi("a".to_string()));
    bytes.push(0);
    assert!(decode(&bytes).is_err());
    // a string field that is not UTF-8
    assert!(decode(&vec![0, 0, 0, 0, 1, 0, 0, 0, 0, 0, 0, 0, 0xff]).is_err());
    // empty buffer
    assert!(decode(&Vec::new()).is_err());
}
