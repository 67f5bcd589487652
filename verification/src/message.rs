//! The wire message union exchanged between clients and the relay server,
//! together with its mathematical model (`MessageView`, `ChunkView`), which
//! the codec and the router contracts speak of.

use vstd::prelude::*;

verus! {

/// One fragment of a segmented file transfer: payload bytes, the terminal
/// end marker, or the terminal error marker.
#[derive(Debug)]
pub enum Chunk {
    Data(Vec<u8>),
    Error,
    End,
}

/// The message union of the protocol.
///
/// `Hi` announces a user, `Bye` leaves, `BBB` is the periodic liveness
/// heartbeat, `UserMessage` is broadcast chat, `WhisperMessage` is a private
/// message and `UserData` carries one file chunk.
#[derive(Debug)]
pub enum NetMessage {
    Hi(String),
    Bye(String),
    BBB(String),
    UserMessage(String, String),
    WhisperMessage(String, String, String),
    UserData(String, String, String, Chunk),
}

/// The model of a `Chunk`: the same shape over `Seq<u8>`.
pub enum ChunkView {
    Data(Seq<u8>),
    Error,
    End,
}

/// The model of a `NetMessage`: the same shape over `Seq<char>`.
pub enum MessageView {
    Hi(Seq<char>),
    Bye(Seq<char>),
    BBB(Seq<char>),
    UserMessage(Seq<char>, Seq<char>),
    WhisperMessage(Seq<char>, Seq<char>, Seq<char>),
    UserData(Seq<char>, Seq<char>, Seq<char>, ChunkView),
}

impl View for Chunk {
    type V = ChunkView;

    open spec fn view(&self) -> ChunkView {
        match self {
            Chunk::Data(d) => ChunkView::Data(d@),
            Chunk::Error => ChunkView::Error,
            Chunk::End => ChunkView::End,
        }
    }
}

impl View for NetMessage {
    type V = MessageView;

    open spec fn view(&self) -> MessageView {
        match self {
            NetMessage::Hi(u) => MessageView::Hi(u@),
            NetMessage::Bye(u) => MessageView::Bye(u@),
            NetMessage::BBB(u) => MessageView::BBB(u@),
            NetMessage::UserMessage(u, t) => MessageView::UserMessage(u@, t@),
            NetMessage::WhisperMessage(f, t, c) => MessageView::WhisperMessage(f@, t@, c@),
            NetMessage::UserData(f, t, n, c) => MessageView::UserData(f@, t@, n@, c@),
        }
    }
}

impl MessageView {
    /// Broadcast-class messages fan out to every known endpoint; the rest
    /// (whisper, file chunk) are targeted at exactly one user.
    pub open spec fn is_broadcast_class(self) -> bool {
        match self {
            MessageView::Hi(_) => true,
            MessageView::Bye(_) => true,
            MessageView::BBB(_) => true,
            MessageView::UserMessage(_, _) => true,
            MessageView::WhisperMessage(_, _, _) => false,
            MessageView::UserData(_, _, _, _) => false,
        }
    }

    /// The addressee of a targeted-class message.
    pub open spec fn target_user(self) -> Seq<char>
        recommends
            !self.is_broadcast_class(),
    {
        match self {
            MessageView::WhisperMessage(_, to, _) => to,
            MessageView::UserData(_, to, _, _) => to,
            _ => Seq::empty(),
        }
    }
}

} // verus!
