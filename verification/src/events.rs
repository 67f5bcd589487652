//! The event vocabulary of the client's cooperative loop: what can arrive
//! on the single inbound queue, and what one turn asks the surrounding
//! runtime to do.

use vstd::prelude::*;

use crate::action::{Heartbeat, SendFile, SendWhisper};
use crate::message::NetMessage;

verus! {

/// A terminal key, reduced to what the session reacts to.
#[derive(Clone, Copy, PartialEq, Eq, Structural, Debug)]
pub enum TermInput {
    Character(char),
    Enter,
    Delete,
    Backspace,
    Left,
    Right,
    Home,
    End,
    Up,
    Down,
    PageUp,
    Esc,
    CtrlC,
    Other,
}

/// A resumable unit of client work, dispatched by variant.
pub enum ActionItem {
    SendFile(SendFile),
    Whisper(SendWhisper),
    Heartbeat(Heartbeat),
}

/// One item of the inbound queue: a decoded network message, a terminal
/// key, an action due to run, or the shutdown signal.
pub enum Event {
    Network(NetMessage),
    Terminal(TermInput),
    Action(ActionItem),
    Close,
}

/// What one turn asks the runtime to do, in order: send a wire message,
/// re-enqueue an action after a delay in microseconds, open a file for a
/// transfer, append received bytes under the sender's directory, ring the
/// bell, or stop the loop.
pub enum Effect {
    Send(NetMessage),
    Schedule(ActionItem, u64),
    OpenFile { from: String, to: String, path: String },
    WriteFile { from: String, file_name: String, data: Vec<u8> },
    Bell,
    Stop,
}

} // verus!
