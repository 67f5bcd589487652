//! The client's decision core: one turn of the cooperative event loop.
//!
//! Each method consumes one queued item — a decoded network message, a
//! terminal key, or an action due to run — mutates the session, and returns
//! the effects the surrounding runtime must perform: wire sends, delayed
//! re-enqueues, file opens and writes, the bell, or stopping the loop. All
//! I/O stays with the caller; everything decided here is verified.

use vstd::prelude::*;
use vstd::string::StrSliceExecFns;
use vstd::string::StringExecFns;

use crate::action::{
    FileRead, Heartbeat, Processing, SendFile, SendWhisper, is_system_entry, progress_seq_registered,
    progress_seq_terminated, progress_seq_updated, registered_id, HEARTBEAT_PERIOD_MICROS,
    HEARTBEAT_START_MICROS, SEND_DELAY_MICROS,
};
use crate::commands::{
    after_last_slash, command_rest, command_token, is_command_line, join_spaces, shell_split,
    file_name_of, CommandManager, CommandRequest,
};
use crate::events::{ActionItem, Effect, TermInput};
use crate::message::{Chunk, ChunkView, MessageView, NetMessage};
use crate::state::{
    ChatMessage, CursorMovement, MessageType, ScrollMovement, State, SystemMessageType,
};

verus! {

/// The two command tokens are distinct words.
proof fn lemma_tokens_differ()
    ensures
        "msg"@ != "send"@,
        "msg"@.len() == 3,
        "send"@.len() == 4,
{
    reveal_strlit("msg");
    reveal_strlit("send");
    assert("msg"@.len() == 3);
    assert("send"@.len() == 4);
}

/// The transcript grew by exactly one entry.
pub open spec fn transcript_extended(t0: Seq<ChatMessage>, t1: Seq<ChatMessage>) -> bool {
    t1.len() == t0.len() + 1 && t1.take(t0.len() as int) =~= t0
}

/// The transcript grew by exactly two entries.
pub open spec fn transcript_extended_two(t0: Seq<ChatMessage>, t1: Seq<ChatMessage>) -> bool {
    t1.len() == t0.len() + 2 && t1.take(t0.len() as int) =~= t0
}

/// A transcript entry attributed to a peer, with the given body.
pub open spec fn peer_entry(m: ChatMessage, user: Seq<char>, mt: MessageType) -> bool {
    m.user@ == user && m.message_type == mt
}

/// The committed line echoed into the transcript as self-authored.
pub open spec fn echo_entry(m: ChatMessage, user: Seq<char>, text: Seq<char>) -> bool {
    &&& m.user@ == user + " (me)"@
    &&& m.message_type matches MessageType::Text(t) && t@ == text
}

/// A system entry of the error flavour, whatever its text.
pub open spec fn some_error_entry(m: ChatMessage) -> bool {
    m.message_type matches MessageType::System(_, k) && k == SystemMessageType::Error
}

/// The transcript text announcing a completed inbound transfer.
pub open spec fn received_file_text(from: Seq<char>, name: Seq<char>) -> Seq<char> {
    "Successfully received file '"@ + name + "' from user '"@ + from + "'!"@
}

/// The transcript text for a peer whose transfer failed midway.
pub open spec fn peer_send_error_text(from: Seq<char>, name: Seq<char>) -> Seq<char> {
    "'"@ + from + "' had an error while sending '"@ + name + "'"@
}

/// What committing the non-empty line `inp` leaves behind: the transcript
/// goes from `t0` to `t1` and the effects are owed as follows. A plain line
/// is echoed and broadcast. A parse failure (quoting, missing arguments,
/// path expansion) is reported and nothing is sent or echoed. A recognized
/// `msg` is echoed and whispers; a recognized `send` is echoed and asks for
/// its file to be opened. A line with the prefix but no known command is
/// echoed and reported.
pub open spec fn commit_ok(
    u: Seq<char>,
    inp: Seq<char>,
    t0: Seq<ChatMessage>,
    t1: Seq<ChatMessage>,
    effects: Seq<Effect>,
) -> bool {
    if !is_command_line(inp) {
        &&& transcript_extended(t0, t1)
        &&& echo_entry(t1.last(), u, inp)
        &&& effects.len() == 1
        &&& effects[0] matches Effect::Send(m) && m@ == MessageView::UserMessage(u, inp)
    } else if command_token(inp) == "send"@ || command_token(inp) == "msg"@ {
        match shell_split(command_rest(inp)) {
            None => {
                &&& transcript_extended(t0, t1)
                &&& is_system_entry(t1.last(), "Mismatched quotes"@, SystemMessageType::Error)
                &&& effects.len() == 0
            },
            Some(ws) => if ws.len() == 0 {
                &&& transcript_extended(t0, t1)
                &&& is_system_entry(t1.last(), "No transfer target"@, SystemMessageType::Error)
                &&& effects.len() == 0
            } else if command_token(inp) == "msg"@ {
                if ws.len() == 1 {
                    &&& transcript_extended(t0, t1)
                    &&& is_system_entry(t1.last(), "Content is blank"@, SystemMessageType::Error)
                    &&& effects.len() == 0
                } else {
                    &&& transcript_extended(t0, t1)
                    &&& echo_entry(t1.last(), u, inp)
                    &&& effects.len() == 1
                    &&& effects[0] matches Effect::Send(m) && m@ == MessageView::WhisperMessage(
                        u,
                        ws[0],
                        join_spaces(ws.skip(1)),
                    )
                }
            } else {
                if ws.len() == 1 {
                    &&& transcript_extended(t0, t1)
                    &&& is_system_entry(t1.last(), "No file specified"@, SystemMessageType::Error)
                    &&& effects.len() == 0
                } else {
                    ||| {
                        &&& transcript_extended(t0, t1)
                        &&& echo_entry(t1.last(), u, inp)
                        &&& effects.len() == 1
                        &&& effects[0] matches Effect::OpenFile { from, to, path: _ } && from@ == u
                            && to@ == ws[0]
                    }
                    ||| {
                        &&& transcript_extended(t0, t1)
                        &&& some_error_entry(t1.last())
                        &&& effects.len() == 0
                    }
                }
            },
        }
    } else {
        &&& transcript_extended_two(t0, t1)
        &&& echo_entry(t1[t0.len() as int], u, inp)
        &&& is_system_entry(t1.last(), "This command doesn't exists"@, SystemMessageType::Error)
        &&& effects.len() == 0
    }
}

/// A queued action that can be run: a file send never carries a blank file.
pub open spec fn item_wf(item: ActionItem) -> bool {
    match item {
        ActionItem::SendFile(sf) => sf.wf(),
        _ => true,
    }
}

/// The client core: the user's name and the session it mutates.
pub struct Client {
    user: String,
    state: State,
}

impl Client {
    /// The session this client owns.
    pub closed spec fn session(self) -> State {
        self.state
    }

    /// This client's user name.
    pub closed spec fn user_view(self) -> Seq<char> {
        self.user@
    }

    pub open spec fn wf(self) -> bool {
        self.session().wf()
    }

    pub fn new(user: String) -> (r: Client)
        ensures
            r.wf(),
            r.user_view() == user@,
            r.session().transcript() == Seq::<ChatMessage>::empty(),
            r.session().input_view() == Seq::<char>::empty(),
            r.session().progress_view() == Seq::<crate::state::ProgressEntry>::empty(),
            r.session().scroll_view() == 0,
            r.session().cursor_view() == 0,
    {
        Client { user, state: State::new() }
    }

    /// Read access to the session, for rendering.
    pub fn state(&self) -> (r: &State)
        ensures
            *r == self.session(),
    {
        &self.state
    }

    /// The user name this client announces itself under.
    pub fn user(&self) -> (r: &String)
        ensures
            r@ == self.user_view(),
    {
        &self.user
    }

    /// The first turn, right after the transport connected: announce the
    /// user and schedule the first heartbeat.
    pub fn on_connect(&mut self) -> (effects: Vec<Effect>)
        requires
            old(self).wf(),
        ensures
            final(self).wf(),
            *final(self) == *old(self),
            effects@.len() == 2,
            effects@[0] matches Effect::Send(m) && m@ == MessageView::Hi(old(self).user_view()),
            effects@[1] matches Effect::Schedule(item, d) && d == HEARTBEAT_START_MICROS && (
            item matches ActionItem::Heartbeat(h) && h.user@ == old(self).user_view()),
    {
        let mut effects: Vec<Effect> = Vec::new();
        effects.push(Effect::Send(NetMessage::Hi(self.user.clone())));
        effects.push(
            Effect::Schedule(
                ActionItem::Heartbeat(Heartbeat::new(self.user.clone())),
                HEARTBEAT_START_MICROS,
            ),
        );
        effects
    }

    /// Appends a system entry of the error flavour to the transcript.
    pub fn report_error(&mut self, text: String)
        requires
            old(self).wf(),
        ensures
            final(self).wf(),
            final(self).user_view() == old(self).user_view(),
            transcript_extended(old(self).session().transcript(), final(self).session().transcript()),
            is_system_entry(
                final(self).session().transcript().last(),
                text@,
                SystemMessageType::Error,
            ),
            final(self).session().input_view() == old(self).session().input_view(),
            final(self).session().cursor_view() == old(self).session().cursor_view(),
            final(self).session().scroll_view() == old(self).session().scroll_view(),
            final(self).session().progress_view() == old(self).session().progress_view(),
    {
        self.state.add_message(
            ChatMessage::new(
                "System".to_owned(),
                MessageType::System(text, SystemMessageType::Error),
            ),
        );
    }

    /// One network turn: reacts to a decoded inbound message.
    ///
    /// Presence and chat from peers (never from this user itself) become
    /// transcript entries with the bell; a whisper is accepted only if
    /// addressed to this user; file chunk data is handed out to be written
    /// under the sender's directory, and the transfer's end or failure is
    /// reported. Heartbeats of peers are ignored.
    pub fn process_network_message(&mut self, message: NetMessage) -> (effects: Vec<Effect>)
        requires
            old(self).wf(),
        ensures
            final(self).wf(),
            final(self).user_view() == old(self).user_view(),
            final(self).session().input_view() == old(self).session().input_view(),
            final(self).session().cursor_view() == old(self).session().cursor_view(),
            final(self).session().scroll_view() == old(self).session().scroll_view(),
            final(self).session().progress_view() == old(self).session().progress_view(),
            match message@ {
                MessageView::BBB(_) => *final(self) == *old(self) && effects@.len() == 0,
                MessageView::Hi(u) => if u != old(self).user_view() {
                    &&& transcript_extended(
                        old(self).session().transcript(),
                        final(self).session().transcript(),
                    )
                    &&& peer_entry(
                        final(self).session().transcript().last(),
                        u,
                        MessageType::Connection,
                    )
                    &&& effects@.len() == 1 && effects@[0] is Bell
                } else {
                    *final(self) == *old(self) && effects@.len() == 0
                },
                MessageView::Bye(u) => if u != old(self).user_view() {
                    &&& transcript_extended(
                        old(self).session().transcript(),
                        final(self).session().transcript(),
                    )
                    &&& peer_entry(
                        final(self).session().transcript().last(),
                        u,
                        MessageType::Disconnection,
                    )
                    &&& effects@.len() == 1 && effects@[0] is Bell
                } else {
                    *final(self) == *old(self) && effects@.len() == 0
                },
                MessageView::UserMessage(u, text) => if u != old(self).user_view() {
                    &&& transcript_extended(
                        old(self).session().transcript(),
                        final(self).session().transcript(),
                    )
                    &&& final(self).session().transcript().last().user@ == u
                    &&& final(self).session().transcript().last().message_type matches
                        MessageType::Text(t) && t@ == text
                    &&& effects@.len() == 1 && effects@[0] is Bell
                } else {
                    *final(self) == *old(self) && effects@.len() == 0
                },
                MessageView::WhisperMessage(f, t, c) => if t == old(self).user_view() {
                    &&& transcript_extended(
                        old(self).session().transcript(),
                        final(self).session().transcript(),
                    )
                    &&& final(self).session().transcript().last().user@ == f
                    &&& final(self).session().transcript().last().message_type matches
                        MessageType::PrivateText(x) && x@ == c
                    &&& effects@.len() == 1 && effects@[0] is Bell
                } else {
                    *final(self) == *old(self) && effects@.len() == 0
                },
                MessageView::UserData(f, _, name, chunk) => match chunk {
                    ChunkView::Data(d) => {
                        &&& *final(self) == *old(self)
                        &&& effects@.len() == 1
                        &&& effects@[0] matches Effect::WriteFile { from, file_name, data }
                            && from@ == f && file_name@ == name && data@ == d
                    },
                    ChunkView::End => {
                        &&& transcript_extended(
                            old(self).session().transcript(),
                            final(self).session().transcript(),
                        )
                        &&& is_system_entry(
                            final(self).session().transcript().last(),
                            received_file_text(f, name),
                            SystemMessageType::Info,
                        )
                        &&& effects@.len() == 1 && effects@[0] is Bell
                    },
                    ChunkView::Error => {
                        &&& transcript_extended(
                            old(self).session().transcript(),
                            final(self).session().transcript(),
                        )
                        &&& is_system_entry(
                            final(self).session().transcript().last(),
                            peer_send_error_text(f, name),
                            SystemMessageType::Error,
                        )
                        &&& effects@.len() == 0
                    },
                },
            },
    {
        let mut effects: Vec<Effect> = Vec::new();
        match message {
            NetMessage::BBB(_) => {},
            NetMessage::Hi(user) => {
                if !(user == self.user) {
                    self.state.add_message(ChatMessage::new(user, MessageType::Connection));
                    effects.push(Effect::Bell);
                }
            },
            NetMessage::Bye(user) => {
                if !(user == self.user) {
                    self.state.add_message(ChatMessage::new(user, MessageType::Disconnection));
                    effects.push(Effect::Bell);
                }
            },
            NetMessage::UserMessage(user, content) => {
                if !(user == self.user) {
                    self.state.add_message(ChatMessage::new(user, MessageType::Text(content)));
                    effects.push(Effect::Bell);
                }
            },
            NetMessage::WhisperMessage(from, to, content) => {
                if to == self.user {
                    self.state.add_message(
                        ChatMessage::new(from, MessageType::PrivateText(content)),
                    );
                    effects.push(Effect::Bell);
                }
            },
            NetMessage::UserData(from, _to, file_name, chunk) => {
                match chunk {
                    Chunk::Data(data) => {
                        effects.push(Effect::WriteFile { from, file_name, data });
                    },
                    Chunk::End => {
                        let text = build_received_file_text(&from, &file_name);
                        self.state.add_message(
                            ChatMessage::new(
                                "System".to_owned(),
                                MessageType::System(text, SystemMessageType::Info),
                            ),
                        );
                        effects.push(Effect::Bell);
                    },
                    Chunk::Error => {
                        let text = build_peer_send_error_text(&from, &file_name);
                        self.state.add_message(
                            ChatMessage::new(
                                "System".to_owned(),
                                MessageType::System(text, SystemMessageType::Error),
                            ),
                        );
                    },
                }
            },
        }
        effects
    }

    /// One terminal turn: navigation and editing mutate the session;
    /// `Enter` commits the input line (see `commit_ok`); escape and the
    /// interrupt key stop the loop.
    pub fn process_terminal_event(&mut self, ev: TermInput) -> (effects: Vec<Effect>)
        requires
            old(self).wf(),
        ensures
            final(self).wf(),
            final(self).user_view() == old(self).user_view(),
            match ev {
                TermInput::Character(c) => {
                    &&& final(self).session().input_view() == old(
                        self,
                    ).session().input_view().insert(old(self).session().cursor_view(), c)
                    &&& final(self).session().cursor_view() == old(self).session().cursor_view()
                        + 1
                    &&& final(self).session().transcript() == old(self).session().transcript()
                    &&& final(self).session().scroll_view() == old(self).session().scroll_view()
                    &&& final(self).session().progress_view() == old(
                        self,
                    ).session().progress_view()
                    &&& effects@.len() == 0
                },
                TermInput::Esc | TermInput::CtrlC => {
                    &&& *final(self) == *old(self)
                    &&& effects@.len() == 1 && effects@[0] is Stop
                },
                TermInput::Enter => {
                    &&& final(self).session().input_view() == Seq::<char>::empty()
                    &&& final(self).session().cursor_view() == 0
                    &&& final(self).session().scroll_view() == old(self).session().scroll_view()
                    &&& final(self).session().progress_view() == old(
                        self,
                    ).session().progress_view()
                    &&& if old(self).session().input_view().len() == 0 {
                        *final(self) == *old(self) && effects@.len() == 0
                    } else {
                        commit_ok(
                            old(self).user_view(),
                            old(self).session().input_view(),
                            old(self).session().transcript(),
                            final(self).session().transcript(),
                            effects@,
                        )
                    }
                },
                _ => {
                    &&& final(self).session().transcript() == old(self).session().transcript()
                    &&& final(self).session().progress_view() == old(
                        self,
                    ).session().progress_view()
                    &&& effects@.len() == 0
                },
            },
    {
        let mut effects: Vec<Effect> = Vec::new();
        match ev {
            TermInput::Character(c) => {
                self.state.input_write(c);
            },
            TermInput::Esc => {
                effects.push(Effect::Stop);
            },
            TermInput::CtrlC => {
                effects.push(Effect::Stop);
            },
            TermInput::Delete => {
                self.state.input_remove();
            },
            TermInput::Backspace => {
                self.state.input_remove_previous();
            },
            TermInput::Left => {
                self.state.input_move_cursor(CursorMovement::Left);
            },
            TermInput::Right => {
                self.state.input_move_cursor(CursorMovement::Right);
            },
            TermInput::Home => {
                self.state.input_move_cursor(CursorMovement::Start);
            },
            TermInput::End => {
                self.state.input_move_cursor(CursorMovement::End);
            },
            TermInput::Up => {
                self.state.messages_scroll(ScrollMovement::Up);
            },
            TermInput::Down => {
                self.state.messages_scroll(ScrollMovement::Down);
            },
            TermInput::PageUp => {
                self.state.messages_scroll(ScrollMovement::Start);
            },
            TermInput::Other => {},
            TermInput::Enter => {
                match self.state.reset_input() {
                    None => {},
                    Some(input) => {
                        effects = self.commit_line(input);
                    },
                }
            },
        }
        effects
    }

    /// Commits one non-empty line: command parse first, then dispatch, per
    /// `commit_ok`. The input line itself was already taken and cleared.
    #[verifier::rlimit(60)]
    fn commit_line(&mut self, input: String) -> (effects: Vec<Effect>)
        requires
            old(self).wf(),
            input@.len() > 0,
        ensures
            final(self).wf(),
            final(self).user_view() == old(self).user_view(),
            final(self).session().input_view() == old(self).session().input_view(),
            final(self).session().cursor_view() == old(self).session().cursor_view(),
            final(self).session().scroll_view() == old(self).session().scroll_view(),
            final(self).session().progress_view() == old(self).session().progress_view(),
            commit_ok(
                old(self).user_view(),
                input@,
                old(self).session().transcript(),
                final(self).session().transcript(),
                effects@,
            ),
    {
        let ghost self0 = *self;
        let mut effects: Vec<Effect> = Vec::new();
        let manager = CommandManager::new();
        let found = manager.find_command_action(input.as_str(), self.user.as_str());
        match found {
            Some(Err(e)) => {
                self.report_error(e.text);
                proof {
                    lemma_tokens_differ();
                    assert(effects@.len() == 0);
                    assert(commit_ok(
                        self0.user_view(),
                        input@,
                        self0.session().transcript(),
                        self.session().transcript(),
                        effects@,
                    ));
                }
            },
            Some(Ok(request)) => {
                self.add_echo(&input);
                match request {
                    CommandRequest::Whisper(w) => {
                        let (message, _processing) = w.process();
                        effects.push(Effect::Send(message));
                        proof {
                            lemma_tokens_differ();
                            assert(effects@.len() == 1);
                            assert(effects@[0] is Send);
                            assert(commit_ok(
                                self0.user_view(),
                                input@,
                                self0.session().transcript(),
                                self.session().transcript(),
                                effects@,
                            ));
                        }
                    },
                    CommandRequest::OpenFile { from, to, path } => {
                        effects.push(Effect::OpenFile { from, to, path });
                        proof {
                            lemma_tokens_differ();
                            assert(effects@.len() == 1);
                            assert(effects@[0] is OpenFile);
                            assert(commit_ok(
                                self0.user_view(),
                                input@,
                                self0.session().transcript(),
                                self.session().transcript(),
                                effects@,
                            ));
                        }
                    },
                }
            },
            None => {
                self.add_echo(&input);
                if input.as_str().get_char(0) == '?' {
                    self.report_error("This command doesn't exists".to_owned());
                    proof {
                        lemma_tokens_differ();
                        assert(commit_ok(
                            self0.user_view(),
                            input@,
                            self0.session().transcript(),
                            self.session().transcript(),
                            effects@,
                        ));
                    }
                } else {
                    effects.push(
                        Effect::Send(NetMessage::UserMessage(self.user.clone(), input)),
                    );
                    proof {
                        lemma_tokens_differ();
                        assert(commit_ok(
                            self0.user_view(),
                            input@,
                            self0.session().transcript(),
                            self.session().transcript(),
                            effects@,
                        ));
                    }
                }
            },
        }
        effects
    }

    /// Echoes a committed line into the transcript as self-authored.
    fn add_echo(&mut self, input: &String)
        requires
            old(self).wf(),
        ensures
            final(self).wf(),
            final(self).user_view() == old(self).user_view(),
            transcript_extended(old(self).session().transcript(), final(self).session().transcript()),
            echo_entry(
                final(self).session().transcript().last(),
                old(self).user_view(),
                input@,
            ),
            final(self).session().input_view() == old(self).session().input_view(),
            final(self).session().cursor_view() == old(self).session().cursor_view(),
            final(self).session().scroll_view() == old(self).session().scroll_view(),
            final(self).session().progress_view() == old(self).session().progress_view(),
    {
        let mut me = self.user.clone();
        me.append(" (me)");
        self.state.add_message(ChatMessage::new(me, MessageType::Text(input.clone())));
    }

    /// One action turn: runs a due action. A whisper sends and is spent; a
    /// heartbeat sends and reschedules itself one period out; a file send
    /// turns the caller's read into one chunk (see `SendFile::process`) and
    /// reschedules itself until the terminal chunk.
    pub fn process_action(&mut self, item: ActionItem, read: FileRead<'_>) -> (effects: Vec<
        Effect,
    >)
        requires
            old(self).wf(),
            item_wf(item),
        ensures
            final(self).wf(),
            final(self).user_view() == old(self).user_view(),
            final(self).session().input_view() == old(self).session().input_view(),
            final(self).session().cursor_view() == old(self).session().cursor_view(),
            final(self).session().scroll_view() == old(self).session().scroll_view(),
            match item {
                ActionItem::Whisper(w) => {
                    &&& *final(self) == *old(self)
                    &&& effects@.len() == 1
                    &&& effects@[0] matches Effect::Send(m) && m@ == MessageView::WhisperMessage(
                        w.from@,
                        w.to@,
                        w.content@,
                    )
                },
                ActionItem::Heartbeat(h) => {
                    &&& *final(self) == *old(self)
                    &&& effects@.len() == 2
                    &&& effects@[0] matches Effect::Send(m) && m@ == MessageView::BBB(h.user@)
                    &&& effects@[1] matches Effect::Schedule(next, d) && d
                        == HEARTBEAT_PERIOD_MICROS && (next matches ActionItem::Heartbeat(h2)
                        && h2.user@ == h.user@)
                },
                ActionItem::SendFile(sf) => {
                    &&& match read {
                        FileRead::Data(d) => {
                            &&& final(self).session().transcript() == old(
                                self,
                            ).session().transcript()
                            &&& final(self).session().progress_view() == progress_seq_updated(
                                progress_seq_registered(sf, old(self).session()),
                                registered_id(sf, old(self).session()),
                                d@.len() as u64,
                            )
                            &&& (d@.len() > 0 ==> {
                                &&& effects@.len() == 2
                                &&& effects@[0] matches Effect::Send(m) && m@
                                    == MessageView::UserData(
                                    sf.from@,
                                    sf.to@,
                                    sf.file_name@,
                                    ChunkView::Data(d@),
                                )
                                &&& effects@[1] matches Effect::Schedule(next, delay) && delay
                                    == SEND_DELAY_MICROS && (
                                next matches ActionItem::SendFile(sf2) && sf2.from@ == sf.from@
                                    && sf2.to@ == sf.to@ && sf2.file_name@ == sf.file_name@
                                    && sf2.file_size == sf.file_size && sf2.wf() && (
                                sf2.progress_id matches Some(id) && id as int == registered_id(
                                    sf,
                                    old(self).session(),
                                )))
                            })
                            &&& (d@.len() == 0 ==> effects@.len() == 1 && (
                            effects@[0] matches Effect::Send(m) && m@ == MessageView::UserData(
                                sf.from@,
                                sf.to@,
                                sf.file_name@,
                                ChunkView::End,
                            )))
                        },
                        FileRead::Failed => {
                            &&& transcript_extended(
                                old(self).session().transcript(),
                                final(self).session().transcript(),
                            )
                            &&& some_error_entry(final(self).session().transcript().last())
                            &&& final(self).session().progress_view() == progress_seq_terminated(
                                progress_seq_registered(sf, old(self).session()),
                                registered_id(sf, old(self).session()),
                            )
                            &&& effects@.len() == 1
                            &&& effects@[0] matches Effect::Send(m) && m@
                                == MessageView::UserData(
                                sf.from@,
                                sf.to@,
                                sf.file_name@,
                                ChunkView::Error,
                            )
                        },
                    }
                },
            },
    {
        let mut effects: Vec<Effect> = Vec::new();
        match item {
            ActionItem::Whisper(w) => {
                let (message, _processing) = w.process();
                effects.push(Effect::Send(message));
            },
            ActionItem::Heartbeat(h) => {
                let (message, _processing) = h.process();
                effects.push(Effect::Send(message));
                effects.push(
                    Effect::Schedule(ActionItem::Heartbeat(h), HEARTBEAT_PERIOD_MICROS),
                );
            },
            ActionItem::SendFile(sf) => {
                let mut sf = sf;
                let (message, processing) = sf.process(&mut self.state, read);
                effects.push(Effect::Send(message));
                match processing {
                    Processing::Partial(delay) => {
                        effects.push(Effect::Schedule(ActionItem::SendFile(sf), delay));
                    },
                    Processing::Completed => {},
                }
            },
        }
        effects
    }

    /// The continuation of a `send` command, once the caller has tried to
    /// open the file: builds and schedules the transfer, or reports why
    /// none starts. A path without a usable file name, a file that could
    /// not be opened, and a zero-length file each yield one error entry and
    /// no transfer.
    pub fn file_opened(&mut self, from: String, to: String, path: &str, size: Option<u64>) -> (effects:
        Vec<Effect>)
        requires
            old(self).wf(),
        ensures
            final(self).wf(),
            final(self).user_view() == old(self).user_view(),
            final(self).session().input_view() == old(self).session().input_view(),
            final(self).session().cursor_view() == old(self).session().cursor_view(),
            final(self).session().scroll_view() == old(self).session().scroll_view(),
            final(self).session().progress_view() == old(self).session().progress_view(),
            if after_last_slash(path@).len() == 0 || after_last_slash(path@) == ".."@ {
                &&& transcript_extended(
                    old(self).session().transcript(),
                    final(self).session().transcript(),
                )
                &&& is_system_entry(
                    final(self).session().transcript().last(),
                    "Unable to read file name"@,
                    SystemMessageType::Error,
                )
                &&& effects@.len() == 0
            } else {
                match size {
                    None => {
                        &&& transcript_extended(
                            old(self).session().transcript(),
                            final(self).session().transcript(),
                        )
                        &&& is_system_entry(
                            final(self).session().transcript().last(),
                            "Unable to access file"@,
                            SystemMessageType::Error,
                        )
                        &&& effects@.len() == 0
                    },
                    Some(n) => if n == 0 {
                        &&& transcript_extended(
                            old(self).session().transcript(),
                            final(self).session().transcript(),
                        )
                        &&& is_system_entry(
                            final(self).session().transcript().last(),
                            "Don't send blank file"@,
                            SystemMessageType::Error,
                        )
                        &&& effects@.len() == 0
                    } else {
                        &&& final(self).session().transcript() == old(self).session().transcript()
                        &&& effects@.len() == 1
                        &&& effects@[0] matches Effect::Schedule(item, d) && d == 0 && (
                        item matches ActionItem::SendFile(sf) && sf.from@ == from@ && sf.to@
                            == to@ && sf.file_name@ == after_last_slash(path@) && sf.file_size
                            == n && sf.progress_id is None && sf.wf())
                    },
                }
            },
    {
        let mut effects: Vec<Effect> = Vec::new();
        match file_name_of(path) {
            None => {
                self.report_error("Unable to read file name".to_owned());
            },
            Some(name) => {
                match size {
                    None => {
                        self.report_error("Unable to access file".to_owned());
                    },
                    Some(n) => {
                        match SendFile::new(from.as_str(), to.as_str(), name.as_str(), n) {
                            Err(e) => {
                                self.report_error(e.text);
                            },
                            Ok(sf) => {
                                effects.push(Effect::Schedule(ActionItem::SendFile(sf), 0));
                            },
                        }
                    },
                }
            },
        }
        effects
    }
}

/// Builds the completed-transfer announcement.
fn build_received_file_text(from: &String, name: &String) -> (r: String)
    ensures
        r@ == received_file_text(from@, name@),
{
    let mut s = String::from_str("Successfully received file '");
    s.append(name.as_str());
    s.append("' from user '");
    s.append(from.as_str());
    s.append("'!");
    s
}

/// Builds the failed-transfer report.
fn build_peer_send_error_text(from: &String, name: &String) -> (r: String)
    ensures
        r@ == peer_send_error_text(from@, name@),
{
    let mut s = String::from_str("'");
    s.append(from.as_str());
    s.append("' had an error while sending '");
    s.append(name.as_str());
    s.append("'");
    s
}

} // verus!
