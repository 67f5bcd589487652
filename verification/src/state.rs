//! Client-side session state: the append-only transcript, the bounded
//! scroll offset, the input line with its cursor, and the transfer-progress
//! entries. Pure mutation surface: no I/O happens here.

use vstd::prelude::*;

verus! {

/// How one transcript entry is displayed.
#[derive(Clone, Copy, PartialEq, Eq, Structural, Debug)]
pub enum SystemMessageType {
    Info,
    Warning,
    Error,
}

/// The body of one transcript entry.
pub enum MessageType {
    /// A peer announced itself.
    Connection,
    /// A peer left.
    Disconnection,
    /// Broadcast chat text.
    Text(String),
    /// A whisper addressed to this client.
    PrivateText(String),
    /// A local system entry: info, warning or error.
    System(String, SystemMessageType),
}

/// One transcript entry: who it is attributed to and its body.
pub struct ChatMessage {
    pub user: String,
    pub message_type: MessageType,
}

impl ChatMessage {
    pub fn new(user: String, message_type: MessageType) -> (r: ChatMessage)
        ensures
            r.user@ == user@,
            r.message_type == message_type,
    {
        ChatMessage { user, message_type }
    }
}

/// Where a transfer stands: freshly registered, partway (total, current),
/// or terminal.
#[derive(Clone, Copy, PartialEq, Eq, Structural, Debug)]
pub enum ProgressState {
    Started,
    Working(u64, u64),
    Completed,
}

/// One transfer-progress entry: a label, the total byte count, and the
/// current state. Created when a chunked send starts, updated per chunk,
/// terminal on the end or error marker.
pub struct ProgressEntry {
    pub label: String,
    pub total: u64,
    pub state: ProgressState,
}

/// Cursor movement inside the input line.
#[derive(Clone, Copy, PartialEq, Eq, Structural, Debug)]
pub enum CursorMovement {
    Left,
    Right,
    Start,
    End,
}

/// Scroll movement over the transcript view.
#[derive(Clone, Copy, PartialEq, Eq, Structural, Debug)]
pub enum ScrollMovement {
    Up,
    Down,
    Start,
}

/// A progress entry is internally consistent: a partway state repeats the
/// entry's total and has sent strictly less than it.
pub open spec fn progress_entry_ok(e: ProgressEntry) -> bool {
    match e.state {
        ProgressState::Working(t, c) => t == e.total && c < t,
        _ => true,
    }
}

/// One step of a progress entry's state under a delta of freshly sent
/// bytes. A terminal entry stays terminal, so a duplicated end marker can
/// never double-count completion.
pub open spec fn progress_step(state: ProgressState, total: u64, delta: u64) -> ProgressState {
    match state {
        ProgressState::Started => if delta >= total {
            ProgressState::Completed
        } else {
            ProgressState::Working(total, delta)
        },
        ProgressState::Working(t, c) => if delta >= t - c {
            ProgressState::Completed
        } else {
            ProgressState::Working(t, (c + delta) as u64)
        },
        ProgressState::Completed => ProgressState::Completed,
    }
}

/// The client session: transcript, scroll offset, input line and cursor,
/// and the progress entries, keyed by the order of their creation.
pub struct State {
    messages: Vec<ChatMessage>,
    scroll: usize,
    input: Vec<char>,
    cursor: usize,
    progress: Vec<ProgressEntry>,
}

impl State {
    /// The transcript, oldest entry first.
    pub closed spec fn transcript(self) -> Seq<ChatMessage> {
        self.messages@
    }

    /// The input line as typed so far.
    pub closed spec fn input_view(self) -> Seq<char> {
        self.input@
    }

    /// The cursor: an index into the input line, possibly one past its end.
    pub closed spec fn cursor_view(self) -> int {
        self.cursor as int
    }

    /// The scroll offset: the index of the first transcript line shown.
    pub closed spec fn scroll_view(self) -> int {
        self.scroll as int
    }

    /// The progress entries; the id of an entry is its index here.
    pub closed spec fn progress_view(self) -> Seq<ProgressEntry> {
        self.progress@
    }

    /// Internal consistency: the cursor sits inside the input line and the
    /// scroll offset inside the transcript. Every constructor establishes
    /// it and every method preserves it.
    pub closed spec fn wf(self) -> bool {
        &&& self.cursor <= self.input@.len()
        &&& self.scroll <= self.messages@.len()
        &&& forall|i: int|
            0 <= i < self.progress@.len() ==> #[trigger] progress_entry_ok(self.progress@[i])
    }

    pub fn new() -> (r: State)
        ensures
            r.wf(),
            r.transcript() == Seq::<ChatMessage>::empty(),
            r.input_view() == Seq::<char>::empty(),
            r.cursor_view() == 0,
            r.scroll_view() == 0,
            r.progress_view() == Seq::<ProgressEntry>::empty(),
    {
        State { messages: Vec::new(), scroll: 0, input: Vec::new(), cursor: 0, progress: Vec::new() }
    }

    /// Appends one entry to the transcript; nothing else moves.
    pub fn add_message(&mut self, message: ChatMessage)
        requires
            old(self).wf(),
        ensures
            final(self).wf(),
            final(self).transcript() == old(self).transcript().push(message),
            final(self).input_view() == old(self).input_view(),
            final(self).cursor_view() == old(self).cursor_view(),
            final(self).scroll_view() == old(self).scroll_view(),
            final(self).progress_view() == old(self).progress_view(),
    {
        self.messages.push(message);
    }

    /// Registers a transfer and returns its id: entries are numbered in
    /// creation order.
    pub fn add_progress_message(&mut self, label: &String, total: u64) -> (id: usize)
        requires
            old(self).wf(),
        ensures
            final(self).wf(),
            id == old(self).progress_view().len(),
            final(self).progress_view() == old(self).progress_view().push(
                (ProgressEntry { label: *label, total, state: ProgressState::Started }),
            ),
            final(self).progress_view()[id as int].label@ == label@,
            final(self).progress_view()[id as int].total == total,
            final(self).progress_view()[id as int].state == ProgressState::Started,
            final(self).transcript() == old(self).transcript(),
            final(self).input_view() == old(self).input_view(),
            final(self).cursor_view() == old(self).cursor_view(),
            final(self).scroll_view() == old(self).scroll_view(),
    {
        let id = self.progress.len();
        let entry = ProgressEntry { label: label.clone(), total, state: ProgressState::Started };
        proof {
            assert(entry.label@ == label@);
            assert(entry == (ProgressEntry { label: *label, total, state: ProgressState::Started }));
        }
        self.progress.push(entry);
        id
    }

    /// Advances the entry `id` by `delta` freshly sent bytes, per
    /// `progress_step`; an unknown id changes nothing, a terminal entry
    /// stays terminal.
    pub fn progress_message_update(&mut self, id: usize, delta: u64)
        requires
            old(self).wf(),
        ensures
            final(self).wf(),
            id < old(self).progress_view().len() ==> {
                &&& final(self).progress_view() == old(self).progress_view().update(
                    id as int,
                    (ProgressEntry {
                        state: progress_step(
                            old(self).progress_view()[id as int].state,
                            old(self).progress_view()[id as int].total,
                            delta,
                        ),
                        ..old(self).progress_view()[id as int]
                    }),
                )
            },
            id >= old(self).progress_view().len() ==> final(self).progress_view() == old(
                self,
            ).progress_view(),
            final(self).transcript() == old(self).transcript(),
            final(self).input_view() == old(self).input_view(),
            final(self).cursor_view() == old(self).cursor_view(),
            final(self).scroll_view() == old(self).scroll_view(),
    {
        if id < self.progress.len() {
            proof {
                assert(progress_entry_ok(self.progress@[id as int]));
            }
            let total = self.progress[id].total;
            let next = match self.progress[id].state {
                ProgressState::Started => if delta >= total {
                    ProgressState::Completed
                } else {
                    ProgressState::Working(total, delta)
                },
                ProgressState::Working(t, c) => if delta >= t - c {
                    ProgressState::Completed
                } else {
                    ProgressState::Working(t, c + delta)
                },
                ProgressState::Completed => ProgressState::Completed,
            };
            let label = self.progress[id].label.clone();
            let entry = ProgressEntry { label, total, state: next };
            proof {
                assert(entry == (ProgressEntry {
                    state: progress_step(
                        self.progress@[id as int].state,
                        self.progress@[id as int].total,
                        delta,
                    ),
                    ..self.progress@[id as int]
                }));
            }
            self.progress.set(id, entry);
            proof {
                assert forall|i: int|
                    0 <= i < self.progress@.len() implies #[trigger] progress_entry_ok(
                    self.progress@[i],
                ) by {
                    if i != id as int {
                        assert(progress_entry_ok(old(self).progress_view()[i]));
                    }
                }
            }
        }
    }

    /// Marks the entry `id` terminal, whatever it held; an unknown id
    /// changes nothing.
    pub fn progress_message_terminate(&mut self, id: usize)
        requires
            old(self).wf(),
        ensures
            final(self).wf(),
            id < old(self).progress_view().len() ==> final(self).progress_view() == old(
                self,
            ).progress_view().update(
                id as int,
                (ProgressEntry { state: ProgressState::Completed, ..old(self).progress_view()[id as int] }),
            ),
            id >= old(self).progress_view().len() ==> final(self).progress_view() == old(
                self,
            ).progress_view(),
            final(self).transcript() == old(self).transcript(),
            final(self).input_view() == old(self).input_view(),
            final(self).cursor_view() == old(self).cursor_view(),
            final(self).scroll_view() == old(self).scroll_view(),
    {
        if id < self.progress.len() {
            let total = self.progress[id].total;
            let label = self.progress[id].label.clone();
            let entry = ProgressEntry { label, total, state: ProgressState::Completed };
            proof {
                assert(entry == (ProgressEntry {
                    state: ProgressState::Completed,
                    ..self.progress@[id as int]
                }));
            }
            self.progress.set(id, entry);
        }
    }

    /// Inserts a character at the cursor and moves the cursor past it.
    pub fn input_write(&mut self, character: char)
        requires
            old(self).wf(),
        ensures
            final(self).wf(),
            final(self).input_view() == old(self).input_view().insert(
                old(self).cursor_view(),
                character,
            ),
            final(self).cursor_view() == old(self).cursor_view() + 1,
            final(self).transcript() == old(self).transcript(),
            final(self).scroll_view() == old(self).scroll_view(),
            final(self).progress_view() == old(self).progress_view(),
    {
        self.input.insert(self.cursor, character);
        let n = self.input.len();
        self.cursor = self.cursor + 1;
    }

    /// Removes the character under the cursor, if any; the cursor stays.
    pub fn input_remove(&mut self)
        requires
            old(self).wf(),
        ensures
            final(self).wf(),
            old(self).cursor_view() < old(self).input_view().len() ==> final(self).input_view()
                == old(self).input_view().remove(old(self).cursor_view()),
            old(self).cursor_view() >= old(self).input_view().len() ==> final(self).input_view()
                == old(self).input_view(),
            final(self).cursor_view() == old(self).cursor_view(),
            final(self).transcript() == old(self).transcript(),
            final(self).scroll_view() == old(self).scroll_view(),
            final(self).progress_view() == old(self).progress_view(),
    {
        if self.cursor < self.input.len() {
            self.input.remove(self.cursor);
        }
    }

    /// Removes the character before the cursor, if any, and moves the
    /// cursor back over it.
    pub fn input_remove_previous(&mut self)
        requires
            old(self).wf(),
        ensures
            final(self).wf(),
            old(self).cursor_view() > 0 ==> {
                &&& final(self).input_view() == old(self).input_view().remove(
                    old(self).cursor_view() - 1,
                )
                &&& final(self).cursor_view() == old(self).cursor_view() - 1
            },
            old(self).cursor_view() == 0 ==> {
                &&& final(self).input_view() == old(self).input_view()
                &&& final(self).cursor_view() == 0
            },
            final(self).transcript() == old(self).transcript(),
            final(self).scroll_view() == old(self).scroll_view(),
            final(self).progress_view() == old(self).progress_view(),
    {
        if self.cursor > 0 {
            self.cursor = self.cursor - 1;
            self.input.remove(self.cursor);
        }
    }

    /// Moves the cursor one place or to an end of the line.
    pub fn input_move_cursor(&mut self, movement: CursorMovement)
        requires
            old(self).wf(),
        ensures
            final(self).wf(),
            final(self).cursor_view() == match movement {
                CursorMovement::Left => if old(self).cursor_view() > 0 {
                    old(self).cursor_view() - 1
                } else {
                    0
                },
                CursorMovement::Right => if old(self).cursor_view() < old(
                    self,
                ).input_view().len() {
                    old(self).cursor_view() + 1
                } else {
                    old(self).cursor_view()
                },
                CursorMovement::Start => 0,
                CursorMovement::End => old(self).input_view().len() as int,
            },
            final(self).input_view() == old(self).input_view(),
            final(self).transcript() == old(self).transcript(),
            final(self).scroll_view() == old(self).scroll_view(),
            final(self).progress_view() == old(self).progress_view(),
    {
        match movement {
            CursorMovement::Left => {
                if self.cursor > 0 {
                    self.cursor = self.cursor - 1;
                }
            },
            CursorMovement::Right => {
                if self.cursor < self.input.len() {
                    self.cursor = self.cursor + 1;
                }
            },
            CursorMovement::Start => {
                self.cursor = 0;
            },
            CursorMovement::End => {
                self.cursor = self.input.len();
            },
        }
    }

    /// Moves the scroll offset one line or back to the top, never past the
    /// end of the transcript.
    pub fn messages_scroll(&mut self, movement: ScrollMovement)
        requires
            old(self).wf(),
        ensures
            final(self).wf(),
            final(self).scroll_view() == match movement {
                ScrollMovement::Up => if old(self).scroll_view() > 0 {
                    old(self).scroll_view() - 1
                } else {
                    0
                },
                ScrollMovement::Down => if old(self).scroll_view() < old(
                    self,
                ).transcript().len() {
                    old(self).scroll_view() + 1
                } else {
                    old(self).scroll_view()
                },
                ScrollMovement::Start => 0,
            },
            final(self).transcript() == old(self).transcript(),
            final(self).input_view() == old(self).input_view(),
            final(self).cursor_view() == old(self).cursor_view(),
            final(self).progress_view() == old(self).progress_view(),
    {
        match movement {
            ScrollMovement::Up => {
                if self.scroll > 0 {
                    self.scroll = self.scroll - 1;
                }
            },
            ScrollMovement::Down => {
                if self.scroll < self.messages.len() {
                    self.scroll = self.scroll + 1;
                }
            },
            ScrollMovement::Start => {
                self.scroll = 0;
            },
        }
    }

    /// Commits the input line: a non-empty line is returned as text and the
    /// line and cursor are cleared; an empty line yields nothing.
    pub fn reset_input(&mut self) -> (r: Option<String>)
        requires
            old(self).wf(),
        ensures
            final(self).wf(),
            final(self).input_view() == Seq::<char>::empty(),
            final(self).cursor_view() == 0,
            old(self).input_view().len() == 0 ==> r is None && *final(self) == *old(self),
            old(self).input_view().len() > 0 ==> {
                &&& r matches Some(s) && s@ == old(self).input_view()
                &&& final(self).input_view() == Seq::<char>::empty()
                &&& final(self).cursor_view() == 0
            },
            final(self).transcript() == old(self).transcript(),
            final(self).scroll_view() == old(self).scroll_view(),
            final(self).progress_view() == old(self).progress_view(),
    {
        if self.input.len() == 0 {
            return None;
        }
        let mut text = String::new();
        let mut i: usize = 0;
        while i < self.input.len()
            invariant
                i <= self.input@.len(),
                text@ == self.input@.take(i as int),
            decreases self.input@.len() - i,
        {
            string_push(&mut text, self.input[i]);
            proof {
                assert(self.input@.take(i + 1 as int) =~= self.input@.take(i as int).push(
                    self.input@[i as int],
                ));
            }
            i = i + 1;
        }
        proof {
            assert(self.input@.take(self.input@.len() as int) =~= self.input@);
        }
        self.input = Vec::new();
        self.cursor = 0;
        Some(text)
    }

    /// How many entries the transcript holds.
    pub fn message_count(&self) -> (r: usize)
        ensures
            r == self.transcript().len(),
    {
        self.messages.len()
    }

    /// The transcript entry at `i`, oldest first.
    pub fn message_at(&self, i: usize) -> (r: &ChatMessage)
        requires
            i < self.transcript().len(),
        ensures
            *r == self.transcript()[i as int],
    {
        &self.messages[i]
    }

    /// How many progress entries exist.
    pub fn progress_count(&self) -> (r: usize)
        ensures
            r == self.progress_view().len(),
    {
        self.progress.len()
    }

    /// The progress entry with id `i`.
    pub fn progress_at(&self, i: usize) -> (r: &ProgressEntry)
        requires
            i < self.progress_view().len(),
        ensures
            *r == self.progress_view()[i as int],
    {
        &self.progress[i]
    }

    /// The current scroll offset.
    pub fn scroll_messages_view(&self) -> (r: usize)
        ensures
            r == self.scroll_view(),
    {
        self.scroll
    }

    /// The input line as typed so far.
    pub fn input(&self) -> (r: &Vec<char>)
        ensures
            r@ == self.input_view(),
    {
        &self.input
    }

    /// The cursor's index in the input line.
    pub fn input_cursor(&self) -> (r: usize)
        ensures
            r == self.cursor_view(),
    {
        self.cursor
    }
}

/// Relies on `String::push`: appends the given character to the end of the
/// string.
#[verifier::external_body]
pub fn string_push(s: &mut String, c: char)
    ensures
        final(s)@ == old(s)@.push(c),
{
    s.push(c);
}

} // verus!
