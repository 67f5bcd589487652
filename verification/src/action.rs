//! Resumable client actions: a chunked file send, a one-shot whisper, and
//! the self-rescheduling heartbeat. An action is exclusively owned; one call
//! of `process` performs one step and either completes or asks to be
//! re-invoked, unchanged, after a delay.
//!
//! The file bytes themselves are read by the caller and handed in as plain
//! values, so every decision made here is verified for every possible read
//! outcome.

use vstd::prelude::*;
use vstd::arithmetic::div_mod::lemma_fundamental_div_mod_converse;
use vstd::slice::{slice_subrange, slice_to_vec};

use crate::message::{Chunk, ChunkView, MessageView, NetMessage};
use crate::state::{
    ChatMessage, MessageType, ProgressEntry, ProgressState, State, SystemMessageType,
    progress_step,
};
use crate::util::{Error, ErrorKind};

verus! {

/// Bytes of one file chunk on the wire.
pub const CHUNK_SIZE: usize = 32768;

/// The pause between two chunks of one transfer, in microseconds: a minor
/// delay that introduces a send rate.
pub const SEND_DELAY_MICROS: u64 = 100;

/// The delay before the first heartbeat, in microseconds.
pub const HEARTBEAT_START_MICROS: u64 = 3000000;

/// The period of the heartbeat, in microseconds.
pub const HEARTBEAT_PERIOD_MICROS: u64 = 10000000;

/// What one `process` call decided: the action is spent, or it must be
/// re-invoked, with its state unchanged, no sooner than the given number of
/// microseconds from now.
pub enum Processing {
    Completed,
    Partial(u64),
}

/// The outcome of the caller's read of the next file chunk: the bytes (an
/// empty slice at end of file), or a read failure.
pub enum FileRead<'a> {
    Data(&'a [u8]),
    Failed,
}

/// A one-shot private message.
pub struct SendWhisper {
    pub from: String,
    pub to: String,
    pub content: String,
}

impl SendWhisper {
    pub fn new(from: &str, to: &str, content: &str) -> (r: Result<SendWhisper, Error>)
        ensures
            r matches Ok(w) && w.from@ == from@ && w.to@ == to@ && w.content@ == content@,
    {
        Ok(SendWhisper { from: from.to_owned(), to: to.to_owned(), content: content.to_owned() })
    }

    /// Emits the whisper; a whisper never resumes.
    pub fn process(&self) -> (r: (NetMessage, Processing))
        ensures
            r.0@ == MessageView::WhisperMessage(self.from@, self.to@, self.content@),
            r.1 == Processing::Completed,
    {
        let message = NetMessage::WhisperMessage(
            self.from.clone(),
            self.to.clone(),
            self.content.clone(),
        );
        (message, Processing::Completed)
    }
}

/// The periodic liveness action: emits one heartbeat and reschedules itself
/// at a fixed period, indefinitely.
pub struct Heartbeat {
    pub user: String,
}

impl Heartbeat {
    pub fn new(user: String) -> (r: Heartbeat)
        ensures
            r.user@ == user@,
    {
        Heartbeat { user }
    }

    /// Emits one liveness message and asks to run again one period later.
    pub fn process(&self) -> (r: (NetMessage, Processing))
        ensures
            r.0@ == MessageView::BBB(self.user@),
            r.1 == Processing::Partial(HEARTBEAT_PERIOD_MICROS),
    {
        (NetMessage::BBB(self.user.clone()), Processing::Partial(HEARTBEAT_PERIOD_MICROS))
    }
}

/// A chunked file send in flight: the addressing, the file's size, and the
/// id of its progress entry once the first step has registered one.
pub struct SendFile {
    pub from: String,
    pub to: String,
    pub file_name: String,
    pub file_size: u64,
    pub progress_id: Option<usize>,
}

/// The number of `Data` chunks a file of `file_size` bytes yields: the size
/// divided by the chunk size, rounded up.
pub open spec fn num_data_chunks(file_size: int) -> int {
    (file_size + CHUNK_SIZE - 1) / (CHUNK_SIZE as int)
}

/// Where the `Data` chunk with index `i` ends in the file.
pub open spec fn chunk_end(file_size: int, i: int) -> int {
    if (i + 1) * (CHUNK_SIZE as int) < file_size {
        (i + 1) * (CHUNK_SIZE as int)
    } else {
        file_size
    }
}

/// The wire message of the `Data` chunk with index `i` of a transfer.
pub open spec fn data_chunk_view(sf: SendFile, content: Seq<u8>, i: int) -> MessageView {
    MessageView::UserData(
        sf.from@,
        sf.to@,
        sf.file_name@,
        ChunkView::Data(content.subrange(i * (CHUNK_SIZE as int), chunk_end(content.len() as int, i))),
    )
}

/// The progress id a `process` step works with: the already registered one,
/// or the id the first step registers.
pub open spec fn registered_id(sf: SendFile, st: State) -> int {
    match sf.progress_id {
        Some(i) => i as int,
        None => st.progress_view().len() as int,
    }
}

/// The progress entries after `process` has made sure the transfer is
/// registered.
pub open spec fn progress_seq_registered(sf: SendFile, st: State) -> Seq<ProgressEntry> {
    match sf.progress_id {
        Some(_) => st.progress_view(),
        None => st.progress_view().push(
            (ProgressEntry {
                label: sf.file_name,
                total: sf.file_size,
                state: ProgressState::Started,
            }),
        ),
    }
}

/// One advance of the entry `id` by `delta` bytes; an id out of range
/// changes nothing.
pub open spec fn progress_seq_updated(s: Seq<ProgressEntry>, id: int, delta: u64) -> Seq<
    ProgressEntry,
> {
    if 0 <= id < s.len() {
        s.update(id, (ProgressEntry { state: progress_step(s[id].state, s[id].total, delta), ..s[id] }))
    } else {
        s
    }
}

/// The entry `id` made terminal; an id out of range changes nothing.
pub open spec fn progress_seq_terminated(s: Seq<ProgressEntry>, id: int) -> Seq<ProgressEntry> {
    if 0 <= id < s.len() {
        s.update(id, (ProgressEntry { state: ProgressState::Completed, ..s[id] }))
    } else {
        s
    }
}

/// A transcript entry reporting a local system event.
pub open spec fn is_system_entry(m: ChatMessage, text: Seq<char>, kind: SystemMessageType) -> bool {
    &&& m.message_type matches MessageType::System(t, k) && t@ == text && k == kind
}

impl SendFile {
    /// A transfer that has not sent anything yet never claims a progress
    /// entry it does not have, and a blank file is never accepted.
    pub open spec fn wf(self) -> bool {
        self.file_size > 0
    }

    /// Validates a transfer at construction: a zero-length file is rejected
    /// here, so no chunk of it is ever emitted.
    pub fn new(from: &str, to: &str, file_name: &str, file_size: u64) -> (r: Result<
        SendFile,
        Error,
    >)
        ensures
            file_size == 0 ==> (r matches Err(e) && e.kind == ErrorKind::FileAccess && e.text@
                == "Don't send blank file"@),
            file_size > 0 ==> (r matches Ok(sf) && sf.from@ == from@ && sf.to@ == to@
                && sf.file_name@ == file_name@ && sf.file_size == file_size
                && sf.progress_id is None && sf.wf()),
    {
        if file_size == 0 {
            Err(Error::new(ErrorKind::FileAccess, "Don't send blank file".to_owned()))
        } else {
            Ok(
                SendFile {
                    from: from.to_owned(),
                    to: to.to_owned(),
                    file_name: file_name.to_owned(),
                    file_size,
                    progress_id: None,
                },
            )
        }
    }

    /// One step of the transfer, given the caller's read of the next chunk.
    ///
    /// The first step registers the progress entry. Bytes become a `Data`
    /// chunk and a request to resume after the send delay; an empty read is
    /// the end of the file and emits the terminal `End`; a failed read
    /// emits the terminal `Error`, marks the progress entry terminal and
    /// reports the failure in the transcript.
    pub fn process(&mut self, state: &mut State, read: FileRead<'_>) -> (r: (NetMessage, Processing))
        requires
            old(self).wf(),
            old(state).wf(),
        ensures
            final(self).wf(),
            final(state).wf(),
            final(self).from == old(self).from,
            final(self).to == old(self).to,
            final(self).file_name == old(self).file_name,
            final(self).file_size == old(self).file_size,
            final(self).progress_id matches Some(id) && id as int == registered_id(
                *old(self),
                *old(state),
            ),
            final(state).input_view() == old(state).input_view(),
            final(state).cursor_view() == old(state).cursor_view(),
            final(state).scroll_view() == old(state).scroll_view(),
            match read {
                FileRead::Data(d) => {
                    &&& final(state).transcript() == old(state).transcript()
                    &&& final(state).progress_view() == progress_seq_updated(
                        progress_seq_registered(*old(self), *old(state)),
                        registered_id(*old(self), *old(state)),
                        d@.len() as u64,
                    )
                    &&& (d@.len() > 0 ==> r.0@ == MessageView::UserData(
                        old(self).from@,
                        old(self).to@,
                        old(self).file_name@,
                        ChunkView::Data(d@),
                    ) && r.1 == Processing::Partial(SEND_DELAY_MICROS))
                    &&& (d@.len() == 0 ==> r.0@ == MessageView::UserData(
                        old(self).from@,
                        old(self).to@,
                        old(self).file_name@,
                        ChunkView::End,
                    ) && r.1 == Processing::Completed)
                },
                FileRead::Failed => {
                    &&& final(state).transcript().len() == old(state).transcript().len() + 1
                    &&& final(state).transcript().take(old(state).transcript().len() as int)
                        == old(state).transcript()
                    &&& is_system_entry(
                        final(state).transcript().last(),
                        "Error sending file"@,
                        SystemMessageType::Error,
                    )
                    &&& final(state).progress_view() == progress_seq_terminated(
                        progress_seq_registered(*old(self), *old(state)),
                        registered_id(*old(self), *old(state)),
                    )
                    &&& r.0@ == MessageView::UserData(
                        old(self).from@,
                        old(self).to@,
                        old(self).file_name@,
                        ChunkView::Error,
                    )
                    &&& r.1 == Processing::Completed
                },
            },
    {
        let id: usize = match self.progress_id {
            Some(i) => i,
            None => {
                let i = state.add_progress_message(&self.file_name, self.file_size);
                self.progress_id = Some(i);
                i
            },
        };
        match read {
            FileRead::Data(d) => {
                if d.len() > 0 {
                    state.progress_message_update(id, d.len() as u64);
                    let message = NetMessage::UserData(
                        self.from.clone(),
                        self.to.clone(),
                        self.file_name.clone(),
                        Chunk::Data(slice_to_vec(d)),
                    );
                    (message, Processing::Partial(SEND_DELAY_MICROS))
                } else {
                    state.progress_message_update(id, 0);
                    let message = NetMessage::UserData(
                        self.from.clone(),
                        self.to.clone(),
                        self.file_name.clone(),
                        Chunk::End,
                    );
                    (message, Processing::Completed)
                }
            },
            FileRead::Failed => {
                state.progress_message_terminate(id);
                state.add_message(
                    ChatMessage::new(
                        "System".to_owned(),
                        MessageType::System(
                            "Error sending file".to_owned(),
                            SystemMessageType::Error,
                        ),
                    ),
                );
                let message = NetMessage::UserData(
                    self.from.clone(),
                    self.to.clone(),
                    self.file_name.clone(),
                    Chunk::Error,
                );
                (message, Processing::Completed)
            },
        }
    }
}

/// Covering `f` bytes with `k` chunks, all but the last one full, means
/// `k` is `f` divided by the chunk size, rounded up.
proof fn lemma_chunk_count(f: int, k: int)
    requires
        f > 0,
        k * (CHUNK_SIZE as int) >= f,
        (k - 1) * (CHUNK_SIZE as int) < f,
    ensures
        k == num_data_chunks(f),
{
    let c = CHUNK_SIZE as int;
    assert(k * c < f + c) by (nonlinear_arith)
        requires (k - 1) * c < f, c > 0;
    lemma_fundamental_div_mod_converse(f + c - 1, c, k, f + c - 1 - k * c);
}

/// Drives one transfer to completion against an in-memory file: feeds
/// `process` the successive chunks of `content` and collects the emitted
/// wire messages.
///
/// A file of `F` bytes yields exactly `F` divided by the chunk size rounded
/// up `Data` chunks carrying the file in order, followed by exactly one
/// `End`; the transfer's progress entry ends terminal with total `F`, and
/// the transcript is untouched.
pub fn run_send(action: SendFile, state: &mut State, content: &[u8]) -> (msgs: Vec<NetMessage>)
    requires
        old(state).wf(),
        action.wf(),
        action.progress_id is None,
        content@.len() == action.file_size,
    ensures
        final(state).wf(),
        msgs@.len() == num_data_chunks(action.file_size as int) + 1,
        forall|i: int|
            0 <= i < msgs@.len() - 1 ==> #[trigger] msgs@[i]@ == data_chunk_view(
                action,
                content@,
                i,
            ),
        msgs@.last()@ == MessageView::UserData(
            action.from@,
            action.to@,
            action.file_name@,
            ChunkView::End,
        ),
        final(state).progress_view() == old(state).progress_view().push(
            (ProgressEntry {
                label: action.file_name,
                total: action.file_size,
                state: ProgressState::Completed,
            }),
        ),
        final(state).transcript() == old(state).transcript(),
        final(state).input_view() == old(state).input_view(),
        final(state).cursor_view() == old(state).cursor_view(),
        final(state).scroll_view() == old(state).scroll_view(),
{
    let ghost a0 = action;
    let ghost f = content@.len() as int;
    let ghost c = CHUNK_SIZE as int;
    let ghost prog0 = state.progress_view();
    let ghost pid = prog0.len() as int;
    let mut action = action;
    let mut sent: usize = 0;
    let mut msgs: Vec<NetMessage> = Vec::new();
    loop
        invariant_except_break
            sent as int == if msgs@.len() * c < f {
                msgs@.len() * c
            } else {
                f
            },
            msgs@.len() > 0 ==> (msgs@.len() - 1) * c < f,
            forall|i: int|
                0 <= i < msgs@.len() ==> #[trigger] msgs@[i]@ == data_chunk_view(a0, content@, i),
            msgs@.len() == 0 ==> action.progress_id is None && state.progress_view() == prog0,
            msgs@.len() > 0 ==> (action.progress_id matches Some(id) && id as int == pid),
            msgs@.len() > 0 ==> state.progress_view() == prog0.push(
                (ProgressEntry {
                    label: a0.file_name,
                    total: a0.file_size,
                    state: if sent as int == f {
                        ProgressState::Completed
                    } else {
                        ProgressState::Working(a0.file_size, sent as u64)
                    },
                }),
            ),
        invariant
            state.wf(),
            content@.len() == a0.file_size,
            f == content@.len() as int,
            c == CHUNK_SIZE as int,
            f > 0,
            action.from == a0.from,
            action.to == a0.to,
            action.file_name == a0.file_name,
            action.file_size == a0.file_size,
            action.wf(),
            sent <= content@.len(),
            state.transcript() == old(state).transcript(),
            state.input_view() == old(state).input_view(),
            state.cursor_view() == old(state).cursor_view(),
            state.scroll_view() == old(state).scroll_view(),
            prog0 == old(state).progress_view(),
            pid == prog0.len() as int,
        ensures
            msgs@.len() == num_data_chunks(f) + 1,
            forall|i: int|
                0 <= i < msgs@.len() - 1 ==> #[trigger] msgs@[i]@ == data_chunk_view(
                    a0,
                    content@,
                    i,
                ),
            msgs@.last()@ == MessageView::UserData(
                a0.from@,
                a0.to@,
                a0.file_name@,
                ChunkView::End,
            ),
            state.progress_view() == prog0.push(
                (ProgressEntry {
                    label: a0.file_name,
                    total: a0.file_size,
                    state: ProgressState::Completed,
                }),
            ),
        decreases f - sent,
    {
        let ghost k = msgs@.len() as int;
        let ghost prog_pre = state.progress_view();
        let ghost act_pre = action;
        let ghost st_pre = *state;
        let end: usize = if content.len() - sent >= CHUNK_SIZE {
            sent + CHUNK_SIZE
        } else {
            content.len()
        };
        let piece = slice_subrange(content, sent, end);
        let (message, processing) = action.process(state, FileRead::Data(piece));
        msgs.push(message);
        proof {
            let entry_now = (ProgressEntry {
                label: a0.file_name,
                total: a0.file_size,
                state: if end as int == f {
                    ProgressState::Completed
                } else {
                    ProgressState::Working(a0.file_size, end as u64)
                },
            });
            let reg = if k == 0 {
                prog_pre.push(
                    (ProgressEntry {
                        label: a0.file_name,
                        total: a0.file_size,
                        state: ProgressState::Started,
                    }),
                )
            } else {
                prog_pre
            };
            assert(state.progress_view() == progress_seq_updated(
                progress_seq_registered(act_pre, st_pre),
                registered_id(act_pre, st_pre),
                (end - sent) as u64,
            ));
            assert(registered_id(act_pre, st_pre) == pid);
            assert(progress_seq_registered(act_pre, st_pre) == reg);
            assert(state.progress_view() == progress_seq_updated(reg, pid, (end - sent) as u64));
            assert(reg[pid].total == a0.file_size);
            if sent < end {
                assert(k * c < f);
                assert(end as int == chunk_end(f, k));
                assert(msgs@[k]@ == data_chunk_view(a0, content@, k));
                assert((k + 1) * c == k * c + c);
                assert(state.progress_view() =~= prog0.push(entry_now));
            } else {
                assert(sent as int == f);
                assert(k * c >= f);
                assert(reg[pid].state == ProgressState::Completed);
                assert(state.progress_view() =~= prog0.push(entry_now));
            }
        }
        sent = end;
        match processing {
            Processing::Completed => {
                proof {
                    assert(k * c >= f);
                    assert((k - 1) * c < f);
                    lemma_chunk_count(f, k);
                }
                break;
            },
            Processing::Partial(_) => {},
        }
    }
    msgs
}

} // verus!
