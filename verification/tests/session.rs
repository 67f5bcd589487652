use termchat_wan::state::{
    ChatMessage, CursorMovement, MessageType, ProgressState, ScrollMovement, State,
};

fn type_line(state: &mut State, line: &str) {
    for c in line.chars() {
        state.input_write(c);
    }
}

#[test]
fn transcript_is_append_only() {
    let mut state = State::new();
    state.add_message(ChatMessage::new("alice".to_string(), MessageType::Connection));
    state.add_message(
        ChatMessage::new("alice".to_string(), MessageType::Text("hi".to_string())),
    );
    assert_eq!(state.message_count(), 2);
    assert_eq!(state.message_at(0).user, "alice");
    assert!(matches!(state.message_at(0).message_type, MessageType::Connection));
    match &state.message_at(1).message_type {
        MessageType::Text(t) => assert_eq!(t, "hi"),
        _ => panic!("wrong entry"),
    }
}

#[test]
fn input_editing_moves_the_cursor() {
    let mut state = State::new();
    type_line(&mut state, "helo");
    state.input_move_cursor(CursorMovement::Left);
    state.input_write('l');
    assert_eq!(state.input().iter().collect::<String>(), "hello");
    assert_eq!(state.input_cursor(), 4);
    state.input_move_cursor(CursorMovement::Start);
    state.input_remove();
    assert_eq!(state.input().iter().collect::<String>(), "ello");
    state.input_move_cursor(CursorMovement::End);
    state.input_remove_previous();
    assert_eq!(state.input().iter().collect::<String>(), "ell");
    // removing at the end of the line does nothing
    state.input_remove();
    assert_eq!(state.input().iter().collect::<String>(), "ell");
    // the cursor never leaves the line
    state.input_move_cursor(CursorMovement::Start);
    state.input_move_cursor(CursorMovement::Left);
    assert_eq!(state.input_cursor(), 0);
    state.input_remove_previous();
    assert_eq!(state.input().iter().collect::<String>(), "ell");
}

#[test]
fn reset_input_commits_once() {
    let mut state = State::new();
    assert!(state.reset_input().is_none());
    type_line(&mut state, "hello");
    assert_eq!(state.reset_input(), Some("hello".to_string()));
    assert!(state.input().is_empty());
    assert_eq!(state.input_cursor(), 0);
    assert!(state.reset_input().is_none());
}

#[test]
fn scroll_stays_inside_the_transcript() {
    let mut state = State::new();
    state.add_message(ChatMessage::new("a".to_string(), MessageType::Connection));
    state.add_message(ChatMessage::new("b".to_string(), MessageType::Connection));
    state.messages_scroll(ScrollMovement::Up);
    assert_eq!(state.scroll_messages_view(), 0);
    state.messages_scroll(ScrollMovement::Down);
    state.messages_scroll(ScrollMovement::Down);
    state.messages_scroll(ScrollMovement::Down);
    assert_eq!(state.scroll_messages_view(), 2);
    state.messages_scroll(ScrollMovement::Up);
    assert_eq!(state.scroll_messages_view(), 1);
    state.messages_scroll(ScrollMovement::Start);
    assert_eq!(state.scroll_messages_view(), 0);
}

#[test]
fn progress_advances_and_completes() {
    let mut state = State::new();
    let id = state.add_progress_message(&"f.bin".to_string(), 100);
    assert_eq!(id, 0);
    assert_eq!(state.progress_at(0).state, ProgressState::Started);
    state.progress_message_update(id, 60);
    assert_eq!(state.progress_at(0).state, ProgressState::Working(100, 60));
    state.progress_message_update(id, 40);
    assert_eq!(state.progress_at(0).state, ProgressState::Completed);
}

#[test]
fn terminal_progress_never_double_counts() {
    let mut state = State::new();
    let id = state.add_progress_message(&"f.bin".to_string(), 10);
    state.progress_message_update(id, 10);
    assert_eq!(state.progress_at(id).state, ProgressState::Completed);
    // the end marker arriving again must change nothing
    state.progress_message_update(id, 0);
    assert_eq!(state.progress_at(id).state, ProgressState::Completed);
    state.progress_message_update(id, 10);
    assert_eq!(state.progress_at(id).state, ProgressState::Completed);
    assert_eq!(state.progress_at(id).total, 10);
}

#[test]
fn unknown_progress_id_is_ignored() {
    let mut state = State::new();
    state.progress_message_update(3, 5);
    state.progress_message_terminate(3);
    assert_eq!(state.progress_count(), 0);
}
