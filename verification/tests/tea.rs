use openpista_tui::action::{Action, Command};
use openpista_tui::keys::{KeyCode, KeyEvent, KeyModifiers, MouseButton, MouseEvent, MouseEventKind, Rect};
use openpista_tui::state::{AppState, Screen, SessionEntry, TuiApp, TuiMessage};

fn make_app() -> TuiApp {
    TuiApp::new("gpt-4o", "session-test".to_string(), "cli:tui".to_string(), "openai")
}

fn key(code: KeyCode) -> KeyEvent {
    KeyEvent::new(code, KeyModifiers::NONE)
}

fn make_session_entry(id: &str, preview: &str) -> SessionEntry {
    SessionEntry { id: id.to_string(), channel_id: "cli:tui".to_string(), updated_at: 1_700_000_000, preview: preview.to_string() }
}

fn confirm_state() -> AppState {
    AppState::ConfirmDelete { session_id: "s1".to_string(), session_preview: "p".to_string() }
}

#[test]
fn update_insert_char_idle() {
    let mut app = make_app();
    let cmd = app.update(Action::InsertChar('a'));
    assert!(matches!(cmd, Command::NoOp));
    assert_eq!(app.chat.input, "a");
    assert_eq!(app.chat.cursor_pos, 1);
}

#[test]
fn update_insert_char_non_idle_ignored() {
    let mut app = make_app();
    app.state = AppState::Thinking { round: 0 };
    let cmd = app.update(Action::InsertChar('x'));
    assert!(matches!(cmd, Command::NoOp));
    assert!(app.chat.input.is_empty());
}

#[test]
fn update_delete_char() {
    let mut app = make_app();
    app.update(Action::InsertChar('h'));
    app.update(Action::InsertChar('i'));
    assert_eq!(app.chat.input, "hi");
    assert_eq!(app.chat.cursor_pos, 2);
    let cmd = app.update(Action::DeleteChar);
    assert!(matches!(cmd, Command::NoOp));
    assert_eq!(app.chat.input, "h");
    assert_eq!(app.chat.cursor_pos, 1);
}

#[test]
fn update_move_cursor_left_right() {
    let mut app = make_app();
    app.update(Action::InsertChar('a'));
    app.update(Action::InsertChar('b'));
    assert_eq!(app.chat.cursor_pos, 2);
    app.update(Action::MoveCursorLeft);
    assert_eq!(app.chat.cursor_pos, 1);
    app.update(Action::MoveCursorRight);
    assert_eq!(app.chat.cursor_pos, 2);
    app.update(Action::MoveCursorLeft);
    app.update(Action::MoveCursorLeft);
    let cmd = app.update(Action::MoveCursorLeft);
    assert!(matches!(cmd, Command::NoOp));
    assert_eq!(app.chat.cursor_pos, 0);
}

#[test]
fn update_submit_input_on_home_screen() {
    let mut app = make_app();
    app.screen = Screen::Home;
    app.update(Action::SubmitInput);
    assert_eq!(app.screen, Screen::Chat);
}

#[test]
fn update_scroll_up_down() {
    let mut app = make_app();
    app.chat.history_scroll = 10;
    app.update(Action::ScrollUp(3));
    assert_eq!(app.chat.history_scroll, 7);
    app.update(Action::ScrollDown(5));
    assert_eq!(app.chat.history_scroll, 12);
    app.update(Action::ScrollUp(100));
    assert_eq!(app.chat.history_scroll, 0);
}

#[test]
fn update_switch_screen() {
    let mut app = make_app();
    assert_eq!(app.screen, Screen::Home);
    app.update(Action::SwitchScreen(Screen::Chat));
    assert_eq!(app.screen, Screen::Chat);
}

#[test]
fn update_push_user_message() {
    let mut app = make_app();
    app.update(Action::PushUserMessage("hello".to_string()));
    assert_eq!(app.chat.messages.len(), 1);
    assert!(matches!(&app.chat.messages[0], TuiMessage::User(t) if t == "hello"));
}

#[test]
fn update_push_assistant_message() {
    let mut app = make_app();
    app.update(Action::PushAssistantMessage("world".to_string()));
    assert_eq!(app.chat.messages.len(), 1);
    assert!(matches!(&app.chat.messages[0], TuiMessage::Assistant(t) if t == "world"));
}

#[test]
fn update_push_error() {
    let mut app = make_app();
    app.update(Action::PushError("oops".to_string()));
    assert_eq!(app.chat.messages.len(), 1);
    assert!(matches!(&app.chat.messages[0], TuiMessage::Error(t) if t == "oops"));
}

#[test]
fn update_apply_completion_ok_via_action() {
    let mut app = make_app();
    app.state = AppState::Thinking { round: 0 };
    app.update(Action::ApplyCompletion(Ok("done".to_string())));
    assert_eq!(app.state, AppState::Idle);
    assert_eq!(app.chat.messages.len(), 1);
    assert!(matches!(&app.chat.messages[0], TuiMessage::Assistant(t) if t == "done"));
}

#[test]
fn update_apply_completion_err_via_action() {
    let mut app = make_app();
    app.state = AppState::Thinking { round: 0 };
    app.update(Action::ApplyCompletion(Err("fail".to_string())));
    assert_eq!(app.state, AppState::Idle);
    assert_eq!(app.chat.messages.len(), 1);
    assert!(matches!(&app.chat.messages[0], TuiMessage::Error(t) if t == "fail"));
}

#[test]
fn update_sidebar_hover() {
    let mut app = make_app();
    assert_eq!(app.sidebar.hover, None);
    app.update(Action::SidebarHover(Some(3)));
    assert_eq!(app.sidebar.hover, Some(3));
    app.update(Action::SidebarHover(None));
    assert_eq!(app.sidebar.hover, None);
}

#[test]
fn update_sidebar_scroll() {
    let mut app = make_app();
    app.update(Action::SidebarScroll(5));
    assert_eq!(app.sidebar.scroll, 5);
    app.update(Action::SidebarScroll(-2));
    assert_eq!(app.sidebar.scroll, 3);
    app.update(Action::SidebarScroll(-100));
    assert_eq!(app.sidebar.scroll, 0);
}

#[test]
fn update_confirm_delete_in_confirm_state() {
    let mut app = make_app();
    app.state = AppState::ConfirmDelete { session_id: "ses_test".to_string(), session_preview: "preview".to_string() };
    app.update(Action::ConfirmDelete);
    assert!(app.session.confirmed_delete.is_some());
    assert_eq!(app.state, AppState::Idle);
}

#[test]
fn update_cancel_delete() {
    let mut app = make_app();
    app.state = AppState::ConfirmDelete { session_id: "ses_test".to_string(), session_preview: "preview".to_string() };
    app.update(Action::CancelDelete);
    assert_eq!(app.state, AppState::Idle);
    assert!(app.session.confirmed_delete.is_none());
}

#[test]
fn update_palette_move_up_down() {
    let mut app = make_app();
    app.command_palette_cursor = 5;
    app.update(Action::PaletteMoveUp);
    assert_eq!(app.command_palette_cursor, 4);
    app.command_palette_cursor = 0;
    app.update(Action::PaletteMoveUp);
    assert_eq!(app.command_palette_cursor, 0);
}

#[test]
fn update_palette_close() {
    let mut app = make_app();
    app.chat.input = "/help".to_string();
    app.chat.cursor_pos = 5;
    app.command_palette_cursor = 2;
    app.update(Action::PaletteClose);
    assert!(app.chat.input.is_empty());
    assert_eq!(app.chat.cursor_pos, 0);
    assert_eq!(app.command_palette_cursor, 0);
}

#[test]
fn update_tick() {
    let mut app = make_app();
    let before = app.spinner_tick;
    app.update(Action::Tick);
    assert_eq!(app.spinner_tick, before.wrapping_add(1));
}

#[test]
fn update_quit() {
    let mut app = make_app();
    assert!(!app.should_quit);
    app.update(Action::Quit);
    assert!(app.should_quit);
}

#[test]
fn update_resize_returns_none() {
    let mut app = make_app();
    let cmd = app.update(Action::Resize);
    assert!(matches!(cmd, Command::NoOp));
}

#[test]
fn update_set_model() {
    let mut app = make_app();
    app.update(Action::SetModel("sonnet-4".to_string()));
    assert_eq!(app.model.model_name, "sonnet-4");
}

#[test]
fn update_set_provider_name() {
    let mut app = make_app();
    app.update(Action::SetProviderName("anthropic".to_string()));
    assert_eq!(app.model.provider_name, "anthropic");
}

#[test]
fn update_new_session() {
    let mut app = make_app();
    let sid = "ses_new_1234".to_string();
    app.update(Action::NewSession(sid.clone()));
    assert_eq!(app.session.session_id, sid);
    assert!(app.chat.messages.iter().any(|m| matches!(m, TuiMessage::Assistant(t) if t.contains("New session"))));
}

#[test]
fn update_set_thinking() {
    let mut app = make_app();
    assert_eq!(app.state, AppState::Idle);
    app.update(Action::SetThinking);
    assert_eq!(app.state, AppState::Thinking { round: 0 });
}

#[test]
fn update_text_selection_start() {
    let mut app = make_app();
    app.update(Action::TextSelectionStart { row: 5, col: 10 });
    assert_eq!(app.chat.text_selection.anchor, Some((5, 10)));
    assert_eq!(app.chat.text_selection.endpoint, Some((5, 10)));
    assert!(app.chat.text_selection.dragging);
}

#[test]
fn update_text_selection_drag() {
    let mut app = make_app();
    app.chat.text_selection.dragging = true;
    app.update(Action::TextSelectionDrag { row: 7, col: 15 });
    assert_eq!(app.chat.text_selection.endpoint, Some((7, 15)));
}

#[test]
fn update_text_selection_drag_not_dragging() {
    let mut app = make_app();
    assert!(!app.chat.text_selection.dragging);
    app.update(Action::TextSelectionDrag { row: 7, col: 15 });
    assert_eq!(app.chat.text_selection.endpoint, None);
}

#[test]
fn update_text_selection_clear() {
    let mut app = make_app();
    app.chat.text_selection.anchor = Some((0, 0));
    app.chat.text_selection.endpoint = Some((5, 10));
    app.chat.text_selection.dragging = true;
    app.update(Action::TextSelectionClear);
    assert_eq!(app.chat.text_selection.anchor, None);
    assert_eq!(app.chat.text_selection.endpoint, None);
    assert!(!app.chat.text_selection.dragging);
}

#[test]
fn map_key_confirm_delete_y() {
    let mut app = make_app();
    app.state = confirm_state();
    let actions = app.map_key_event(key(KeyCode::Char('y')));
    assert_eq!(actions.len(), 1);
    assert!(matches!(actions[0], Action::ConfirmDelete));
}

#[test]
fn map_key_confirm_delete_esc() {
    let mut app = make_app();
    app.state = confirm_state();
    let actions = app.map_key_event(key(KeyCode::Esc));
    assert_eq!(actions.len(), 1);
    assert!(matches!(actions[0], Action::CancelDelete));
}

#[test]
fn map_key_idle_char() {
    let app = make_app();
    let actions = app.map_key_event(key(KeyCode::Char('z')));
    assert_eq!(actions.len(), 1);
    assert!(matches!(actions[0], Action::InsertChar('z')));
}

#[test]
fn map_key_idle_backspace() {
    let app = make_app();
    let actions = app.map_key_event(key(KeyCode::Backspace));
    assert_eq!(actions.len(), 1);
    assert!(matches!(actions[0], Action::DeleteChar));
}

#[test]
fn map_key_idle_left_right() {
    let app = make_app();
    let left = app.map_key_event(key(KeyCode::Left));
    assert_eq!(left.len(), 1);
    assert!(matches!(left[0], Action::MoveCursorLeft));
    let right = app.map_key_event(key(KeyCode::Right));
    assert_eq!(right.len(), 1);
    assert!(matches!(right[0], Action::MoveCursorRight));
}

#[test]
fn map_key_ctrl_c_quits_in_idle() {
    let app = make_app();
    let actions = app.map_key_event(KeyEvent::new(KeyCode::Char('c'), KeyModifiers::CONTROL));
    assert_eq!(actions.len(), 1);
    assert!(matches!(actions[0], Action::Quit));
}

#[test]
fn map_key_esc_quits_in_idle() {
    let app = make_app();
    let actions = app.map_key_event(key(KeyCode::Esc));
    assert_eq!(actions.len(), 1);
    assert!(matches!(actions[0], Action::Quit));
}

#[test]
fn map_key_scroll_up_down() {
    let mut app = make_app();
    app.state = AppState::Thinking { round: 0 };
    let up = app.map_key_event(key(KeyCode::Up));
    assert_eq!(up.len(), 1);
    assert!(matches!(up[0], Action::ScrollUp(1)));
    let down = app.map_key_event(key(KeyCode::Down));
    assert_eq!(down.len(), 1);
    assert!(matches!(down[0], Action::ScrollDown(1)));
}

#[test]
fn map_key_page_up_down() {
    let mut app = make_app();
    app.state = AppState::Thinking { round: 0 };
    let pup = app.map_key_event(key(KeyCode::PageUp));
    assert_eq!(pup.len(), 1);
    assert!(matches!(pup[0], Action::ScrollUp(10)));
    let pdown = app.map_key_event(key(KeyCode::PageDown));
    assert_eq!(pdown.len(), 1);
    assert!(matches!(pdown[0], Action::ScrollDown(10)));
}

#[test]
fn map_key_enter_idle_returns_submit() {
    let app = make_app();
    let actions = app.map_key_event(key(KeyCode::Enter));
    assert_eq!(actions.len(), 1);
    assert!(matches!(actions[0], Action::SubmitInput));
}

#[test]
fn map_key_thinking_non_enter_ignored() {
    let mut app = make_app();
    app.state = AppState::Thinking { round: 0 };
    let actions = app.map_key_event(key(KeyCode::Char('x')));
    assert!(actions.is_empty());
}
