use openpista_tui::action::Action;
use openpista_tui::app::ProgressEvent;
use openpista_tui::browse::{AgentMessage, Role};
use openpista_tui::catalog::{ModelCatalogEntry, ModelSource, ModelStatus};
use openpista_tui::keys::{KeyModifiers, MouseButton, MouseEvent, MouseEventKind, Rect};
use openpista_tui::state::{AppState, Screen, SessionEntry, TuiApp};

fn make_app() -> TuiApp {
    TuiApp::new("gpt-4o", "session-test".to_string(), "cli:tui".to_string(), "openai")
}

fn sample_models() -> Vec<ModelCatalogEntry> {
    vec![
        ModelCatalogEntry {
            id: "gpt-5-codex".to_string(),
            provider: String::new(),
            recommended_for_coding: true,
            status: ModelStatus::Stable,
            source: ModelSource::Docs,
            available: true,
        },
        ModelCatalogEntry {
            id: "cohere-4.6".to_string(),
            provider: String::new(),
            recommended_for_coding: true,
            status: ModelStatus::Stable,
            source: ModelSource::Docs,
            available: true,
        },
    ]
}

fn make_session_entry(id: &str, preview: &str) -> SessionEntry {
    SessionEntry {
        id: id.to_string(),
        channel_id: "cli:tui".to_string(),
        updated_at: 1_700_000_000,
        preview: preview.to_string(),
    }
}

fn mouse_event(kind: MouseEventKind, col: u16, row: u16) -> MouseEvent {
    MouseEvent { kind, column: col, row, modifiers: KeyModifiers::NONE }
}

fn setup_sidebar_app() -> TuiApp {
    let mut app = make_app();
    app.screen = Screen::Chat;
    app.sidebar.visible = true;
    app.session.session_list = vec![make_session_entry("s1", "hello"), make_session_entry("s2", "world")];
    app
}

#[test]
fn mouse_left_click_sidebar_selects_session() {
    let app = setup_sidebar_app();
    let frame_area = Rect::new(0, 0, 120, 40);
    let sb = app.compute_sidebar_area(frame_area).unwrap();
    let actions = app.map_mouse_event(
        mouse_event(MouseEventKind::Down(MouseButton::Left), sb.x + 2, sb.y + 2),
        frame_area,
    );
    assert!(actions.iter().any(|a| matches!(a, Action::SidebarHover(Some(_)))));
    assert!(actions.iter().any(|a| matches!(a, Action::SelectSidebarSession)));
}

#[test]
fn mouse_move_sidebar_sets_hover() {
    let app = setup_sidebar_app();
    let frame_area = Rect::new(0, 0, 120, 40);
    let sb = app.compute_sidebar_area(frame_area).unwrap();
    let actions = app.map_mouse_event(mouse_event(MouseEventKind::Moved, sb.x + 2, sb.y + 2), frame_area);
    assert!(actions.iter().any(|a| matches!(a, Action::SidebarHover(Some(_)))));
}

#[test]
fn mouse_move_outside_sidebar_clears_hover() {
    let app = setup_sidebar_app();
    let frame_area = Rect::new(0, 0, 120, 40);
    let actions = app.map_mouse_event(mouse_event(MouseEventKind::Moved, 5, 5), frame_area);
    assert_eq!(actions.len(), 1);
    assert!(matches!(actions[0], Action::SidebarHover(None)));
}

#[test]
fn mouse_scroll_sidebar() {
    let app = setup_sidebar_app();
    let frame_area = Rect::new(0, 0, 120, 40);
    let sb = app.compute_sidebar_area(frame_area).unwrap();
    let down = app.map_mouse_event(mouse_event(MouseEventKind::ScrollDown, sb.x + 2, sb.y + 2), frame_area);
    assert_eq!(down.len(), 1);
    assert!(matches!(down[0], Action::SidebarScroll(1)));
    let up = app.map_mouse_event(mouse_event(MouseEventKind::ScrollUp, sb.x + 2, sb.y + 2), frame_area);
    assert_eq!(up.len(), 1);
    assert!(matches!(up[0], Action::SidebarScroll(-1)));
}

#[test]
fn mouse_left_click_chat_starts_selection() {
    let mut app = make_app();
    app.screen = Screen::Chat;
    app.chat.chat_area = Some(Rect::new(0, 0, 80, 30));
    let actions = app.map_mouse_event(
        mouse_event(MouseEventKind::Down(MouseButton::Left), 5, 5),
        Rect::new(0, 0, 120, 40),
    );
    assert_eq!(actions.len(), 1);
    assert!(matches!(actions[0], Action::TextSelectionStart { .. }));
}

#[test]
fn mouse_left_click_outside_chat_clears_selection() {
    let mut app = make_app();
    app.screen = Screen::Chat;
    app.sidebar.visible = false;
    app.chat.chat_area = Some(Rect::new(10, 10, 60, 20));
    let actions = app.map_mouse_event(
        mouse_event(MouseEventKind::Down(MouseButton::Left), 5, 5),
        Rect::new(0, 0, 120, 40),
    );
    assert_eq!(actions.len(), 1);
    assert!(matches!(actions[0], Action::TextSelectionClear));
}

#[test]
fn mouse_drag_chat_when_dragging() {
    let mut app = make_app();
    app.screen = Screen::Chat;
    app.sidebar.visible = false;
    app.chat.chat_area = Some(Rect::new(0, 0, 80, 30));
    app.chat.text_selection.dragging = true;
    let actions = app.map_mouse_event(
        mouse_event(MouseEventKind::Drag(MouseButton::Left), 10, 10),
        Rect::new(0, 0, 120, 40),
    );
    assert_eq!(actions.len(), 1);
    assert!(matches!(actions[0], Action::TextSelectionDrag { .. }));
}

#[test]
fn mouse_drag_chat_not_dragging_ignored() {
    let mut app = make_app();
    app.screen = Screen::Chat;
    app.sidebar.visible = false;
    app.chat.chat_area = Some(Rect::new(0, 0, 80, 30));
    app.chat.text_selection.dragging = false;
    let actions = app.map_mouse_event(
        mouse_event(MouseEventKind::Drag(MouseButton::Left), 10, 10),
        Rect::new(0, 0, 120, 40),
    );
    assert!(actions.is_empty());
}

#[test]
fn mouse_release_chat_when_dragging() {
    let mut app = make_app();
    app.screen = Screen::Chat;
    app.sidebar.visible = false;
    app.chat.chat_area = Some(Rect::new(0, 0, 80, 30));
    app.chat.text_selection.dragging = true;
    let actions = app.map_mouse_event(
        mouse_event(MouseEventKind::Up(MouseButton::Left), 10, 10),
        Rect::new(0, 0, 120, 40),
    );
    assert_eq!(actions.len(), 1);
    assert!(matches!(actions[0], Action::TextSelectionEnd { .. }));
}

#[test]
fn mouse_scroll_chat() {
    let mut app = make_app();
    app.screen = Screen::Chat;
    app.sidebar.visible = false;
    app.chat.chat_area = Some(Rect::new(0, 0, 80, 30));
    let down = app.map_mouse_event(mouse_event(MouseEventKind::ScrollDown, 10, 10), Rect::new(0, 0, 120, 40));
    assert_eq!(down.len(), 2);
    assert!(matches!(down[0], Action::ScrollDown(3)));
    assert!(matches!(down[1], Action::TextSelectionClear));
    let up = app.map_mouse_event(mouse_event(MouseEventKind::ScrollUp, 10, 10), Rect::new(0, 0, 120, 40));
    assert_eq!(up.len(), 2);
    assert!(matches!(up[0], Action::ScrollUp(3)));
}

#[test]
fn mouse_no_sidebar_no_chat_returns_empty() {
    let mut app = make_app();
    app.screen = Screen::Chat;
    app.sidebar.visible = false;
    app.chat.chat_area = None;
    let actions = app.map_mouse_event(
        mouse_event(MouseEventKind::Down(MouseButton::Left), 10, 10),
        Rect::new(0, 0, 120, 40),
    );
    assert!(actions.is_empty());
}

#[test]
fn mouse_hover_sidebar_out_of_range_clears() {
    let mut app = setup_sidebar_app();
    app.session.session_list = vec![make_session_entry("s1", "hello")];
    let frame_area = Rect::new(0, 0, 120, 40);
    let sb = app.compute_sidebar_area(frame_area).unwrap();
    let actions = app.map_mouse_event(mouse_event(MouseEventKind::Moved, sb.x + 2, sb.y + 38), frame_area);
    assert!(actions.iter().any(|a| matches!(a, Action::SidebarHover(None))));
}

#[test]
fn update_toggle_sidebar_focus() {
    let mut app = make_app();
    app.sidebar.visible = true;
    app.screen = Screen::Chat;
    app.session.session_list = vec![make_session_entry("s1", "hi")];
    assert!(!app.sidebar.focused);
    app.update(Action::ToggleSidebarFocus);
    assert!(app.sidebar.focused);
    app.update(Action::ToggleSidebarFocus);
    assert!(!app.sidebar.focused);
}

#[test]
fn update_close_model_browser() {
    let mut app = make_app();
    app.open_model_browser("openai".into(), sample_models(), String::new(), "ok".into());
    assert!(matches!(app.state, AppState::ModelBrowsing { .. }));
    app.update(Action::CloseModelBrowser);
    assert_eq!(app.state, AppState::Idle);
}

#[test]
fn update_close_session_browser() {
    let mut app = make_app();
    app.open_session_browser();
    assert!(matches!(app.state, AppState::SessionBrowsing { .. }));
    app.update(Action::CloseSessionBrowser);
    assert_eq!(app.state, AppState::Idle);
}

#[test]
fn update_mark_model_refreshing() {
    let mut app = make_app();
    app.open_model_browser("openai".into(), sample_models(), String::new(), "ok".into());
    app.update(Action::MarkModelRefreshing);
    if let AppState::ModelBrowsing { last_sync_status, .. } = &app.state {
        assert!(last_sync_status.contains("efresh"));
    }
}

#[test]
fn update_model_catalog() {
    let mut app = make_app();
    app.open_model_browser("openai".into(), Vec::new(), String::new(), "loading".into());
    let new_entries = sample_models();
    app.update(Action::UpdateModelCatalog {
        provider: "openai".into(),
        entries: new_entries.clone(),
        sync_status: "synced".into(),
    });
    if let AppState::ModelBrowsing { last_sync_status, .. } = &app.state {
        assert_eq!(app.model.model_entries.len(), new_entries.len());
        assert_eq!(last_sync_status, "synced");
    } else {
        panic!("expected ModelBrowsing state");
    }
}

#[test]
fn update_remove_session() {
    let mut app = make_app();
    app.session.session_list = vec![make_session_entry("s1", "a"), make_session_entry("s2", "b")];
    app.update(Action::RemoveSession("s1".to_string()));
    assert_eq!(app.session.session_list.len(), 1);
    assert_eq!(app.session.session_list[0].id.as_str(), "s2");
}

#[test]
fn update_refresh_session_list() {
    let mut app = make_app();
    app.session.session_list = vec![make_session_entry("old", "x")];
    let new_list = vec![make_session_entry("n1", "a"), make_session_entry("n2", "b")];
    app.update(Action::RefreshSessionList(new_list));
    assert_eq!(app.session.session_list.len(), 2);
    assert_eq!(app.session.session_list[0].id.as_str(), "n1");
}

#[test]
fn update_load_session() {
    let mut app = make_app();
    let sid = "test-session".to_string();
    let msgs = vec![AgentMessage { role: Role::User, content: "hi".to_string(), tool_calls: None, tool_name: None }];
    app.update(Action::LoadSession { session_id: sid.clone(), messages: msgs });
    assert_eq!(app.session.session_id, sid);
    assert!(!app.chat.messages.is_empty());
}

#[test]
fn update_slash_command_clear() {
    let mut app = make_app();
    app.push_user("hello".into());
    app.push_assistant("world".into());
    assert!(!app.chat.messages.is_empty());
    app.update(Action::SlashCommand("/clear".into()));
    assert!(app.chat.messages.is_empty());
}

#[test]
fn update_slash_command_quit() {
    let mut app = make_app();
    assert!(!app.should_quit);
    app.update(Action::SlashCommand("/quit".into()));
    assert!(app.should_quit);
}

#[test]
fn update_palette_move_down() {
    let mut app = make_app();
    app.chat.input = "/".to_string();
    app.command_palette_cursor = 0;
    app.update(Action::PaletteMoveDown);
    assert!(app.command_palette_cursor >= 1 || app.palette_filtered_commands().len() <= 1);
}

#[test]
fn update_palette_tab_complete() {
    let mut app = make_app();
    app.chat.input = "/".to_string();
    app.command_palette_cursor = 0;
    app.update(Action::PaletteTabComplete);
    assert!(app.chat.input.starts_with('/'));
    assert!(app.chat.input.len() > 1);
}

#[test]
fn update_palette_select() {
    let mut app = make_app();
    app.chat.input = "/".to_string();
    app.command_palette_cursor = 0;
    app.update(Action::PaletteSelect);
}

#[test]
fn update_open_login_browser() {
    let mut app = make_app();
    app.update(Action::OpenLoginBrowser(None));
    assert!(matches!(app.state, AppState::LoginBrowsing(_)));
}

#[test]
fn update_cancel_auth() {
    let mut app = make_app();
    app.update(Action::OpenLoginBrowser(None));
    assert!(matches!(app.state, AppState::LoginBrowsing(_)));
    app.update(Action::CancelAuth);
    assert_eq!(app.state, AppState::Idle);
}

#[test]
fn update_text_selection_end_clears_dragging() {
    let mut app = make_app();
    app.update(Action::TextSelectionStart { row: 0, col: 0 });
    assert!(app.chat.text_selection.dragging);
    app.update(Action::TextSelectionEnd { row: 1, col: 5 });
    assert!(!app.chat.text_selection.dragging);
}

#[test]
fn update_apply_progress_via_update() {
    let mut app = make_app();
    app.update(Action::ApplyProgress(ProgressEvent::ToolCallStarted {
        call_id: "c1".into(),
        tool_name: "bash".into(),
        args: "{}".into(),
    }));
    assert!(!app.chat.messages.is_empty());
}

fn make_sidebar_app() -> TuiApp {
    let mut app = make_app();
    app.sidebar.visible = true;
    app.screen = Screen::Chat;
    app.session.session_list = vec![make_session_entry("s1", "Hello world"), make_session_entry("s2", "Goodbye world")];
    app
}

fn sidebar_frame() -> Rect {
    Rect::new(0, 0, 100, 50)
}

#[test]
fn mouse_sidebar_click_selects_first_session() {
    let app = make_sidebar_app();
    let actions = app.map_mouse_event(mouse_event(MouseEventKind::Down(MouseButton::Left), 75, 2), sidebar_frame());
    assert_eq!(actions.len(), 2);
    assert!(matches!(actions[0], Action::SidebarHover(Some(0))));
    assert!(matches!(actions[1], Action::SelectSidebarSession));
}

#[test]
fn mouse_sidebar_click_selects_second_session() {
    let app = make_sidebar_app();
    let actions = app.map_mouse_event(mouse_event(MouseEventKind::Down(MouseButton::Left), 75, 5), sidebar_frame());
    assert_eq!(actions.len(), 2);
    assert!(matches!(actions[0], Action::SidebarHover(Some(1))));
    assert!(matches!(actions[1], Action::SelectSidebarSession));
}

#[test]
fn mouse_sidebar_click_beyond_entries_returns_empty() {
    let app = make_sidebar_app();
    let actions = app.map_mouse_event(mouse_event(MouseEventKind::Down(MouseButton::Left), 75, 8), sidebar_frame());
    assert!(actions.is_empty());
}

#[test]
fn mouse_sidebar_moved_hovers_session() {
    let app = make_sidebar_app();
    let actions = app.map_mouse_event(mouse_event(MouseEventKind::Moved, 75, 2), sidebar_frame());
    assert_eq!(actions.len(), 1);
    assert!(matches!(actions[0], Action::SidebarHover(Some(0))));
}

#[test]
fn mouse_sidebar_moved_beyond_entries_clears_hover() {
    let app = make_sidebar_app();
    let actions = app.map_mouse_event(mouse_event(MouseEventKind::Moved, 75, 8), sidebar_frame());
    assert_eq!(actions.len(), 1);
    assert!(matches!(actions[0], Action::SidebarHover(None)));
}

#[test]
fn mouse_sidebar_moved_outside_clears_hover() {
    let app = make_sidebar_app();
    let actions = app.map_mouse_event(mouse_event(MouseEventKind::Moved, 30, 5), sidebar_frame());
    assert_eq!(actions.len(), 1);
    assert!(matches!(actions[0], Action::SidebarHover(None)));
}

#[test]
fn mouse_sidebar_scroll_down() {
    let app = make_sidebar_app();
    let actions = app.map_mouse_event(mouse_event(MouseEventKind::ScrollDown, 75, 5), sidebar_frame());
    assert_eq!(actions.len(), 1);
    assert!(matches!(actions[0], Action::SidebarScroll(1)));
}

#[test]
fn mouse_sidebar_scroll_up() {
    let app = make_sidebar_app();
    let actions = app.map_mouse_event(mouse_event(MouseEventKind::ScrollUp, 75, 5), sidebar_frame());
    assert_eq!(actions.len(), 1);
    assert!(matches!(actions[0], Action::SidebarScroll(-1)));
}

#[test]
fn mouse_sidebar_hidden_returns_empty_for_click() {
    let mut app = make_sidebar_app();
    app.sidebar.visible = false;
    let actions = app.map_mouse_event(mouse_event(MouseEventKind::Down(MouseButton::Left), 75, 5), sidebar_frame());
    assert!(actions.is_empty());
}

fn make_chat_app() -> TuiApp {
    let mut app = make_app();
    app.sidebar.visible = false;
    app.screen = Screen::Chat;
    app.chat.chat_area = Some(Rect::new(0, 0, 80, 24));
    app
}

#[test]
fn mouse_chat_left_down_in_inner_starts_selection() {
    let app = make_chat_app();
    let actions = app.map_mouse_event(mouse_event(MouseEventKind::Down(MouseButton::Left), 5, 5), Rect::new(0, 0, 80, 24));
    assert_eq!(actions.len(), 1);
    assert!(matches!(actions[0], Action::TextSelectionStart { row: 4, col: 4 }));
}

#[test]
fn mouse_chat_left_down_outside_inner_clears_selection() {
    let app = make_chat_app();
    let actions = app.map_mouse_event(mouse_event(MouseEventKind::Down(MouseButton::Left), 0, 0), Rect::new(0, 0, 80, 24));
    assert_eq!(actions.len(), 1);
    assert!(matches!(actions[0], Action::TextSelectionClear));
}

#[test]
fn mouse_chat_drag_while_dragging() {
    let mut app = make_chat_app();
    app.chat.text_selection.dragging = true;
    let actions = app.map_mouse_event(mouse_event(MouseEventKind::Drag(MouseButton::Left), 10, 10), Rect::new(0, 0, 80, 24));
    assert_eq!(actions.len(), 1);
    assert!(matches!(actions[0], Action::TextSelectionDrag { row: 9, col: 9 }));
}

#[test]
fn mouse_chat_drag_not_dragging_is_empty() {
    let app = make_chat_app();
    let actions = app.map_mouse_event(mouse_event(MouseEventKind::Drag(MouseButton::Left), 10, 10), Rect::new(0, 0, 80, 24));
    assert!(actions.is_empty());
}

#[test]
fn mouse_chat_up_while_dragging() {
    let mut app = make_chat_app();
    app.chat.text_selection.dragging = true;
    let actions = app.map_mouse_event(mouse_event(MouseEventKind::Up(MouseButton::Left), 10, 10), Rect::new(0, 0, 80, 24));
    assert_eq!(actions.len(), 1);
    assert!(matches!(actions[0], Action::TextSelectionEnd { row: 9, col: 9 }));
}

#[test]
fn mouse_chat_up_not_dragging_is_empty() {
    let app = make_chat_app();
    let actions = app.map_mouse_event(mouse_event(MouseEventKind::Up(MouseButton::Left), 10, 10), Rect::new(0, 0, 80, 24));
    assert!(actions.is_empty());
}

#[test]
fn mouse_chat_scroll_down() {
    let app = make_chat_app();
    let actions = app.map_mouse_event(mouse_event(MouseEventKind::ScrollDown, 5, 5), Rect::new(0, 0, 80, 24));
    assert_eq!(actions.len(), 2);
    assert!(matches!(actions[0], Action::ScrollDown(3)));
    assert!(matches!(actions[1], Action::TextSelectionClear));
}

#[test]
fn mouse_chat_scroll_up() {
    let app = make_chat_app();
    let actions = app.map_mouse_event(mouse_event(MouseEventKind::ScrollUp, 5, 5), Rect::new(0, 0, 80, 24));
    assert_eq!(actions.len(), 2);
    assert!(matches!(actions[0], Action::ScrollUp(3)));
    assert!(matches!(actions[1], Action::TextSelectionClear));
}

#[test]
fn mouse_chat_scroll_outside_chat_area_is_empty() {
    let mut app = make_chat_app();
    app.chat.chat_area = Some(Rect::new(10, 10, 40, 10));
    let actions = app.map_mouse_event(mouse_event(MouseEventKind::ScrollDown, 5, 5), Rect::new(0, 0, 80, 24));
    assert!(actions.is_empty());
}

#[test]
fn mouse_no_sidebar_no_chat_click_returns_empty() {
    let mut app = make_app();
    app.sidebar.visible = false;
    app.chat.chat_area = None;
    let actions = app.map_mouse_event(mouse_event(MouseEventKind::Down(MouseButton::Left), 40, 20), Rect::new(0, 0, 100, 50));
    assert!(actions.is_empty());
}

#[test]
fn mouse_sidebar_scroll_outside_sidebar_falls_through() {
    let mut app = make_sidebar_app();
    app.chat.chat_area = Some(Rect::new(0, 0, 70, 50));
    let actions = app.map_mouse_event(mouse_event(MouseEventKind::ScrollDown, 30, 25), sidebar_frame());
    assert_eq!(actions.len(), 2);
    assert!(matches!(actions[0], Action::ScrollDown(3)));
    assert!(matches!(actions[1], Action::TextSelectionClear));
}

#[test]
fn mouse_chat_drag_clamps_to_inner_bounds() {
    let mut app = make_chat_app();
    app.chat.text_selection.dragging = true;
    let actions = app.map_mouse_event(mouse_event(MouseEventKind::Drag(MouseButton::Left), 200, 100), Rect::new(0, 0, 80, 24));
    assert_eq!(actions.len(), 1);
    assert!(matches!(actions[0], Action::TextSelectionDrag { row: 21, col: 77 }));
}
