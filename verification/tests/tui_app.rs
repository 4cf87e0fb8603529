use openpista_tui::app::{ProgressEvent, SlashCommand};
use openpista_tui::browse::{AgentMessage, Role, ToolCallRecord};
use openpista_tui::catalog::{ModelCatalogEntry, ModelSource, ModelStatus};
use openpista_tui::keys::{KeyCode, KeyEvent, KeyModifiers};
use openpista_tui::providers::LoginBrowseStep;
use openpista_tui::state::{AppState, LoginBrowsingState, SessionEntry, TuiApp, TuiMessage};

fn make_app() -> TuiApp {
    TuiApp::new("gpt-4o", "session-test".to_string(), "cli:tui".to_string(), "openai")
}

fn key(code: KeyCode) -> KeyEvent {
    KeyEvent::new(code, KeyModifiers::NONE)
}

fn sample_models() -> Vec<ModelCatalogEntry> {
    vec![
        ModelCatalogEntry {
            id: "gpt-5-codex".to_string(),
            provider: String::new(),
            recommended_for_coding: true,
            status: ModelStatus::Stable,
            source: ModelSource::Docs,
            available: true,
        },
        ModelCatalogEntry {
            id: "cohere-4.6".to_string(),
            provider: String::new(),
            recommended_for_coding: true,
            status: ModelStatus::Stable,
            source: ModelSource::Docs,
            available: true,
        },
    ]
}

fn make_session_entry(id: &str, preview: &str) -> SessionEntry {
    SessionEntry {
        id: id.to_string(),
        channel_id: "cli:tui".to_string(),
        updated_at: 1_700_000_000,
        preview: preview.to_string(),
    }
}

fn auth_prompt() -> AppState {
    AppState::AuthPrompting {
        provider: "together".to_string(),
        env_name: "TOGETHER_API_KEY".to_string(),
        endpoint: None,
        endpoint_env: None,
    }
}

#[test]
fn mod_apply_progress_tool_started_updates_state() {
    let mut app = make_app();
    app.apply_progress(ProgressEvent::ToolCallStarted {
        call_id: "c1".into(),
        tool_name: "system.run".into(),
        args: "{\"command\":\"ls\"}".into(),
    });
    assert_eq!(app.chat.messages.len(), 1);
    assert!(matches!(&app.chat.messages[0], TuiMessage::ToolCall { .. }));
    assert_eq!(app.state, AppState::ExecutingTool { tool_name: "system.run".into() });
}

#[test]
fn mod_apply_progress_tool_finished_adds_result() {
    let mut app = make_app();
    app.apply_progress(ProgressEvent::ToolCallStarted {
        call_id: "c1".into(),
        tool_name: "system.run".into(),
        args: "{}".into(),
    });
    app.apply_progress(ProgressEvent::ToolCallFinished {
        call_id: "c1".into(),
        tool_name: "system.run".into(),
        output: "file1.rs\nfile2.rs".into(),
        is_error: false,
    });
    assert_eq!(app.chat.messages.len(), 2);
    assert!(matches!(&app.chat.messages[1], TuiMessage::ToolResult { is_error: false, .. }));
}

#[test]
fn mod_apply_completion_ok_pushes_assistant() {
    let mut app = make_app();
    app.state = AppState::Thinking { round: 0 };
    app.apply_completion(Ok("hello world".into()));
    assert_eq!(app.chat.messages.len(), 1);
    assert!(matches!(&app.chat.messages[0], TuiMessage::Assistant(t) if t == "hello world"));
    assert_eq!(app.state, AppState::Idle);
}

#[test]
fn mod_apply_completion_err_pushes_error() {
    let mut app = make_app();
    app.state = AppState::Thinking { round: 0 };
    app.apply_completion(Err("rate limit exceeded".into()));
    assert_eq!(app.chat.messages.len(), 1);
    assert!(matches!(&app.chat.messages[0], TuiMessage::Error(_)));
    assert_eq!(app.state, AppState::Idle);
}

#[test]
fn mod_handle_key_inserts_chars() {
    let mut app = make_app();
    app.handle_key(key(KeyCode::Char('a')));
    app.handle_key(key(KeyCode::Char('b')));
    assert_eq!(app.chat.input, "ab");
    assert_eq!(app.chat.cursor_pos, 2);
}

#[test]
fn mod_handle_key_backspace_deletes() {
    let mut app = make_app();
    app.handle_key(key(KeyCode::Char('x')));
    app.handle_key(key(KeyCode::Backspace));
    assert_eq!(app.chat.input, "");
    assert_eq!(app.chat.cursor_pos, 0);
}

#[test]
fn mod_handle_key_ignores_input_when_thinking() {
    let mut app = make_app();
    app.state = AppState::Thinking { round: 0 };
    app.handle_key(key(KeyCode::Char('a')));
    assert_eq!(app.chat.input, "");
}

#[test]
fn mod_handle_key_accepts_input_when_auth_prompting() {
    let mut app = make_app();
    app.state = auth_prompt();
    app.handle_key(key(KeyCode::Char('s')));
    app.handle_key(key(KeyCode::Char('k')));
    assert_eq!(app.chat.input, "sk");
}

#[test]
fn mod_handle_key_escape_cancels_auth_prompt() {
    let mut app = make_app();
    app.state = auth_prompt();
    app.chat.input = "secret".to_string();
    app.chat.cursor_pos = app.chat.input.len();
    app.handle_key(key(KeyCode::Esc));
    assert_eq!(app.state, AppState::Idle);
    assert_eq!(app.chat.input, "");
    assert_eq!(app.chat.cursor_pos, 0);
    assert!(
        matches!(app.chat.messages.last(), Some(TuiMessage::Assistant(text)) if text.contains("cancelled"))
    );
}

#[test]
fn mod_take_auth_submission_moves_to_validating() {
    let mut app = make_app();
    app.state = auth_prompt();
    app.chat.input = "  sk-test  ".to_string();
    app.chat.cursor_pos = app.chat.input.len();
    let submission = app.take_auth_submission().expect("submission expected");
    assert_eq!(submission.provider, "together");
    assert_eq!(submission.env_name, "TOGETHER_API_KEY");
    assert_eq!(submission.endpoint, None);
    assert_eq!(submission.api_key, "sk-test");
    assert_eq!(app.chat.input, "");
    assert_eq!(app.state, AppState::AuthValidating { provider: "together".to_string() });
}

#[test]
fn mod_apply_progress_llm_thinking_sets_state_round() {
    let mut app = make_app();
    app.apply_progress(ProgressEvent::LlmThinking { round: 3 });
    assert_eq!(app.state, AppState::Thinking { round: 3 });
}

#[test]
fn mod_apply_progress_marks_latest_matching_tool_call_done() {
    let mut app = make_app();
    app.apply_progress(ProgressEvent::ToolCallStarted {
        call_id: "c1".into(),
        tool_name: "system.run".into(),
        args: "{\"command\":\"echo 1\"}".into(),
    });
    app.apply_progress(ProgressEvent::ToolCallStarted {
        call_id: "c2".into(),
        tool_name: "system.run".into(),
        args: "{\"command\":\"echo 2\"}".into(),
    });
    app.apply_progress(ProgressEvent::ToolCallFinished {
        call_id: "c2".into(),
        tool_name: "system.run".into(),
        output: "ok".into(),
        is_error: false,
    });
    assert!(matches!(&app.chat.messages[0], TuiMessage::ToolCall { done: false, .. }));
    assert!(matches!(&app.chat.messages[1], TuiMessage::ToolCall { done: true, .. }));
}

#[test]
fn mod_handle_key_moves_cursor_left_and_right_with_utf8() {
    let mut app = make_app();
    app.chat.input = "a한b".into();
    app.chat.cursor_pos = app.chat.input.len();
    app.handle_key(key(KeyCode::Left));
    assert_eq!(app.chat.cursor_pos, "a한".len());
    app.handle_key(key(KeyCode::Left));
    assert_eq!(app.chat.cursor_pos, "a".len());
    app.handle_key(key(KeyCode::Right));
    assert_eq!(app.chat.cursor_pos, "a한".len());
    app.handle_key(key(KeyCode::Right));
    assert_eq!(app.chat.cursor_pos, "a한b".len());
}

#[test]
fn mod_handle_key_scroll_shortcuts_update_history_scroll() {
    let mut app = make_app();
    app.chat.history_scroll = 5;
    app.handle_key(key(KeyCode::Up));
    assert_eq!(app.chat.history_scroll, 4);
    app.handle_key(key(KeyCode::Down));
    assert_eq!(app.chat.history_scroll, 5);
    app.handle_key(key(KeyCode::PageUp));
    assert_eq!(app.chat.history_scroll, 0);
    app.handle_key(key(KeyCode::PageDown));
    assert_eq!(app.chat.history_scroll, 10);
}

#[test]
fn mod_handle_key_quit_shortcuts_only_when_idle() {
    let mut app = make_app();
    app.handle_key(key(KeyCode::Esc));
    assert!(app.should_quit);
    app.should_quit = false;
    app.state = AppState::Thinking { round: 1 };
    app.handle_key(key(KeyCode::Esc));
    assert!(!app.should_quit);
    app.state = AppState::Idle;
    app.handle_key(KeyEvent::new(KeyCode::Char('c'), KeyModifiers::CONTROL));
    assert!(app.should_quit);
}

#[test]
fn mod_model_browser_enter_selects_model_for_session() {
    let mut app = make_app();
    app.open_model_browser(
        "openai".to_string(),
        sample_models(),
        String::new(),
        "Synced from remote".to_string(),
    );
    app.handle_key(key(KeyCode::Down));
    app.handle_key(key(KeyCode::Enter));
    assert_eq!(app.model.model_name, "gpt-5-codex");
    assert_eq!(app.state, AppState::Idle);
    assert!(matches!(
        app.chat.messages.last(),
        Some(TuiMessage::Assistant(text)) if text.contains("Selected model")
    ));
}

#[test]
fn mod_model_browser_refresh_hotkey_sets_request_flag() {
    let mut app = make_app();
    app.open_model_browser(
        "openai".to_string(),
        sample_models(),
        String::new(),
        "Synced from remote".to_string(),
    );
    app.handle_key(key(KeyCode::Char('r')));
    assert!(app.take_model_refresh_request());
    assert!(!app.take_model_refresh_request());
}

#[test]
fn mod_model_browser_search_mode_esc_then_close() {
    let mut app = make_app();
    app.open_model_browser(
        "openai".to_string(),
        sample_models(),
        String::new(),
        "Synced from remote".to_string(),
    );
    app.handle_key(key(KeyCode::Char('s')));
    assert!(matches!(app.state, AppState::ModelBrowsing { search_active: true, .. }));
    app.handle_key(key(KeyCode::Esc));
    assert!(matches!(app.state, AppState::ModelBrowsing { search_active: false, .. }));
    app.handle_key(key(KeyCode::Esc));
    assert_eq!(app.state, AppState::Idle);
}

#[test]
fn mod_model_browser_slash_starts_search_mode() {
    let mut app = make_app();
    app.open_model_browser(
        "openai".to_string(),
        sample_models(),
        String::new(),
        "Synced from remote".to_string(),
    );
    app.handle_key(key(KeyCode::Char('/')));
    assert!(matches!(app.state, AppState::ModelBrowsing { search_active: true, .. }));
}

#[test]
fn mod_take_input_resets() {
    let mut app = make_app();
    app.chat.input = "hello".into();
    app.chat.cursor_pos = 5;
    let taken = app.take_input();
    assert_eq!(taken, "hello");
    assert_eq!(app.chat.input, "");
    assert_eq!(app.chat.cursor_pos, 0);
}

#[test]
fn mod_handle_slash_command_help_pushes_local_message() {
    let mut app = make_app();
    let handled = app.handle_slash_command("/help");
    assert!(handled);
    assert!(matches!(&app.chat.messages[0], TuiMessage::Assistant(_)));
}

#[test]
fn mod_handle_slash_command_login_opens_login_browser_with_seed() {
    let mut app = make_app();
    let handled = app.handle_slash_command("/login openai");
    assert!(handled);
    assert!(matches!(
        &app.state,
        AppState::LoginBrowsing(LoginBrowsingState { query, step, .. }) if query == "openai" && *step == LoginBrowseStep::SelectProvider
    ));
    assert!(app.chat.messages.is_empty());
}

#[test]
fn mod_handle_slash_command_login_without_provider_opens_browser() {
    let mut app = make_app();
    let handled = app.handle_slash_command("/login");
    assert!(handled);
    assert!(
        matches!(&app.state, AppState::LoginBrowsing(LoginBrowsingState { query, .. }) if query.is_empty())
    );
}

#[test]
fn mod_handle_slash_command_connection_alias_opens_login_browser() {
    let mut app = make_app();
    let handled = app.handle_slash_command("/connection copilot");
    assert!(handled);
    assert!(matches!(
        &app.state,
        AppState::LoginBrowsing(LoginBrowsingState { query, .. }) if query == "copilot"
    ));
}

#[test]
fn mod_handle_key_login_browser_enter_opens_method_step_for_openai() {
    let mut app = make_app();
    app.open_login_browser(Some("openai".to_string()));
    app.handle_key(key(KeyCode::Enter));
    assert!(matches!(
        &app.state,
        AppState::LoginBrowsing(LoginBrowsingState { step, selected_provider, .. })
            if *step == LoginBrowseStep::SelectMethod && selected_provider.as_deref() == Some("openai")
    ));
}

#[test]
fn mod_handle_slash_command_clear_clears_history() {
    let mut app = make_app();
    app.push_user("hi".into());
    app.push_assistant("hello".into());
    let handled = app.handle_slash_command("/clear");
    assert!(handled);
    assert!(app.chat.messages.is_empty());
    assert_eq!(app.chat.history_scroll, 0);
}

#[test]
fn mod_handle_slash_command_quit_sets_should_quit() {
    let mut app = make_app();
    let handled = app.handle_slash_command("/quit");
    assert!(handled);
    assert!(app.should_quit);
}

#[test]
fn mod_handle_slash_command_unknown_adds_error() {
    let mut app = make_app();
    let handled = app.handle_slash_command("/nope");
    assert!(handled);
    assert!(matches!(&app.chat.messages[0], TuiMessage::Error(_)));
}

#[test]
fn handle_slash_command_whatsapp_is_consumed_without_local_side_effect() {
    let mut app = make_app();
    let handled = app.handle_slash_command("/whatsapp");
    assert!(handled);
    assert!(app.chat.messages.is_empty());
    assert!(!app.should_quit);
}

#[test]
fn handle_slash_command_telegram_is_consumed_without_local_side_effect() {
    let mut app = make_app();
    let handled = app.handle_slash_command("/telegram");
    assert!(handled);
    assert!(app.chat.messages.is_empty());
    assert!(!app.should_quit);
}

#[test]
fn mod_handle_slash_command_returns_false_for_plain_message() {
    let mut app = make_app();
    let handled = app.handle_slash_command("hello");
    assert!(!handled);
    assert!(app.chat.messages.is_empty());
}

#[test]
fn mod_app_state_equality() {
    assert_eq!(AppState::Idle, AppState::Idle);
    assert_eq!(AppState::Thinking { round: 1 }, AppState::Thinking { round: 1 });
    assert_ne!(AppState::Idle, AppState::Thinking { round: 1 });
}

#[test]
fn mod_scroll_to_bottom_sets_max() {
    let mut app = make_app();
    app.scroll_to_bottom();
    assert_eq!(app.chat.history_scroll, u16::MAX);
}

#[test]
fn mod_command_picker_activates_on_slash() {
    let mut app = make_app();
    assert!(!app.is_palette_active());
    app.handle_key(key(KeyCode::Char('/')));
    assert!(app.is_palette_active());
    assert!(app.chat.input.starts_with('/'));
}

#[test]
fn mod_command_picker_filters_by_query() {
    let mut app = make_app();
    app.handle_key(key(KeyCode::Char('/')));
    app.handle_key(key(KeyCode::Char('h')));
    app.handle_key(key(KeyCode::Char('e')));
    assert!(app.is_palette_active());
    let cmds: Vec<SlashCommand> = app.palette_filtered_commands();
    assert_eq!(cmds.len(), 1);
    assert_eq!(cmds[0].name, "/help");
}

#[test]
fn mod_command_picker_cursor_navigation() {
    let mut app = make_app();
    app.handle_key(key(KeyCode::Char('/')));
    assert_eq!(app.command_palette_cursor, 0);
    app.handle_key(key(KeyCode::Down));
    assert_eq!(app.command_palette_cursor, 1);
    app.handle_key(key(KeyCode::Down));
    assert_eq!(app.command_palette_cursor, 2);
    app.handle_key(key(KeyCode::Up));
    assert_eq!(app.command_palette_cursor, 1);
    app.handle_key(key(KeyCode::Up));
    app.handle_key(key(KeyCode::Up));
    assert_eq!(app.command_palette_cursor, 0);
}

#[test]
fn mod_command_picker_enter_selects() {
    let mut app = make_app();
    app.handle_key(key(KeyCode::Char('/')));
    app.handle_key(key(KeyCode::Char('h')));
    app.handle_key(key(KeyCode::Char('e')));
    assert!(app.is_palette_active());
    let cmd = app.take_palette_command();
    assert_eq!(cmd, Some("/help".to_string()));
    assert_eq!(app.chat.input, "/help");
    assert_eq!(app.command_palette_cursor, 0);
}

#[test]
fn mod_command_picker_esc_cancels() {
    let mut app = make_app();
    app.handle_key(key(KeyCode::Char('/')));
    app.handle_key(key(KeyCode::Char('h')));
    assert!(app.is_palette_active());
    app.handle_key(key(KeyCode::Esc));
    assert!(!app.is_palette_active());
    assert_eq!(app.chat.input, "");
    assert_eq!(app.chat.cursor_pos, 0);
    assert_eq!(app.command_palette_cursor, 0);
}

#[test]
fn mod_command_picker_deactivates_on_non_slash() {
    let mut app = make_app();
    app.handle_key(key(KeyCode::Char('/')));
    assert!(app.is_palette_active());
    app.handle_key(key(KeyCode::Backspace));
    assert!(!app.is_palette_active());
    assert_eq!(app.chat.input, "");
}

#[test]
fn mod_toggle_sidebar_focus_flips_state() {
    let mut app = make_app();
    assert!(!app.sidebar.focused);
    app.toggle_sidebar_focus();
    assert!(app.sidebar.focused);
    app.toggle_sidebar_focus();
    assert!(!app.sidebar.focused);
}

#[test]
fn mod_select_sidebar_session_returns_hovered_id() {
    let mut app = make_app();
    app.session.session_list = vec![make_session_entry("s1", "hello"), make_session_entry("s2", "world")];
    app.sidebar.hover = Some(1);
    let selected = app.select_sidebar_session();
    assert_eq!(selected.as_ref().map(|s| s.as_str()), Some("s2"));
    assert_eq!(app.session.pending_sidebar_selection.as_ref().map(|s| s.as_str()), Some("s2"));
    assert!(!app.sidebar.focused);
}

fn agent_message(role: Role, content: &str) -> AgentMessage {
    AgentMessage { role, content: content.to_string(), tool_calls: None, tool_name: None }
}

#[test]
fn mod_select_sidebar_session_returns_none_when_no_hover() {
    let mut app = make_app();
    app.session.session_list = vec![make_session_entry("s1", "hello")];
    app.sidebar.hover = None;
    assert!(app.select_sidebar_session().is_none());
}

#[test]
fn mod_request_delete_session_transitions_to_confirm_delete() {
    let mut app = make_app();
    app.session.session_list = vec![make_session_entry("s1", "hello world")];
    app.sidebar.hover = Some(0);
    let del_id = app.request_delete_session();
    assert_eq!(del_id.as_ref().map(|s| s.as_str()), Some("s1"));
    assert!(matches!(app.state, AppState::ConfirmDelete { .. }));
}

#[test]
fn mod_request_delete_session_returns_none_when_no_hover() {
    let mut app = make_app();
    app.session.session_list = vec![make_session_entry("s1", "hello")];
    app.sidebar.hover = None;
    assert!(app.request_delete_session().is_none());
}

#[test]
fn mod_remove_session_from_list_removes_entry() {
    let mut app = make_app();
    app.session.session_list = vec![
        make_session_entry("s1", "hello"),
        make_session_entry("s2", "world"),
        make_session_entry("s3", "foo"),
    ];
    app.sidebar.hover = Some(2);
    app.remove_session_from_list("s2");
    assert_eq!(app.session.session_list.len(), 2);
    assert_eq!(app.session.session_list[0].id.as_str(), "s1");
    assert_eq!(app.session.session_list[1].id.as_str(), "s3");
    assert!(app.sidebar.hover.unwrap() < app.session.session_list.len());
}

#[test]
fn mod_remove_session_from_list_clears_hover_when_empty() {
    let mut app = make_app();
    app.session.session_list = vec![make_session_entry("s1", "hello")];
    app.sidebar.hover = Some(0);
    app.remove_session_from_list("s1");
    assert!(app.session.session_list.is_empty());
    assert!(app.sidebar.hover.is_none());
}

#[test]
fn mod_load_session_messages_converts_agent_messages() {
    let mut app = make_app();
    let messages = vec![agent_message(Role::User, "hello"), agent_message(Role::Assistant, "hi there")];
    app.load_session_messages("test-session".to_string(), messages);
    assert_eq!(app.chat.messages.len(), 2);
    assert!(matches!(&app.chat.messages[0], TuiMessage::User(t) if t == "hello"));
    assert!(matches!(&app.chat.messages[1], TuiMessage::Assistant(t) if t == "hi there"));
    assert_eq!(app.state, AppState::Idle);
}

#[test]
fn mod_load_session_messages_handles_tool_calls() {
    let mut app = make_app();
    let mut assistant = agent_message(Role::Assistant, "");
    assistant.tool_calls = Some(vec![ToolCallRecord {
        name: "system.run".to_string(),
        arguments: "{\"command\":\"ls\"}".to_string(),
    }]);
    let mut tool = agent_message(Role::Tool, "file.rs");
    tool.tool_name = Some("system.run".to_string());
    app.load_session_messages("test-session".to_string(), vec![assistant, tool]);
    assert_eq!(app.chat.messages.len(), 2);
    assert!(matches!(&app.chat.messages[0], TuiMessage::ToolCall { tool_name, .. } if tool_name == "system.run"));
    assert!(matches!(&app.chat.messages[1], TuiMessage::ToolResult { tool_name, .. } if tool_name == "system.run"));
}

#[test]
fn mod_refresh_session_list_replaces_entries() {
    let mut app = make_app();
    app.session.session_list = vec![make_session_entry("old", "old")];
    let new_sessions = vec![make_session_entry("new1", "first"), make_session_entry("new2", "second")];
    app.refresh_session_list(new_sessions);
    assert_eq!(app.session.session_list.len(), 2);
    assert_eq!(app.session.session_list[0].id.as_str(), "new1");
}

#[test]
fn mod_take_confirmed_delete_consumes_value() {
    let mut app = make_app();
    app.session.confirmed_delete = Some("del-me".to_string());
    let taken = app.take_confirmed_delete();
    assert_eq!(taken.as_ref().map(|s| s.as_str()), Some("del-me"));
    assert!(app.take_confirmed_delete().is_none());
}

#[test]
fn mod_toggle_sidebar_focus_noop_when_hidden() {
    let mut app = make_app();
    app.sidebar.visible = false;
    app.sidebar.focused = false;
    app.toggle_sidebar_focus();
    assert!(!app.sidebar.focused);
}

#[test]
fn mod_confirm_delete_dialog_y_confirms() {
    let mut app = make_app();
    app.session.session_list = vec![make_session_entry("s1", "hello"), make_session_entry("s2", "world")];
    app.sidebar.hover = Some(1);
    app.request_delete_session();
    assert!(matches!(app.state, AppState::ConfirmDelete { .. }));
    app.handle_key(key(KeyCode::Char('y')));
    assert_eq!(app.state, AppState::Idle);
    let del = app.take_confirmed_delete();
    assert_eq!(del.as_ref().map(|s| s.as_str()), Some("s2"));
}

#[test]
fn mod_confirm_delete_dialog_n_cancels() {
    let mut app = make_app();
    app.session.session_list = vec![make_session_entry("s1", "hello"), make_session_entry("s2", "world")];
    app.sidebar.hover = Some(1);
    app.request_delete_session();
    assert!(matches!(app.state, AppState::ConfirmDelete { .. }));
    app.handle_key(key(KeyCode::Char('n')));
    assert_eq!(app.state, AppState::Idle);
    assert!(app.take_confirmed_delete().is_none());
}

#[test]
fn mod_sidebar_focused_navigation_down() {
    let mut app = make_app();
    app.session.session_list = vec![
        make_session_entry("s1", "a"),
        make_session_entry("s2", "b"),
        make_session_entry("s3", "c"),
        make_session_entry("s4", "d"),
        make_session_entry("s5", "e"),
    ];
    app.sidebar.visible = true;
    app.sidebar.focused = true;
    app.sidebar.hover = Some(0);
    app.handle_key(key(KeyCode::Char('j')));
    assert_eq!(app.sidebar.hover, Some(1));
    app.handle_key(key(KeyCode::Down));
    assert_eq!(app.sidebar.hover, Some(2));
    app.handle_key(key(KeyCode::Char('k')));
    assert_eq!(app.sidebar.hover, Some(1));
    app.handle_key(key(KeyCode::Up));
    assert_eq!(app.sidebar.hover, Some(0));
}

#[test]
fn mod_sidebar_focused_enter_sets_pending_selection() {
    let mut app = make_app();
    app.session.session_list =
        vec![make_session_entry("s1", "a"), make_session_entry("s2", "b"), make_session_entry("s3", "c")];
    app.sidebar.visible = true;
    app.sidebar.focused = true;
    app.sidebar.hover = Some(1);
    app.handle_key(key(KeyCode::Enter));
    let pending = app.take_pending_sidebar_selection();
    assert_eq!(pending.as_ref().map(|s| s.as_str()), Some("s2"));
    assert!(!app.sidebar.focused);
}

#[test]
fn mod_sidebar_focused_d_triggers_confirm_delete() {
    let mut app = make_app();
    app.session.session_list =
        vec![make_session_entry("s1", "a"), make_session_entry("s2", "b"), make_session_entry("s3", "c")];
    app.sidebar.visible = true;
    app.sidebar.focused = true;
    app.sidebar.hover = Some(2);
    app.handle_key(key(KeyCode::Char('d')));
    assert!(matches!(app.state, AppState::ConfirmDelete { .. }));
    if let AppState::ConfirmDelete { session_id, .. } = &app.state {
        assert_eq!(session_id, "s3");
    }
}

#[test]
fn mod_open_session_browser_sets_state() {
    let mut app = make_app();
    app.open_session_browser();
    assert!(matches!(app.state, AppState::SessionBrowsing { search_active: false, .. }));
}

#[test]
fn mod_session_browser_esc_closes() {
    let mut app = make_app();
    app.session.session_list = vec![make_session_entry("s1", "hello")];
    app.open_session_browser();
    app.handle_key(key(KeyCode::Esc));
    assert_eq!(app.state, AppState::Idle);
}

#[test]
fn mod_session_browser_search_mode_esc_then_close() {
    let mut app = make_app();
    app.session.session_list = vec![make_session_entry("s1", "hello")];
    app.open_session_browser();
    app.handle_key(key(KeyCode::Char('s')));
    assert!(matches!(app.state, AppState::SessionBrowsing { search_active: true, .. }));
    app.handle_key(key(KeyCode::Esc));
    assert!(matches!(app.state, AppState::SessionBrowsing { search_active: false, .. }));
    app.handle_key(key(KeyCode::Esc));
    assert_eq!(app.state, AppState::Idle);
}

#[test]
fn mod_session_browser_slash_starts_search_mode() {
    let mut app = make_app();
    app.session.session_list = vec![make_session_entry("s1", "hello")];
    app.open_session_browser();
    app.handle_key(key(KeyCode::Char('/')));
    assert!(matches!(app.state, AppState::SessionBrowsing { search_active: true, .. }));
}

#[test]
fn mod_session_browser_navigation_j_k() {
    let mut app = make_app();
    app.session.session_list = vec![
        make_session_entry("s1", "first"),
        make_session_entry("s2", "second"),
        make_session_entry("s3", "third"),
    ];
    app.open_session_browser();
    app.handle_key(key(KeyCode::Char('j')));
    if let AppState::SessionBrowsing { cursor, .. } = &app.state {
        assert_eq!(*cursor, 1);
    } else {
        panic!("expected SessionBrowsing");
    }
    app.handle_key(key(KeyCode::Char('k')));
    if let AppState::SessionBrowsing { cursor, .. } = &app.state {
        assert_eq!(*cursor, 0);
    } else {
        panic!("expected SessionBrowsing");
    }
}

#[test]
fn mod_session_browser_enter_loads_session() {
    let mut app = make_app();
    app.session.session_list = vec![make_session_entry("s1", "first"), make_session_entry("s2", "second")];
    app.open_session_browser();
    app.handle_key(key(KeyCode::Char('j')));
    app.handle_key(key(KeyCode::Enter));
    assert_eq!(app.state, AppState::Idle);
    let pending = app.take_pending_sidebar_selection();
    assert_eq!(pending.as_ref().map(|s| s.as_str()), Some("s2"));
}

#[test]
fn mod_session_browser_n_creates_new() {
    let mut app = make_app();
    app.session.session_list = vec![make_session_entry("s1", "hello")];
    app.open_session_browser();
    app.handle_key(key(KeyCode::Char('n')));
    assert_eq!(app.state, AppState::Idle);
    assert!(app.session.session_browser_new_requested);
}

#[test]
fn mod_session_browser_d_triggers_delete() {
    let mut app = make_app();
    app.session.session_list = vec![make_session_entry("s1", "first"), make_session_entry("s2", "second")];
    app.open_session_browser();
    app.handle_key(key(KeyCode::Char('j')));
    app.handle_key(key(KeyCode::Char('d')));
    assert!(matches!(app.state, AppState::ConfirmDelete { .. }));
    if let AppState::ConfirmDelete { session_id, .. } = &app.state {
        assert_eq!(session_id, "s2");
    }
}

#[test]
fn mod_session_browser_ctrl_c_closes() {
    let mut app = make_app();
    app.session.session_list = vec![make_session_entry("s1", "hello")];
    app.open_session_browser();
    app.handle_key(KeyEvent::new(KeyCode::Char('c'), KeyModifiers::CONTROL));
    assert_eq!(app.state, AppState::Idle);
}

#[test]
fn mod_visible_sessions_filters_by_query() {
    let mut app = make_app();
    app.session.session_list = vec![
        make_session_entry("abc123", "deploy script"),
        make_session_entry("def456", "test runner"),
        make_session_entry("ghi789", "deploy fix"),
    ];
    let all = app.visible_sessions("");
    assert_eq!(all.len(), 3);
    let deploy = app.visible_sessions("deploy");
    assert_eq!(deploy.len(), 2);
    assert_eq!(deploy[0].id.as_str(), "abc123");
    assert_eq!(deploy[1].id.as_str(), "ghi789");
    let by_id = app.visible_sessions("def");
    assert_eq!(by_id.len(), 1);
    assert_eq!(by_id[0].id.as_str(), "def456");
}

#[test]
fn mod_session_browser_search_typing_filters() {
    let mut app = make_app();
    app.session.session_list = vec![make_session_entry("s1", "deploy script"), make_session_entry("s2", "test runner")];
    app.open_session_browser();
    app.handle_key(key(KeyCode::Char('s')));
    app.handle_key(key(KeyCode::Char('d')));
    app.handle_key(key(KeyCode::Char('e')));
    app.handle_key(key(KeyCode::Char('p')));
    if let AppState::SessionBrowsing { query, cursor, .. } = &app.state {
        assert_eq!(query, "dep");
        assert_eq!(*cursor, 0);
        let visible = app.visible_sessions(query);
        assert_eq!(visible.len(), 1);
        assert_eq!(visible[0].preview, "deploy script");
    } else {
        panic!("expected SessionBrowsing");
    }
}

fn browser_with(models: Vec<ModelCatalogEntry>, query: &str, status: &str) -> TuiApp {
    let mut app = make_app();
    app.open_model_browser("openai".to_string(), models, query.to_string(), status.to_string());
    app
}

fn model_cursor(app: &TuiApp) -> usize {
    match &app.state {
        AppState::ModelBrowsing { cursor, .. } => *cursor,
        _ => panic!("expected ModelBrowsing"),
    }
}

fn login_state(app: &TuiApp) -> &LoginBrowsingState {
    match &app.state {
        AppState::LoginBrowsing(l) => l,
        _ => panic!("expected LoginBrowsing"),
    }
}

#[test]
fn model_browser_navigation_j_k_up_down_page() {
    let mut models = sample_models();
    for i in 0..15 {
        models.push(ModelCatalogEntry {
            id: format!("extra-model-{i}"),
            provider: "openai".to_string(),
            recommended_for_coding: true,
            status: ModelStatus::Stable,
            source: ModelSource::Docs,
            available: true,
        });
    }
    let mut app = browser_with(models, "", "Synced");
    app.handle_key(key(KeyCode::Char('j')));
    assert_eq!(model_cursor(&app), 1);
    app.handle_key(key(KeyCode::Char('k')));
    assert_eq!(model_cursor(&app), 0);
    app.handle_key(key(KeyCode::Down));
    assert_eq!(model_cursor(&app), 1);
    app.handle_key(key(KeyCode::Up));
    assert_eq!(model_cursor(&app), 0);
    app.handle_key(key(KeyCode::PageDown));
    assert!(model_cursor(&app) > 0);
    app.handle_key(key(KeyCode::PageUp));
    assert_eq!(model_cursor(&app), 0);
}

#[test]
fn model_browser_search_type_and_backspace() {
    let mut app = browser_with(sample_models(), "", "Synced");
    app.handle_key(key(KeyCode::Char('s')));
    app.handle_key(key(KeyCode::Char('g')));
    app.handle_key(key(KeyCode::Char('p')));
    if let AppState::ModelBrowsing { query, .. } = &app.state {
        assert_eq!(query, "gp");
    }
    app.handle_key(key(KeyCode::Backspace));
    if let AppState::ModelBrowsing { query, .. } = &app.state {
        assert_eq!(query, "g");
    }
}

#[test]
fn model_browser_ctrl_c_closes() {
    let mut app = browser_with(sample_models(), "", "Synced");
    app.handle_key(KeyEvent::new(KeyCode::Char('c'), KeyModifiers::CONTROL));
    assert_eq!(app.state, AppState::Idle);
}

#[test]
fn model_browser_enter_with_empty_entries() {
    let mut app = browser_with(vec![], "", "Synced");
    app.handle_key(key(KeyCode::Enter));
    assert_eq!(app.state, AppState::Idle);
    assert!(app.take_pending_model_change().is_none());
}

#[test]
fn update_model_browser_catalog_preserves_browsing() {
    let mut app = browser_with(sample_models(), "", "Synced");
    app.update_model_browser_catalog("openai".to_string(), sample_models(), "Refreshed".to_string());
    if let AppState::ModelBrowsing { last_sync_status, cursor, .. } = &app.state {
        assert_eq!(last_sync_status, "Refreshed");
        assert_eq!(*cursor, 0);
    } else {
        panic!("expected ModelBrowsing");
    }
}

#[test]
fn model_browser_query_returns_none_when_not_browsing() {
    let app = make_app();
    assert!(app.model_browser_query().is_none());
}

#[test]
fn model_browser_query_returns_query_when_browsing() {
    let app = browser_with(sample_models(), "test-query", "Synced");
    assert_eq!(app.model_browser_query(), Some("test-query".to_string()));
}

#[test]
fn mark_model_refreshing_updates_sync_status() {
    let mut app = browser_with(sample_models(), "", "Synced");
    app.mark_model_refreshing();
    if let AppState::ModelBrowsing { last_sync_status, .. } = &app.state {
        assert_eq!(last_sync_status, "Refreshing model...");
    }
}

#[test]
fn login_browser_provider_navigation_and_search() {
    let mut app = make_app();
    app.open_login_browser(None);
    app.handle_key(key(KeyCode::Down));
    app.handle_key(key(KeyCode::Down));
    app.handle_key(key(KeyCode::Up));
    app.handle_key(key(KeyCode::Char('o')));
    app.handle_key(key(KeyCode::Char('p')));
    assert_eq!(login_state(&app).query, "op");
    app.handle_key(key(KeyCode::Backspace));
    assert_eq!(login_state(&app).query, "o");
}

#[test]
fn login_browser_provider_j_k_navigation() {
    let mut app = make_app();
    app.open_login_browser(None);
    app.handle_key(key(KeyCode::Char('j')));
    assert_eq!(login_state(&app).cursor, 1);
    app.handle_key(key(KeyCode::Char('k')));
    assert_eq!(login_state(&app).cursor, 0);
}

#[test]
fn login_browser_provider_page_navigation() {
    let mut app = make_app();
    app.open_login_browser(None);
    app.handle_key(key(KeyCode::PageDown));
    assert!(login_state(&app).cursor > 0);
    app.handle_key(key(KeyCode::PageUp));
    assert_eq!(login_state(&app).cursor, 0);
}

#[test]
fn login_browser_ctrl_c_closes_from_provider() {
    let mut app = make_app();
    app.open_login_browser(None);
    app.handle_key(KeyEvent::new(KeyCode::Char('c'), KeyModifiers::CONTROL));
    assert_eq!(app.state, AppState::Idle);
    assert!(matches!(app.chat.messages.last(), Some(TuiMessage::Assistant(t)) if t.contains("cancelled")));
}

#[test]
fn login_browser_esc_from_provider_closes() {
    let mut app = make_app();
    app.open_login_browser(None);
    app.handle_key(key(KeyCode::Esc));
    assert_eq!(app.state, AppState::Idle);
}

#[test]
fn login_browser_enter_no_match_shows_error() {
    let mut app = make_app();
    app.open_login_browser(Some("zzz_nonexistent_provider".to_string()));
    app.handle_key(key(KeyCode::Enter));
    assert!(login_state(&app).last_error.is_some());
}

#[test]
fn login_browser_method_step_esc_goes_back() {
    let mut app = make_app();
    app.open_login_browser(Some("openai".to_string()));
    app.handle_key(key(KeyCode::Enter));
    assert_eq!(login_state(&app).step, LoginBrowseStep::SelectMethod);
    app.handle_key(key(KeyCode::Esc));
    assert_eq!(login_state(&app).step, LoginBrowseStep::SelectProvider);
}

#[test]
fn login_browser_method_j_k_navigation() {
    let mut app = make_app();
    app.open_login_browser(Some("openai".to_string()));
    app.handle_key(key(KeyCode::Enter));
    app.handle_key(key(KeyCode::Char('j')));
    assert_eq!(login_state(&app).cursor, 1);
    app.handle_key(key(KeyCode::Char('k')));
    assert_eq!(login_state(&app).cursor, 0);
}

#[test]
fn login_browser_method_ctrl_c_closes() {
    let mut app = make_app();
    app.open_login_browser(Some("openai".to_string()));
    app.handle_key(key(KeyCode::Enter));
    app.handle_key(KeyEvent::new(KeyCode::Char('c'), KeyModifiers::CONTROL));
    assert_eq!(app.state, AppState::Idle);
}

fn endpoint_step(input: &str) -> AppState {
    AppState::LoginBrowsing(LoginBrowsingState {
        query: String::new(),
        cursor: 0,
        scroll: 0,
        step: LoginBrowseStep::InputEndpoint,
        selected_provider: Some("custom".to_string()),
        selected_method: None,
        input_buffer: input.to_string(),
        masked_buffer: String::new(),
        last_error: None,
        endpoint: None,
    })
}

fn openai_api_key_step(app: &mut TuiApp) {
    app.open_login_browser(Some("openai".to_string()));
    app.handle_key(key(KeyCode::Enter));
    app.handle_key(key(KeyCode::Down));
    app.handle_key(key(KeyCode::Enter));
}

#[test]
fn login_browser_oauth_triggers_intent() {
    let mut app = make_app();
    app.open_login_browser(Some("openai".to_string()));
    app.handle_key(key(KeyCode::Enter));
    app.handle_key(key(KeyCode::Enter));
    assert!(matches!(app.state, AppState::AuthValidating { .. }));
    let intent = app.take_pending_auth_intent();
    assert!(intent.is_some());
    assert_eq!(intent.unwrap().auth_method, openpista_tui::providers::AuthMethodChoice::OAuth);
}

#[test]
fn login_browser_api_key_type_and_submit() {
    let mut app = make_app();
    openai_api_key_step(&mut app);
    for c in "sk-test123".chars() {
        app.handle_key(key(KeyCode::Char(c)));
    }
    {
        let l = login_state(&app);
        assert_eq!(l.input_buffer, "sk-test123");
        assert_eq!(l.masked_buffer.len(), 10);
        assert!(l.masked_buffer.chars().all(|c| c == '*'));
    }
    app.handle_key(key(KeyCode::Backspace));
    {
        let l = login_state(&app);
        assert_eq!(l.input_buffer, "sk-test12");
        assert_eq!(l.masked_buffer.len(), 9);
    }
    app.handle_key(key(KeyCode::Enter));
    assert!(matches!(app.state, AppState::AuthValidating { .. }));
    let intent = app.take_pending_auth_intent();
    assert!(intent.is_some());
    assert_eq!(intent.unwrap().api_key.as_deref(), Some("sk-test12"));
}

#[test]
fn login_browser_api_key_empty_shows_error() {
    let mut app = make_app();
    openai_api_key_step(&mut app);
    app.handle_key(key(KeyCode::Enter));
    assert!(login_state(&app).last_error.as_deref().unwrap_or("").contains("required"));
}

#[test]
fn login_browser_api_key_esc_goes_back() {
    let mut app = make_app();
    openai_api_key_step(&mut app);
    assert_eq!(login_state(&app).step, LoginBrowseStep::InputApiKey);
    app.handle_key(key(KeyCode::Esc));
    assert_eq!(login_state(&app).step, LoginBrowseStep::SelectMethod);
}

#[test]
fn login_browser_api_key_ctrl_c_closes() {
    let mut app = make_app();
    openai_api_key_step(&mut app);
    app.handle_key(KeyEvent::new(KeyCode::Char('c'), KeyModifiers::CONTROL));
    assert_eq!(app.state, AppState::Idle);
}

#[test]
fn login_browser_endpoint_type_backspace_submit() {
    let mut app = make_app();
    app.state = endpoint_step("");
    for c in "https://test.com".chars() {
        app.handle_key(key(KeyCode::Char(c)));
    }
    app.handle_key(key(KeyCode::Backspace));
    assert_eq!(login_state(&app).input_buffer, "https://test.co");
    app.handle_key(key(KeyCode::Char('m')));
    app.handle_key(key(KeyCode::Enter));
    assert_eq!(login_state(&app).step, LoginBrowseStep::InputApiKey);
}

#[test]
fn login_browser_endpoint_empty_shows_error() {
    let mut app = make_app();
    app.state = endpoint_step("");
    app.handle_key(key(KeyCode::Enter));
    assert!(login_state(&app).last_error.as_deref().unwrap_or("").contains("required"));
}

#[test]
fn login_browser_endpoint_esc_goes_back() {
    let mut app = make_app();
    app.state = endpoint_step("test");
    app.handle_key(key(KeyCode::Esc));
    assert_eq!(login_state(&app).step, LoginBrowseStep::SelectProvider);
}

#[test]
fn login_browser_endpoint_ctrl_c_closes() {
    let mut app = make_app();
    app.state = endpoint_step("");
    app.handle_key(KeyEvent::new(KeyCode::Char('c'), KeyModifiers::CONTROL));
    assert_eq!(app.state, AppState::Idle);
}

#[test]
fn command_palette_tab_auto_completes() {
    let mut app = make_app();
    app.handle_key(key(KeyCode::Char('/')));
    app.handle_key(key(KeyCode::Char('h')));
    app.handle_key(key(KeyCode::Char('e')));
    app.handle_key(key(KeyCode::Tab));
    assert_eq!(app.chat.input, "/help");
}

#[test]
fn tab_toggles_sidebar_when_not_palette() {
    let mut app = make_app();
    app.sidebar.visible = true;
    app.sidebar.focused = false;
    app.handle_key(key(KeyCode::Tab));
    assert!(app.sidebar.focused);
}

#[test]
fn enter_on_home_screen_switches_to_chat() {
    let mut app = make_app();
    app.screen = openpista_tui::state::Screen::Home;
    app.handle_key(key(KeyCode::Enter));
    assert_eq!(app.screen, openpista_tui::state::Screen::Chat);
}

fn session_cursor(app: &TuiApp) -> usize {
    match &app.state {
        AppState::SessionBrowsing { cursor, .. } => *cursor,
        _ => panic!("expected SessionBrowsing"),
    }
}

#[test]
fn complete_auth_validation_success() {
    let mut app = make_app();
    app.state = AppState::AuthValidating { provider: "openai".to_string() };
    app.complete_auth_validation("openai".to_string(), "OPENAI_API_KEY".to_string(), Ok(()));
    assert_eq!(app.state, AppState::Idle);
    assert!(matches!(app.chat.messages.last(), Some(TuiMessage::Assistant(t)) if t.contains("Saved")));
}

#[test]
fn complete_auth_validation_failure() {
    let mut app = make_app();
    app.state = AppState::AuthValidating { provider: "openai".to_string() };
    app.complete_auth_validation("openai".to_string(), "OPENAI_API_KEY".to_string(), Err("invalid key".to_string()));
    assert_eq!(app.state, AppState::Idle);
    assert!(matches!(app.chat.messages.last(), Some(TuiMessage::Error(t)) if t.contains("Failed")));
}

#[test]
fn reopen_method_selector_with_error_sets_state() {
    let mut app = make_app();
    app.reopen_method_selector_with_error("openai", "something failed".to_string());
    let l = login_state(&app);
    assert_eq!(l.step, LoginBrowseStep::SelectMethod);
    assert_eq!(l.last_error.as_deref(), Some("something failed"));
    assert_eq!(l.selected_provider.as_deref(), Some("openai"));
}

#[test]
fn reopen_openai_method_with_error_delegates() {
    let mut app = make_app();
    app.reopen_openai_method_with_error("test error".to_string());
    assert_eq!(login_state(&app).step, LoginBrowseStep::SelectMethod);
}

#[test]
fn take_auth_submission_returns_none_when_idle() {
    let mut app = make_app();
    assert!(app.take_auth_submission().is_none());
}

#[test]
fn take_auth_submission_returns_none_when_input_empty() {
    let mut app = make_app();
    app.state = AppState::AuthPrompting {
        provider: "openai".to_string(),
        env_name: "OPENAI_API_KEY".to_string(),
        endpoint: None,
        endpoint_env: None,
    };
    app.chat.input = "   ".to_string();
    assert!(app.take_auth_submission().is_none());
}

#[test]
fn take_pending_auth_intent_consume() {
    let mut app = make_app();
    app.model.pending_auth_intent = Some(openpista_tui::providers::AuthLoginIntent {
        provider: "openai".to_string(),
        auth_method: openpista_tui::providers::AuthMethodChoice::OAuth,
        endpoint: None,
        api_key: None,
    });
    assert!(app.take_pending_auth_intent().is_some());
    assert!(app.take_pending_auth_intent().is_none());
}

#[test]
fn take_pending_model_change_consume() {
    let mut app = make_app();
    app.model.pending_model_change = Some(("gpt-4o".to_string(), "openai".to_string()));
    let change = app.take_pending_model_change();
    assert_eq!(change, Some(("gpt-4o".to_string(), "openai".to_string())));
    assert!(app.take_pending_model_change().is_none());
}

#[test]
fn compute_sidebar_area_none_when_hidden() {
    let mut app = make_app();
    app.sidebar.visible = false;
    assert!(app.compute_sidebar_area(openpista_tui::keys::Rect::new(0, 0, 120, 40)).is_none());
}

#[test]
fn compute_sidebar_area_none_on_home() {
    let mut app = make_app();
    app.screen = openpista_tui::state::Screen::Home;
    app.sidebar.visible = true;
    assert!(app.compute_sidebar_area(openpista_tui::keys::Rect::new(0, 0, 120, 40)).is_none());
}

#[test]
fn compute_sidebar_area_some_on_chat() {
    let mut app = make_app();
    app.screen = openpista_tui::state::Screen::Chat;
    app.sidebar.visible = true;
    let sidebar = app.compute_sidebar_area(openpista_tui::keys::Rect::new(0, 0, 120, 40));
    assert!(sidebar.is_some());
    assert!(sidebar.unwrap().width > 0);
}

#[test]
fn mod_conversation_count_counts_user_and_assistant() {
    let mut app = make_app();
    app.push_user("hi".into());
    app.push_assistant("hello".into());
    app.chat.messages.push(TuiMessage::ToolCall { tool_name: "t".into(), args_preview: "{}".into(), done: false });
    app.push_error("err".into());
    assert_eq!(app.conversation_count(), 2);
}

#[test]
fn set_pending_sidebar_selection_works() {
    let mut app = make_app();
    app.set_pending_sidebar_selection("test-sid".to_string());
    assert_eq!(app.take_pending_sidebar_selection().as_ref().map(|s| s.as_str()), Some("test-sid"));
}

#[test]
fn session_browser_up_down_arrows() {
    let mut app = make_app();
    app.session.session_list =
        vec![make_session_entry("s1", "a"), make_session_entry("s2", "b"), make_session_entry("s3", "c")];
    app.open_session_browser();
    app.handle_key(key(KeyCode::Down));
    assert_eq!(session_cursor(&app), 1);
    app.handle_key(key(KeyCode::Up));
    assert_eq!(session_cursor(&app), 0);
}

#[test]
fn session_browser_page_up_down() {
    let mut app = make_app();
    for i in 0..20 {
        app.session.session_list.push(make_session_entry(&format!("s{i}"), &format!("session {i}")));
    }
    app.open_session_browser();
    app.handle_key(key(KeyCode::PageDown));
    assert!(session_cursor(&app) > 0);
    app.handle_key(key(KeyCode::PageUp));
    assert_eq!(session_cursor(&app), 0);
}

#[test]
fn session_browser_search_backspace() {
    let mut app = make_app();
    app.session.session_list = vec![make_session_entry("s1", "hello")];
    app.open_session_browser();
    app.handle_key(key(KeyCode::Char('s')));
    app.handle_key(key(KeyCode::Char('h')));
    app.handle_key(key(KeyCode::Char('i')));
    if let AppState::SessionBrowsing { query, .. } = &app.state {
        assert_eq!(query, "hi");
    }
    app.handle_key(key(KeyCode::Backspace));
    if let AppState::SessionBrowsing { query, .. } = &app.state {
        assert_eq!(query, "h");
    }
}

#[test]
fn session_browser_enter_with_empty_sessions() {
    let mut app = make_app();
    app.open_session_browser();
    app.handle_key(key(KeyCode::Enter));
    assert_eq!(app.state, AppState::Idle);
    assert!(app.take_pending_sidebar_selection().is_none());
}

#[test]
fn session_browser_d_with_empty_sessions() {
    let mut app = make_app();
    app.open_session_browser();
    app.handle_key(key(KeyCode::Char('d')));
    assert!(matches!(app.state, AppState::SessionBrowsing { .. }));
}

#[test]
fn session_browser_delete_key_triggers_delete() {
    let mut app = make_app();
    app.session.session_list = vec![make_session_entry("s1", "hello")];
    app.open_session_browser();
    app.handle_key(key(KeyCode::Delete));
    assert!(matches!(app.state, AppState::ConfirmDelete { .. }));
}

#[test]
fn confirm_delete_enter_confirms() {
    let mut app = make_app();
    app.session.session_list = vec![make_session_entry("s1", "hello")];
    app.sidebar.hover = Some(0);
    app.request_delete_session();
    app.handle_key(key(KeyCode::Enter));
    assert_eq!(app.state, AppState::Idle);
    assert_eq!(app.take_confirmed_delete().as_ref().map(|s| s.as_str()), Some("s1"));
}

#[test]
fn confirm_delete_esc_cancels() {
    let mut app = make_app();
    app.session.session_list = vec![make_session_entry("s1", "hello")];
    app.sidebar.hover = Some(0);
    app.request_delete_session();
    app.handle_key(key(KeyCode::Esc));
    assert_eq!(app.state, AppState::Idle);
    assert!(app.take_confirmed_delete().is_none());
}

#[test]
fn confirm_delete_ignores_other_keys() {
    let mut app = make_app();
    app.session.session_list = vec![make_session_entry("s1", "hello")];
    app.sidebar.hover = Some(0);
    app.request_delete_session();
    app.handle_key(key(KeyCode::Char('x')));
    assert!(matches!(app.state, AppState::ConfirmDelete { .. }));
}

#[test]
fn sidebar_focused_esc_unfocuses() {
    let mut app = make_app();
    app.sidebar.visible = true;
    app.sidebar.focused = true;
    app.handle_key(key(KeyCode::Esc));
    assert!(!app.sidebar.focused);
}

#[test]
fn sidebar_focused_tab_unfocuses() {
    let mut app = make_app();
    app.sidebar.visible = true;
    app.sidebar.focused = true;
    app.handle_key(key(KeyCode::Tab));
    assert!(!app.sidebar.focused);
}

#[test]
fn sidebar_focused_delete_triggers_confirm() {
    let mut app = make_app();
    app.session.session_list = vec![make_session_entry("s1", "a")];
    app.sidebar.visible = true;
    app.sidebar.focused = true;
    app.sidebar.hover = Some(0);
    app.handle_key(key(KeyCode::Delete));
    assert!(matches!(app.state, AppState::ConfirmDelete { .. }));
}

#[test]
fn request_delete_session_with_empty_preview() {
    let mut app = make_app();
    app.session.session_list = vec![make_session_entry("s1", "")];
    app.sidebar.hover = Some(0);
    app.request_delete_session();
    if let AppState::ConfirmDelete { session_preview, .. } = &app.state {
        assert_eq!(session_preview, "(empty session)");
    }
}

#[test]
fn request_delete_session_with_long_preview_truncates() {
    let mut app = make_app();
    let long_preview = "A".repeat(60);
    app.session.session_list = vec![make_session_entry("s1", &long_preview)];
    app.sidebar.hover = Some(0);
    app.request_delete_session();
    if let AppState::ConfirmDelete { session_preview, .. } = &app.state {
        assert!(session_preview.ends_with('\u{2026}'));
        assert!(session_preview.chars().count() <= 40);
    }
}

#[test]
fn toggle_sidebar_focus_initializes_hover() {
    let mut app = make_app();
    app.sidebar.visible = true;
    app.sidebar.focused = false;
    app.sidebar.hover = None;
    app.session.session_list = vec![make_session_entry("s1", "a")];
    app.toggle_sidebar_focus();
    assert!(app.sidebar.focused);
    assert_eq!(app.sidebar.hover, Some(0));
}

#[test]
fn load_session_messages_skips_system() {
    let mut app = make_app();
    let sys = agent_message(Role::System, "system prompt");
    app.load_session_messages("test".to_string(), vec![sys]);
    assert!(app.chat.messages.is_empty());
}

#[test]
fn handle_slash_command_exit_sets_quit() {
    let mut app = make_app();
    assert!(app.handle_slash_command("/exit"));
    assert!(app.should_quit);
}

#[test]
fn handle_slash_command_model_pushes_loading() {
    let mut app = make_app();
    assert!(app.handle_slash_command("/model"));
    assert!(matches!(app.chat.messages.last(), Some(TuiMessage::Assistant(t)) if t.contains("Loading")));
}

#[test]
fn visible_model_entries_filters_and_sorts() {
    let mut app = make_app();
    app.model.model_entries = sample_models();
    assert!(!app.visible_model_entries("").is_empty());
    let filtered = app.visible_model_entries("gpt");
    assert!(filtered.iter().all(|e| e.id.to_lowercase().contains("gpt")));
    assert!(app.visible_model_entries("nonexistent_xyz").is_empty());
}

#[test]
fn apply_progress_tool_error_result() {
    let mut app = make_app();
    app.apply_progress(ProgressEvent::ToolCallStarted {
        call_id: "c1".into(),
        tool_name: "system.run".into(),
        args: "{\"command\":\"bad\"}".into(),
    });
    app.apply_progress(ProgressEvent::ToolCallFinished {
        call_id: "c1".into(),
        tool_name: "system.run".into(),
        output: "error: not found".into(),
        is_error: true,
    });
    assert!(matches!(&app.chat.messages[1], TuiMessage::ToolResult { is_error: true, .. }));
}

#[test]
fn apply_progress_long_args_truncated() {
    let mut app = make_app();
    let long_args = format!("{{\"command\":\"{}\"}}", "x".repeat(200));
    app.apply_progress(ProgressEvent::ToolCallStarted {
        call_id: "c1".into(),
        tool_name: "system.run".into(),
        args: long_args,
    });
    if let TuiMessage::ToolCall { args_preview, .. } = &app.chat.messages[0] {
        assert!(args_preview.ends_with('\u{2026}'));
        assert!(args_preview.len() <= 83);
    }
}

#[test]
fn apply_progress_long_output_truncated() {
    let mut app = make_app();
    app.apply_progress(ProgressEvent::ToolCallStarted { call_id: "c1".into(), tool_name: "system.run".into(), args: "{}".into() });
    app.apply_progress(ProgressEvent::ToolCallFinished {
        call_id: "c1".into(),
        tool_name: "system.run".into(),
        output: "x".repeat(200),
        is_error: false,
    });
    if let TuiMessage::ToolResult { output_preview, .. } = &app.chat.messages[1] {
        assert!(output_preview.ends_with('\u{2026}'));
        assert!(output_preview.len() <= 123);
    }
}

#[test]
fn app_apply_progress_tool_started_updates_state() {
    let mut app = make_app();
    app.apply_progress(ProgressEvent::ToolCallStarted {
        call_id: "c1".into(),
        tool_name: "system.run".into(),
        args: "{\"command\":\"ls\"}".into(),
    });
    assert_eq!(app.chat.messages.len(), 1);
    assert!(matches!(&app.chat.messages[0], TuiMessage::ToolCall { .. }));
    assert_eq!(app.state, AppState::ExecutingTool { tool_name: "system.run".into() });
}

#[test]
fn app_apply_progress_tool_finished_adds_result() {
    let mut app = make_app();
    app.apply_progress(ProgressEvent::ToolCallStarted {
        call_id: "c1".into(),
        tool_name: "system.run".into(),
        args: "{}".into(),
    });
    app.apply_progress(ProgressEvent::ToolCallFinished {
        call_id: "c1".into(),
        tool_name: "system.run".into(),
        output: "file1.rs\nfile2.rs".into(),
        is_error: false,
    });
    assert_eq!(app.chat.messages.len(), 2);
    assert!(matches!(&app.chat.messages[1], TuiMessage::ToolResult { is_error: false, .. }));
}

#[test]
fn app_apply_completion_ok_pushes_assistant() {
    let mut app = make_app();
    app.state = AppState::Thinking { round: 0 };
    app.apply_completion(Ok("hello world".into()));
    assert_eq!(app.chat.messages.len(), 1);
    assert!(matches!(&app.chat.messages[0], TuiMessage::Assistant(t) if t == "hello world"));
    assert_eq!(app.state, AppState::Idle);
}

#[test]
fn app_apply_completion_err_pushes_error() {
    let mut app = make_app();
    app.state = AppState::Thinking { round: 0 };
    app.apply_completion(Err("rate limit exceeded".into()));
    assert_eq!(app.chat.messages.len(), 1);
    assert!(matches!(&app.chat.messages[0], TuiMessage::Error(_)));
    assert_eq!(app.state, AppState::Idle);
}

#[test]
fn app_handle_key_inserts_chars() {
    let mut app = make_app();
    app.handle_key(key(KeyCode::Char('a')));
    app.handle_key(key(KeyCode::Char('b')));
    assert_eq!(app.chat.input, "ab");
    assert_eq!(app.chat.cursor_pos, 2);
}

#[test]
fn app_handle_key_backspace_deletes() {
    let mut app = make_app();
    app.handle_key(key(KeyCode::Char('x')));
    app.handle_key(key(KeyCode::Backspace));
    assert_eq!(app.chat.input, "");
    assert_eq!(app.chat.cursor_pos, 0);
}

#[test]
fn app_handle_key_ignores_input_when_thinking() {
    let mut app = make_app();
    app.state = AppState::Thinking { round: 0 };
    app.handle_key(key(KeyCode::Char('a')));
    assert_eq!(app.chat.input, "");
}

#[test]
fn app_handle_key_accepts_input_when_auth_prompting() {
    let mut app = make_app();
    app.state = auth_prompt();
    app.handle_key(key(KeyCode::Char('s')));
    app.handle_key(key(KeyCode::Char('k')));
    assert_eq!(app.chat.input, "sk");
}

#[test]
fn app_handle_key_escape_cancels_auth_prompt() {
    let mut app = make_app();
    app.state = auth_prompt();
    app.chat.input = "secret".to_string();
    app.chat.cursor_pos = app.chat.input.len();
    app.handle_key(key(KeyCode::Esc));
    assert_eq!(app.state, AppState::Idle);
    assert_eq!(app.chat.input, "");
    assert_eq!(app.chat.cursor_pos, 0);
    assert!(
        matches!(app.chat.messages.last(), Some(TuiMessage::Assistant(text)) if text.contains("cancelled"))
    );
}

#[test]
fn app_take_auth_submission_moves_to_validating() {
    let mut app = make_app();
    app.state = auth_prompt();
    app.chat.input = "  sk-test  ".to_string();
    app.chat.cursor_pos = app.chat.input.len();
    let submission = app.take_auth_submission().expect("submission expected");
    assert_eq!(submission.provider, "together");
    assert_eq!(submission.env_name, "TOGETHER_API_KEY");
    assert_eq!(submission.endpoint, None);
    assert_eq!(submission.api_key, "sk-test");
    assert_eq!(app.chat.input, "");
    assert_eq!(app.state, AppState::AuthValidating { provider: "together".to_string() });
}

#[test]
fn app_apply_progress_llm_thinking_sets_state_round() {
    let mut app = make_app();
    app.apply_progress(ProgressEvent::LlmThinking { round: 3 });
    assert_eq!(app.state, AppState::Thinking { round: 3 });
}

#[test]
fn app_apply_progress_marks_latest_matching_tool_call_done() {
    let mut app = make_app();
    app.apply_progress(ProgressEvent::ToolCallStarted {
        call_id: "c1".into(),
        tool_name: "system.run".into(),
        args: "{\"command\":\"echo 1\"}".into(),
    });
    app.apply_progress(ProgressEvent::ToolCallStarted {
        call_id: "c2".into(),
        tool_name: "system.run".into(),
        args: "{\"command\":\"echo 2\"}".into(),
    });
    app.apply_progress(ProgressEvent::ToolCallFinished {
        call_id: "c2".into(),
        tool_name: "system.run".into(),
        output: "ok".into(),
        is_error: false,
    });
    assert!(matches!(&app.chat.messages[0], TuiMessage::ToolCall { done: false, .. }));
    assert!(matches!(&app.chat.messages[1], TuiMessage::ToolCall { done: true, .. }));
}

#[test]
fn app_handle_key_moves_cursor_left_and_right_with_utf8() {
    let mut app = make_app();
    app.chat.input = "a한b".into();
    app.chat.cursor_pos = app.chat.input.len();
    app.handle_key(key(KeyCode::Left));
    assert_eq!(app.chat.cursor_pos, "a한".len());
    app.handle_key(key(KeyCode::Left));
    assert_eq!(app.chat.cursor_pos, "a".len());
    app.handle_key(key(KeyCode::Right));
    assert_eq!(app.chat.cursor_pos, "a한".len());
    app.handle_key(key(KeyCode::Right));
    assert_eq!(app.chat.cursor_pos, "a한b".len());
}

#[test]
fn app_handle_key_scroll_shortcuts_update_history_scroll() {
    let mut app = make_app();
    app.chat.history_scroll = 5;
    app.handle_key(key(KeyCode::Up));
    assert_eq!(app.chat.history_scroll, 4);
    app.handle_key(key(KeyCode::Down));
    assert_eq!(app.chat.history_scroll, 5);
    app.handle_key(key(KeyCode::PageUp));
    assert_eq!(app.chat.history_scroll, 0);
    app.handle_key(key(KeyCode::PageDown));
    assert_eq!(app.chat.history_scroll, 10);
}

#[test]
fn app_handle_key_quit_shortcuts_only_when_idle() {
    let mut app = make_app();
    app.handle_key(key(KeyCode::Esc));
    assert!(app.should_quit);
    app.should_quit = false;
    app.state = AppState::Thinking { round: 1 };
    app.handle_key(key(KeyCode::Esc));
    assert!(!app.should_quit);
    app.state = AppState::Idle;
    app.handle_key(KeyEvent::new(KeyCode::Char('c'), KeyModifiers::CONTROL));
    assert!(app.should_quit);
}

#[test]
fn app_model_browser_enter_selects_model_for_session() {
    let mut app = make_app();
    app.open_model_browser(
        "openai".to_string(),
        sample_models(),
        String::new(),
        "Synced from remote".to_string(),
    );
    app.handle_key(key(KeyCode::Down));
    app.handle_key(key(KeyCode::Enter));
    assert_eq!(app.model.model_name, "gpt-5-codex");
    assert_eq!(app.state, AppState::Idle);
    assert!(matches!(
        app.chat.messages.last(),
        Some(TuiMessage::Assistant(text)) if text.contains("Selected model")
    ));
}

#[test]
fn app_model_browser_refresh_hotkey_sets_request_flag() {
    let mut app = make_app();
    app.open_model_browser(
        "openai".to_string(),
        sample_models(),
        String::new(),
        "Synced from remote".to_string(),
    );
    app.handle_key(key(KeyCode::Char('r')));
    assert!(app.take_model_refresh_request());
    assert!(!app.take_model_refresh_request());
}

#[test]
fn app_model_browser_search_mode_esc_then_close() {
    let mut app = make_app();
    app.open_model_browser(
        "openai".to_string(),
        sample_models(),
        String::new(),
        "Synced from remote".to_string(),
    );
    app.handle_key(key(KeyCode::Char('s')));
    assert!(matches!(app.state, AppState::ModelBrowsing { search_active: true, .. }));
    app.handle_key(key(KeyCode::Esc));
    assert!(matches!(app.state, AppState::ModelBrowsing { search_active: false, .. }));
    app.handle_key(key(KeyCode::Esc));
    assert_eq!(app.state, AppState::Idle);
}

#[test]
fn app_model_browser_slash_starts_search_mode() {
    let mut app = make_app();
    app.open_model_browser(
        "openai".to_string(),
        sample_models(),
        String::new(),
        "Synced from remote".to_string(),
    );
    app.handle_key(key(KeyCode::Char('/')));
    assert!(matches!(app.state, AppState::ModelBrowsing { search_active: true, .. }));
}

#[test]
fn app_take_input_resets() {
    let mut app = make_app();
    app.chat.input = "hello".into();
    app.chat.cursor_pos = 5;
    let taken = app.take_input();
    assert_eq!(taken, "hello");
    assert_eq!(app.chat.input, "");
    assert_eq!(app.chat.cursor_pos, 0);
}

#[test]
fn app_handle_slash_command_help_pushes_local_message() {
    let mut app = make_app();
    let handled = app.handle_slash_command("/help");
    assert!(handled);
    assert!(matches!(&app.chat.messages[0], TuiMessage::Assistant(_)));
}

#[test]
fn app_handle_slash_command_login_opens_login_browser_with_seed() {
    let mut app = make_app();
    let handled = app.handle_slash_command("/login openai");
    assert!(handled);
    assert!(matches!(
        &app.state,
        AppState::LoginBrowsing(LoginBrowsingState { query, step, .. }) if query == "openai" && *step == LoginBrowseStep::SelectProvider
    ));
    assert!(app.chat.messages.is_empty());
}

#[test]
fn app_handle_slash_command_login_without_provider_opens_browser() {
    let mut app = make_app();
    let handled = app.handle_slash_command("/login");
    assert!(handled);
    assert!(
        matches!(&app.state, AppState::LoginBrowsing(LoginBrowsingState { query, .. }) if query.is_empty())
    );
}

#[test]
fn app_handle_slash_command_connection_alias_opens_login_browser() {
    let mut app = make_app();
    let handled = app.handle_slash_command("/connection copilot");
    assert!(handled);
    assert!(matches!(
        &app.state,
        AppState::LoginBrowsing(LoginBrowsingState { query, .. }) if query == "copilot"
    ));
}

#[test]
fn app_handle_key_login_browser_enter_opens_method_step_for_openai() {
    let mut app = make_app();
    app.open_login_browser(Some("openai".to_string()));
    app.handle_key(key(KeyCode::Enter));
    assert!(matches!(
        &app.state,
        AppState::LoginBrowsing(LoginBrowsingState { step, selected_provider, .. })
            if *step == LoginBrowseStep::SelectMethod && selected_provider.as_deref() == Some("openai")
    ));
}

#[test]
fn app_handle_slash_command_clear_clears_history() {
    let mut app = make_app();
    app.push_user("hi".into());
    app.push_assistant("hello".into());
    let handled = app.handle_slash_command("/clear");
    assert!(handled);
    assert!(app.chat.messages.is_empty());
    assert_eq!(app.chat.history_scroll, 0);
}

#[test]
fn app_handle_slash_command_quit_sets_should_quit() {
    let mut app = make_app();
    let handled = app.handle_slash_command("/quit");
    assert!(handled);
    assert!(app.should_quit);
}

#[test]
fn app_handle_slash_command_unknown_adds_error() {
    let mut app = make_app();
    let handled = app.handle_slash_command("/nope");
    assert!(handled);
    assert!(matches!(&app.chat.messages[0], TuiMessage::Error(_)));
}

#[test]
fn app_handle_slash_command_returns_false_for_plain_message() {
    let mut app = make_app();
    let handled = app.handle_slash_command("hello");
    assert!(!handled);
    assert!(app.chat.messages.is_empty());
}

#[test]
fn app_scroll_to_bottom_sets_max() {
    let mut app = make_app();
    app.scroll_to_bottom();
    assert_eq!(app.chat.history_scroll, u16::MAX);
}

#[test]
fn app_command_picker_activates_on_slash() {
    let mut app = make_app();
    assert!(!app.is_palette_active());
    app.handle_key(key(KeyCode::Char('/')));
    assert!(app.is_palette_active());
    assert!(app.chat.input.starts_with('/'));
}

#[test]
fn app_command_picker_filters_by_query() {
    let mut app = make_app();
    app.handle_key(key(KeyCode::Char('/')));
    app.handle_key(key(KeyCode::Char('h')));
    app.handle_key(key(KeyCode::Char('e')));
    assert!(app.is_palette_active());
    let cmds: Vec<SlashCommand> = app.palette_filtered_commands();
    assert_eq!(cmds.len(), 1);
    assert_eq!(cmds[0].name, "/help");
}

#[test]
fn app_command_picker_cursor_navigation() {
    let mut app = make_app();
    app.handle_key(key(KeyCode::Char('/')));
    assert_eq!(app.command_palette_cursor, 0);
    app.handle_key(key(KeyCode::Down));
    assert_eq!(app.command_palette_cursor, 1);
    app.handle_key(key(KeyCode::Down));
    assert_eq!(app.command_palette_cursor, 2);
    app.handle_key(key(KeyCode::Up));
    assert_eq!(app.command_palette_cursor, 1);
    app.handle_key(key(KeyCode::Up));
    app.handle_key(key(KeyCode::Up));
    assert_eq!(app.command_palette_cursor, 0);
}

#[test]
fn app_command_picker_enter_selects() {
    let mut app = make_app();
    app.handle_key(key(KeyCode::Char('/')));
    app.handle_key(key(KeyCode::Char('h')));
    app.handle_key(key(KeyCode::Char('e')));
    assert!(app.is_palette_active());
    let cmd = app.take_palette_command();
    assert_eq!(cmd, Some("/help".to_string()));
    assert_eq!(app.chat.input, "/help");
    assert_eq!(app.command_palette_cursor, 0);
}

#[test]
fn app_command_picker_esc_cancels() {
    let mut app = make_app();
    app.handle_key(key(KeyCode::Char('/')));
    app.handle_key(key(KeyCode::Char('h')));
    assert!(app.is_palette_active());
    app.handle_key(key(KeyCode::Esc));
    assert!(!app.is_palette_active());
    assert_eq!(app.chat.input, "");
    assert_eq!(app.chat.cursor_pos, 0);
    assert_eq!(app.command_palette_cursor, 0);
}

#[test]
fn app_command_picker_deactivates_on_non_slash() {
    let mut app = make_app();
    app.handle_key(key(KeyCode::Char('/')));
    assert!(app.is_palette_active());
    app.handle_key(key(KeyCode::Backspace));
    assert!(!app.is_palette_active());
    assert_eq!(app.chat.input, "");
}

#[test]
fn app_toggle_sidebar_focus_flips_state() {
    let mut app = make_app();
    assert!(!app.sidebar.focused);
    app.toggle_sidebar_focus();
    assert!(app.sidebar.focused);
    app.toggle_sidebar_focus();
    assert!(!app.sidebar.focused);
}

#[test]
fn app_select_sidebar_session_returns_hovered_id() {
    let mut app = make_app();
    app.session.session_list = vec![make_session_entry("s1", "hello"), make_session_entry("s2", "world")];
    app.sidebar.hover = Some(1);
    let selected = app.select_sidebar_session();
    assert_eq!(selected.as_ref().map(|s| s.as_str()), Some("s2"));
    assert_eq!(app.session.pending_sidebar_selection.as_ref().map(|s| s.as_str()), Some("s2"));
    assert!(!app.sidebar.focused);
}

#[test]
fn app_select_sidebar_session_returns_none_when_no_hover() {
    let mut app = make_app();
    app.session.session_list = vec![make_session_entry("s1", "hello")];
    app.sidebar.hover = None;
    assert!(app.select_sidebar_session().is_none());
}

#[test]
fn app_request_delete_session_transitions_to_confirm_delete() {
    let mut app = make_app();
    app.session.session_list = vec![make_session_entry("s1", "hello world")];
    app.sidebar.hover = Some(0);
    let del_id = app.request_delete_session();
    assert_eq!(del_id.as_ref().map(|s| s.as_str()), Some("s1"));
    assert!(matches!(app.state, AppState::ConfirmDelete { .. }));
}

#[test]
fn app_request_delete_session_returns_none_when_no_hover() {
    let mut app = make_app();
    app.session.session_list = vec![make_session_entry("s1", "hello")];
    app.sidebar.hover = None;
    assert!(app.request_delete_session().is_none());
}

#[test]
fn app_remove_session_from_list_removes_entry() {
    let mut app = make_app();
    app.session.session_list = vec![
        make_session_entry("s1", "hello"),
        make_session_entry("s2", "world"),
        make_session_entry("s3", "foo"),
    ];
    app.sidebar.hover = Some(2);
    app.remove_session_from_list("s2");
    assert_eq!(app.session.session_list.len(), 2);
    assert_eq!(app.session.session_list[0].id.as_str(), "s1");
    assert_eq!(app.session.session_list[1].id.as_str(), "s3");
    assert!(app.sidebar.hover.unwrap() < app.session.session_list.len());
}

#[test]
fn app_remove_session_from_list_clears_hover_when_empty() {
    let mut app = make_app();
    app.session.session_list = vec![make_session_entry("s1", "hello")];
    app.sidebar.hover = Some(0);
    app.remove_session_from_list("s1");
    assert!(app.session.session_list.is_empty());
    assert!(app.sidebar.hover.is_none());
}

#[test]
fn app_load_session_messages_converts_agent_messages() {
    let mut app = make_app();
    let messages = vec![agent_message(Role::User, "hello"), agent_message(Role::Assistant, "hi there")];
    app.load_session_messages("test-session".to_string(), messages);
    assert_eq!(app.chat.messages.len(), 2);
    assert!(matches!(&app.chat.messages[0], TuiMessage::User(t) if t == "hello"));
    assert!(matches!(&app.chat.messages[1], TuiMessage::Assistant(t) if t == "hi there"));
    assert_eq!(app.state, AppState::Idle);
}

#[test]
fn app_load_session_messages_handles_tool_calls() {
    let mut app = make_app();
    let mut assistant = agent_message(Role::Assistant, "");
    assistant.tool_calls = Some(vec![ToolCallRecord {
        name: "system.run".to_string(),
        arguments: "{\"command\":\"ls\"}".to_string(),
    }]);
    let mut tool = agent_message(Role::Tool, "file.rs");
    tool.tool_name = Some("system.run".to_string());
    app.load_session_messages("test-session".to_string(), vec![assistant, tool]);
    assert_eq!(app.chat.messages.len(), 2);
    assert!(matches!(&app.chat.messages[0], TuiMessage::ToolCall { tool_name, .. } if tool_name == "system.run"));
    assert!(matches!(&app.chat.messages[1], TuiMessage::ToolResult { tool_name, .. } if tool_name == "system.run"));
}

#[test]
fn app_refresh_session_list_replaces_entries() {
    let mut app = make_app();
    app.session.session_list = vec![make_session_entry("old", "old")];
    let new_sessions = vec![make_session_entry("new1", "first"), make_session_entry("new2", "second")];
    app.refresh_session_list(new_sessions);
    assert_eq!(app.session.session_list.len(), 2);
    assert_eq!(app.session.session_list[0].id.as_str(), "new1");
}

#[test]
fn app_take_confirmed_delete_consumes_value() {
    let mut app = make_app();
    app.session.confirmed_delete = Some("del-me".to_string());
    let taken = app.take_confirmed_delete();
    assert_eq!(taken.as_ref().map(|s| s.as_str()), Some("del-me"));
    assert!(app.take_confirmed_delete().is_none());
}

#[test]
fn app_toggle_sidebar_focus_noop_when_hidden() {
    let mut app = make_app();
    app.sidebar.visible = false;
    app.sidebar.focused = false;
    app.toggle_sidebar_focus();
    assert!(!app.sidebar.focused);
}

#[test]
fn app_confirm_delete_dialog_y_confirms() {
    let mut app = make_app();
    app.session.session_list = vec![make_session_entry("s1", "hello"), make_session_entry("s2", "world")];
    app.sidebar.hover = Some(1);
    app.request_delete_session();
    assert!(matches!(app.state, AppState::ConfirmDelete { .. }));
    app.handle_key(key(KeyCode::Char('y')));
    assert_eq!(app.state, AppState::Idle);
    let del = app.take_confirmed_delete();
    assert_eq!(del.as_ref().map(|s| s.as_str()), Some("s2"));
}

#[test]
fn app_confirm_delete_dialog_n_cancels() {
    let mut app = make_app();
    app.session.session_list = vec![make_session_entry("s1", "hello"), make_session_entry("s2", "world")];
    app.sidebar.hover = Some(1);
    app.request_delete_session();
    assert!(matches!(app.state, AppState::ConfirmDelete { .. }));
    app.handle_key(key(KeyCode::Char('n')));
    assert_eq!(app.state, AppState::Idle);
    assert!(app.take_confirmed_delete().is_none());
}

#[test]
fn app_sidebar_focused_navigation_down() {
    let mut app = make_app();
    app.session.session_list = vec![
        make_session_entry("s1", "a"),
        make_session_entry("s2", "b"),
        make_session_entry("s3", "c"),
        make_session_entry("s4", "d"),
        make_session_entry("s5", "e"),
    ];
    app.sidebar.visible = true;
    app.sidebar.focused = true;
    app.sidebar.hover = Some(0);
    app.handle_key(key(KeyCode::Char('j')));
    assert_eq!(app.sidebar.hover, Some(1));
    app.handle_key(key(KeyCode::Down));
    assert_eq!(app.sidebar.hover, Some(2));
    app.handle_key(key(KeyCode::Char('k')));
    assert_eq!(app.sidebar.hover, Some(1));
    app.handle_key(key(KeyCode::Up));
    assert_eq!(app.sidebar.hover, Some(0));
}

#[test]
fn app_sidebar_focused_enter_sets_pending_selection() {
    let mut app = make_app();
    app.session.session_list =
        vec![make_session_entry("s1", "a"), make_session_entry("s2", "b"), make_session_entry("s3", "c")];
    app.sidebar.visible = true;
    app.sidebar.focused = true;
    app.sidebar.hover = Some(1);
    app.handle_key(key(KeyCode::Enter));
    let pending = app.take_pending_sidebar_selection();
    assert_eq!(pending.as_ref().map(|s| s.as_str()), Some("s2"));
    assert!(!app.sidebar.focused);
}

#[test]
fn app_sidebar_focused_d_triggers_confirm_delete() {
    let mut app = make_app();
    app.session.session_list =
        vec![make_session_entry("s1", "a"), make_session_entry("s2", "b"), make_session_entry("s3", "c")];
    app.sidebar.visible = true;
    app.sidebar.focused = true;
    app.sidebar.hover = Some(2);
    app.handle_key(key(KeyCode::Char('d')));
    assert!(matches!(app.state, AppState::ConfirmDelete { .. }));
    if let AppState::ConfirmDelete { session_id, .. } = &app.state {
        assert_eq!(session_id, "s3");
    }
}

#[test]
fn app_open_session_browser_sets_state() {
    let mut app = make_app();
    app.open_session_browser();
    assert!(matches!(app.state, AppState::SessionBrowsing { search_active: false, .. }));
}

#[test]
fn app_session_browser_esc_closes() {
    let mut app = make_app();
    app.session.session_list = vec![make_session_entry("s1", "hello")];
    app.open_session_browser();
    app.handle_key(key(KeyCode::Esc));
    assert_eq!(app.state, AppState::Idle);
}

#[test]
fn app_session_browser_search_mode_esc_then_close() {
    let mut app = make_app();
    app.session.session_list = vec![make_session_entry("s1", "hello")];
    app.open_session_browser();
    app.handle_key(key(KeyCode::Char('s')));
    assert!(matches!(app.state, AppState::SessionBrowsing { search_active: true, .. }));
    app.handle_key(key(KeyCode::Esc));
    assert!(matches!(app.state, AppState::SessionBrowsing { search_active: false, .. }));
    app.handle_key(key(KeyCode::Esc));
    assert_eq!(app.state, AppState::Idle);
}

#[test]
fn app_session_browser_slash_starts_search_mode() {
    let mut app = make_app();
    app.session.session_list = vec![make_session_entry("s1", "hello")];
    app.open_session_browser();
    app.handle_key(key(KeyCode::Char('/')));
    assert!(matches!(app.state, AppState::SessionBrowsing { search_active: true, .. }));
}

#[test]
fn app_session_browser_navigation_j_k() {
    let mut app = make_app();
    app.session.session_list = vec![
        make_session_entry("s1", "first"),
        make_session_entry("s2", "second"),
        make_session_entry("s3", "third"),
    ];
    app.open_session_browser();
    app.handle_key(key(KeyCode::Char('j')));
    if let AppState::SessionBrowsing { cursor, .. } = &app.state {
        assert_eq!(*cursor, 1);
    } else {
        panic!("expected SessionBrowsing");
    }
    app.handle_key(key(KeyCode::Char('k')));
    if let AppState::SessionBrowsing { cursor, .. } = &app.state {
        assert_eq!(*cursor, 0);
    } else {
        panic!("expected SessionBrowsing");
    }
}

#[test]
fn app_session_browser_enter_loads_session() {
    let mut app = make_app();
    app.session.session_list = vec![make_session_entry("s1", "first"), make_session_entry("s2", "second")];
    app.open_session_browser();
    app.handle_key(key(KeyCode::Char('j')));
    app.handle_key(key(KeyCode::Enter));
    assert_eq!(app.state, AppState::Idle);
    let pending = app.take_pending_sidebar_selection();
    assert_eq!(pending.as_ref().map(|s| s.as_str()), Some("s2"));
}

#[test]
fn app_session_browser_n_creates_new() {
    let mut app = make_app();
    app.session.session_list = vec![make_session_entry("s1", "hello")];
    app.open_session_browser();
    app.handle_key(key(KeyCode::Char('n')));
    assert_eq!(app.state, AppState::Idle);
    assert!(app.session.session_browser_new_requested);
}

#[test]
fn app_session_browser_d_triggers_delete() {
    let mut app = make_app();
    app.session.session_list = vec![make_session_entry("s1", "first"), make_session_entry("s2", "second")];
    app.open_session_browser();
    app.handle_key(key(KeyCode::Char('j')));
    app.handle_key(key(KeyCode::Char('d')));
    assert!(matches!(app.state, AppState::ConfirmDelete { .. }));
    if let AppState::ConfirmDelete { session_id, .. } = &app.state {
        assert_eq!(session_id, "s2");
    }
}

#[test]
fn app_session_browser_ctrl_c_closes() {
    let mut app = make_app();
    app.session.session_list = vec![make_session_entry("s1", "hello")];
    app.open_session_browser();
    app.handle_key(KeyEvent::new(KeyCode::Char('c'), KeyModifiers::CONTROL));
    assert_eq!(app.state, AppState::Idle);
}

#[test]
fn app_visible_sessions_filters_by_query() {
    let mut app = make_app();
    app.session.session_list = vec![
        make_session_entry("abc123", "deploy script"),
        make_session_entry("def456", "test runner"),
        make_session_entry("ghi789", "deploy fix"),
    ];
    let all = app.visible_sessions("");
    assert_eq!(all.len(), 3);
    let deploy = app.visible_sessions("deploy");
    assert_eq!(deploy.len(), 2);
    assert_eq!(deploy[0].id.as_str(), "abc123");
    assert_eq!(deploy[1].id.as_str(), "ghi789");
    let by_id = app.visible_sessions("def");
    assert_eq!(by_id.len(), 1);
    assert_eq!(by_id[0].id.as_str(), "def456");
}

#[test]
fn app_session_browser_search_typing_filters() {
    let mut app = make_app();
    app.session.session_list = vec![make_session_entry("s1", "deploy script"), make_session_entry("s2", "test runner")];
    app.open_session_browser();
    app.handle_key(key(KeyCode::Char('s')));
    app.handle_key(key(KeyCode::Char('d')));
    app.handle_key(key(KeyCode::Char('e')));
    app.handle_key(key(KeyCode::Char('p')));
    if let AppState::SessionBrowsing { query, cursor, .. } = &app.state {
        assert_eq!(query, "dep");
        assert_eq!(*cursor, 0);
        let visible = app.visible_sessions(query);
        assert_eq!(visible.len(), 1);
        assert_eq!(visible[0].preview, "deploy script");
    } else {
        panic!("expected SessionBrowsing");
    }
}

#[test]
fn conversation_count_counts_user_and_assistant() {
    let mut app = make_app();
    app.push_user("hi".into());
    app.push_assistant("hello".into());
    app.chat.messages.push(TuiMessage::ToolCall {
        tool_name: "t".into(),
        args_preview: "{}".into(),
        done: false,
    });
    app.push_error("err".into());
    assert_eq!(app.conversation_count(), 2);
}
