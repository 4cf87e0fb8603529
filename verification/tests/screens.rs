use openpista_tui::app::SlashCommand;
use openpista_tui::catalog::{ModelCatalogEntry, ModelSource, ModelStatus};
use openpista_tui::commands::{Credentials, ProviderCredential};
use openpista_tui::keys::{KeyModifiers, MouseButton, MouseEvent, MouseEventKind, Rect};
use openpista_tui::providers::{AuthMethodChoice, LoginBrowseStep};
use openpista_tui::state::{
    AppState, LoginBrowsingState, Screen, PendingApproval, SessionEntry, ToolApprovalRequest, TuiApp, TuiMessage,
    WhatsAppSetupStep,
};
use openpista_tui::view::{
    clamp_scroll, confirm_delete_lines, palette_lines, popup_area, qr_overlay_lines, search_line,
    session_header_line, session_rows_lines, split_lines, whatsapp_lines, whatsapp_title_line, Span, Tone,
};

fn make_app() -> TuiApp {
    TuiApp::new("gpt-4o", "session-test".to_string(), "cli:tui".to_string(), "openai")
}

fn texts(line: &[Span]) -> Vec<String> {
    line.iter().map(|s| s.text.clone()).collect()
}

fn joined(lines: &[Vec<Span>]) -> Vec<String> {
    lines.iter().map(|l| l.iter().map(|s| s.text.as_str()).collect::<String>()).collect()
}

#[test]
fn title_line_names_model_and_session() {
    let app = make_app();
    let l = app.title_line();
    assert_eq!(texts(&l), vec![" Chat ", " model:gpt-4o ", " session:session-test "]);
    assert_eq!(l[0].tone, Tone::Accent);
    assert!(l[0].bold);
}

#[test]
fn input_box_hint_mask_and_text() {
    let mut app = make_app();
    let b = app.input_box();
    assert_eq!(b.text, "Type a message...");
    assert!(b.hint && b.active);
    assert_eq!(b.title, " Input ");
    app.state = AppState::AuthPrompting {
        provider: "openai".to_string(),
        env_name: "OPENAI_API_KEY".to_string(),
        endpoint: None,
        endpoint_env: None,
    };
    assert_eq!(app.input_box().text, "Paste your API key here...");
    app.chat.input = "sk-\u{00e9}".to_string();
    let b = app.input_box();
    assert_eq!(b.text, "****");
    assert_eq!(b.title, " Auth ");
    assert!(!b.hint);
    app.state = AppState::Thinking { round: 0 };
    let b = app.input_box();
    assert_eq!(b.text, "sk-\u{00e9}");
    assert!(!b.active);
}

#[test]
fn confirm_delete_dialog_lines() {
    let lines = confirm_delete_lines("hello");
    assert_eq!(joined(&lines), vec![" Delete session? ", " hello", "", " y/Enter: delete  n/Esc: cancel"]);
    assert_eq!(lines[3][2].tone, Tone::Success);
}

#[test]
fn qr_overlay_frames_code_and_url() {
    let lines = qr_overlay_lines("http://x", &vec!["\u{2588}\u{2580}".to_string()]);
    assert_eq!(joined(&lines), vec![" \u{2588}\u{2580} ", "", " http://x ", " Esc/Enter: close "]);
    assert_eq!(lines[2][0].tone, Tone::Info);
}

#[test]
fn whatsapp_screens() {
    let step = WhatsAppSetupStep::Connected { phone: "+1".to_string(), name: "Bo".to_string() };
    assert_eq!(texts(&whatsapp_title_line(&step)), vec![" WhatsApp Pairing ", "(Connected \u{2713})"]);
    assert_eq!(
        joined(&whatsapp_lines(&step)),
        vec!["", " \u{2713} WhatsApp paired successfully!", "", "   Phone:  +1", "   Name:   Bo", "", " Esc: close"]
    );
    let qr = WhatsAppSetupStep::DisplayQr { qr_data: "d".to_string(), qr_lines: vec!["ab".to_string(), "cd".to_string()] };
    let lines = joined(&whatsapp_lines(&qr));
    assert_eq!(lines.len(), 7);
    assert_eq!(lines[3], "  ab");
    assert_eq!(lines[4], "  cd");
    assert_eq!(lines[6], " Esc: cancel");
    assert_eq!(joined(&whatsapp_lines(&WhatsAppSetupStep::WaitingForQr))[1], " Starting WhatsApp bridge\u{2026}");
}

#[test]
fn palette_rows_pad_names_and_mark_login() {
    let cmds = vec![
        SlashCommand { name: "/login".to_string(), description: "Change API credentials".to_string() },
        SlashCommand { name: "/qr".to_string(), description: "Show QR".to_string() },
    ];
    let lines = palette_lines(&cmds, 1, true);
    assert_eq!(texts(&lines[0]), vec!["  ", "/login", "  ", "\u{25cf} ", "Change API credentials"]);
    assert_eq!(texts(&lines[1]), vec!["\u{203a} ", "/qr", "     ", "Show QR"]);
    assert_eq!(lines[1][3].tone, Tone::PaletteSelected);
    let plain = palette_lines(&cmds, 0, false);
    assert_eq!(plain[0].len(), 4);
}

#[test]
fn login_picker_lists_matching_providers_with_auth_dots() {
    let mut app = make_app();
    app.state = AppState::LoginBrowsing(LoginBrowsingState {
        query: "open".to_string(),
        cursor: 1,
        scroll: 0,
        step: LoginBrowseStep::SelectProvider,
        selected_provider: None,
        selected_method: None,
        input_buffer: String::new(),
        masked_buffer: String::new(),
        last_error: Some("bad".to_string()),
        endpoint: None,
    });
    let mut creds = Credentials::new();
    creds.set(
        "openai".to_string(),
        ProviderCredential { access_token: "k".to_string(), refresh_token: None, expires_at: None, endpoint: None },
    );
    let lines = app.login_lines(&creds, 0);
    assert_eq!(
        joined(&lines),
        vec![" Select provider ", "", " Search: open", " \u{25cb} OpenAI \u{25cf}", " \u{25cf} OpenRouter", "", "Error: bad"]
    );
    assert_eq!(lines[4][0].tone, Tone::Marker);
}

#[test]
fn login_picker_api_key_step_masks_key() {
    let mut app = make_app();
    app.state = AppState::LoginBrowsing(LoginBrowsingState {
        query: String::new(),
        cursor: 0,
        scroll: 0,
        step: LoginBrowseStep::InputApiKey,
        selected_provider: Some("custom".to_string()),
        selected_method: Some(AuthMethodChoice::ApiKey),
        input_buffer: "abc".to_string(),
        masked_buffer: "***".to_string(),
        last_error: None,
        endpoint: Some("http://h".to_string()),
    });
    assert_eq!(
        joined(&app.login_lines(&Credentials::new(), 0)),
        vec![" Enter API key ", "", " Provider: custom", " Endpoint: http://h", " API key: ***"]
    );
    assert!(make_app().login_lines(&Credentials::new(), 0).is_empty());
}

fn entry(id: &str, provider: &str) -> ModelCatalogEntry {
    ModelCatalogEntry {
        id: id.to_string(),
        provider: provider.to_string(),
        recommended_for_coding: true,
        status: ModelStatus::Stable,
        source: ModelSource::Docs,
        available: true,
    }
}

#[test]
fn model_browser_header_and_rows() {
    let mut app = make_app();
    app.open_model_browser("openai".to_string(), vec![entry("o3", "openai")], String::new(), "Offline cache".to_string());
    let h = app.model_browser_header();
    assert_eq!(texts(&h), vec![" Models ", "(openai) ", " Offline cache "]);
    assert_eq!(h[2].tone, Tone::Warning);
    let lines = app.model_browser_lines();
    assert_eq!(joined(&lines), vec!["\u{203a} o3  [openai]"]);
    assert_eq!(lines[0][1].tone, Tone::Fg);
    assert_eq!(search_line("o", true), " Search (typing): o");
    assert_eq!(search_line("o", false), " Search: o");
}

#[test]
fn session_rows_mark_active_and_cut_ids() {
    let rows = vec![
        SessionEntry { id: "abcdefghij".to_string(), channel_id: "c".to_string(), updated_at: 0, preview: "p".to_string() },
        SessionEntry { id: "s2".to_string(), channel_id: "c".to_string(), updated_at: 0, preview: "q".to_string() },
    ];
    let lines = session_rows_lines(
        &rows,
        "s2",
        0,
        "",
        &vec!["hello".to_string(), "world".to_string()],
        &vec!["1m ago".to_string(), "now".to_string()],
    );
    assert_eq!(texts(&lines[0]), vec!["\u{203a} ", "abcdefgh", "  hello", "  1m ago", ""]);
    assert_eq!(texts(&lines[1]), vec!["  ", "s2", "  world", "  now", " \u{2190} active"]);
    assert_eq!(lines[1][1].tone, Tone::Accent);
    let none = session_rows_lines(&Vec::new(), "s2", 0, "zz", &Vec::new(), &Vec::new());
    assert_eq!(joined(&none), vec!["  No matches for 'zz'."]);
    assert_eq!(texts(&session_header_line(12)), vec![" Sessions ", "(12) "]);
}

#[test]
fn split_lines_follows_str_lines() {
    assert_eq!(split_lines("a\r\nb\n"), vec!["a", "b"]);
    assert_eq!(split_lines(""), Vec::<String>::new());
    assert_eq!(split_lines("a\n\nb"), vec!["a", "", "b"]);
    assert_eq!(split_lines("x\r"), vec!["x\r"]);
    for s in ["a\r\nb\n", "a\n\nb", "\n", "x\r", "one"] {
        assert_eq!(split_lines(s), s.lines().map(|l| l.to_string()).collect::<Vec<_>>());
    }
}

#[test]
fn chat_lines_label_each_message() {
    let mut app = make_app();
    app.push_user("hi".to_string());
    app.push_assistant("one\ntwo".to_string());
    app.chat.messages.push(TuiMessage::ToolCall { tool_name: "bash".to_string(), args_preview: "ls".to_string(), done: true });
    app.chat.messages.push(TuiMessage::ToolResult { tool_name: "bash".to_string(), output_preview: "ok".to_string(), is_error: true });
    app.push_error("bad".to_string());
    let lines = app.chat_lines();
    assert_eq!(
        joined(&lines),
        vec!["", "You: hi", "", "Agent: one", "       two", "  [\u{2713} bash] ls", "    [bash] \u{2192} ok", "", "Error: bad"]
    );
    assert_eq!(lines[6][0].tone, Tone::Error);
}

#[test]
fn approval_dialog_pretty_prints_arguments() {
    let mut app = make_app();
    assert!(app.approval_lines().is_empty());
    app.chat.pending_approval = Some(PendingApproval {
        request: ToolApprovalRequest { tool_name: "bash".to_string(), arguments: "{\"cmd\":\"ls\"}".to_string() },
    });
    let lines = joined(&app.approval_lines());
    assert_eq!(lines[0], " Tool Approval Required ");
    assert_eq!(lines[1], " Tool: bash");
    assert_eq!(lines[2], " Args: {\n  \"cmd\": \"ls\"\n}");
    assert_eq!(lines[4], " y: approve  n: reject  a: allow for session");
    app.chat.pending_approval = Some(PendingApproval {
        request: ToolApprovalRequest { tool_name: "t".to_string(), arguments: "not json".to_string() },
    });
    assert_eq!(joined(&app.approval_lines())[2], " Args: not json");
}

#[test]
fn scroll_and_popup_geometry() {
    assert_eq!(clamp_scroll(10, 30, 25), 5);
    assert_eq!(clamp_scroll(3, 30, 25), 3);
    assert_eq!(clamp_scroll(3, 10, 25), 0);
    assert_eq!(popup_area(Rect::new(0, 0, 100, 40), 50, 5), Rect::new(25, 17, 50, 5));
    assert_eq!(popup_area(Rect::new(0, 0, 10, 4), 50, 5), Rect::new(0, 0, 50, 5));
}

#[test]
fn mouse_event_range_check() {
    let mut app = make_app();
    app.screen = Screen::Chat;
    app.sidebar.visible = true;
    let frame = Rect::new(0, 0, 100, 50);
    let click = MouseEvent { kind: MouseEventKind::Down(MouseButton::Left), column: 75, row: 5, modifiers: KeyModifiers::NONE };
    assert!(app.mouse_event_in_range(click, frame));
    app.sidebar.scroll = 30_000;
    assert!(!app.mouse_event_in_range(click, frame));
    let outside = MouseEvent { kind: MouseEventKind::ScrollDown, column: 5, row: 5, modifiers: KeyModifiers::NONE };
    assert!(app.mouse_event_in_range(outside, frame));
}

#[test]
fn session_search_ignores_case() {
    let mut app = make_app();
    app.session.session_list = vec![
        SessionEntry { id: "s1".to_string(), channel_id: "c".to_string(), updated_at: 0, preview: "Hello World".to_string() },
        SessionEntry { id: "s2".to_string(), channel_id: "c".to_string(), updated_at: 0, preview: "other".to_string() },
    ];
    let found = app.visible_sessions("WORLD");
    assert_eq!(found.len(), 1);
    assert_eq!(found[0].id, "s1");
}
