use openpista_tui::action::Action;
use openpista_tui::catalog::{ModelCatalogEntry, ModelSource, ModelStatus};
use openpista_tui::commands::{
    collect_authenticated_providers, credentials_path, format_model_list, persist_credential, plan_credential,
    runtime_note, CredentialPlan, Credentials, ProviderCredential, ProviderSettings, ResolvedCredential,
};
use openpista_tui::driver::{CatalogRequest, Submission};
use openpista_tui::keys::{KeyCode, KeyEvent, KeyModifiers};
use openpista_tui::providers::{AuthLoginIntent, AuthMethodChoice};
use openpista_tui::qr::{generate_qr_lines, qr_lines_from_modules};
use openpista_tui::state::{
    AppState, PendingApproval, Screen, ToolApprovalDecision, ToolApprovalRequest, TuiApp, TuiMessage, WebConfigStep,
    WebConfiguringState,
};

fn make_app() -> TuiApp {
    TuiApp::new("gpt-4o", "session-test".to_string(), "cli:tui".to_string(), "openai")
}

fn key(code: KeyCode) -> KeyEvent {
    KeyEvent::new(code, KeyModifiers::NONE)
}

fn entry(id: &str, provider: &str, rec: bool, source: ModelSource, available: bool) -> ModelCatalogEntry {
    ModelCatalogEntry {
        id: id.to_string(),
        provider: provider.to_string(),
        recommended_for_coding: rec,
        status: ModelStatus::Stable,
        source,
        available,
    }
}

fn cred(token: &str, expires_at: Option<i64>) -> ProviderCredential {
    ProviderCredential { access_token: token.to_string(), refresh_token: None, expires_at, endpoint: None }
}

fn intent(provider: &str, method: AuthMethodChoice, endpoint: Option<&str>, key: Option<&str>) -> AuthLoginIntent {
    AuthLoginIntent {
        provider: provider.to_string(),
        auth_method: method,
        endpoint: endpoint.map(|s| s.to_string()),
        api_key: key.map(|s| s.to_string()),
    }
}

// ── The model list ─────────────────────────────────────────────

#[test]
fn format_model_list_groups_available_models() {
    let entries = vec![
        entry("gpt-5-codex", "openai", true, ModelSource::Docs, true),
        entry("o3", "openai", false, ModelSource::Api, true),
        entry("hidden", "openai", true, ModelSource::Docs, false),
    ];
    let text = format_model_list(&entries, &["openai: synced".to_string(), "x".to_string()]);
    assert_eq!(
        text,
        "Models \u{2014} 3 total\n\nRecommended:\n  \u{2605}  gpt-5-codex [openai]\n\nOther:\n     o3 [openai] (api)\n\nSync: openai: synced; x"
    );
}

#[test]
fn format_model_list_empty_catalog() {
    assert_eq!(format_model_list(&[], &[]), "Models \u{2014} 0 total\n");
}

// ── Credentials ────────────────────────────────────────────────

#[test]
fn credential_read_after_write() {
    let mut creds = Credentials::new();
    creds.set("openai".to_string(), cred("sk-1", None));
    creds.set("together".to_string(), cred("tg-1", None));
    creds.set("openai".to_string(), cred("sk-2", Some(10)));
    assert_eq!(creds.get("openai"), Some(cred("sk-2", Some(10))));
    assert_eq!(creds.get("together"), Some(cred("tg-1", None)));
    assert_eq!(creds.get("custom"), None);
}

#[test]
fn persist_credential_stores_for_provider() {
    let creds = persist_credential("together".to_string(), cred("tg-key", None), Credentials::new());
    assert_eq!(creds.get("together"), Some(cred("tg-key", None)));
}

#[test]
fn credentials_path_is_under_home() {
    assert_eq!(credentials_path("/home/u"), "/home/u/.openpista/credentials.toml");
}

#[test]
fn credential_expiry_and_authentication() {
    assert!(!cred("a", None).is_expired(1_000));
    assert!(!cred("a", Some(2_000)).is_expired(1_999));
    assert!(cred("a", Some(2_000)).is_expired(2_000));
    let app = make_app();
    let mut creds = Credentials::new();
    assert!(!app.is_authenticated(&creds, 0));
    creds.set("openai".to_string(), cred("sk", Some(100)));
    assert!(app.is_authenticated(&creds, 99));
    assert!(!app.is_authenticated(&creds, 100));
}

// ── Providers whose catalogs are loaded ───────────────────────

#[test]
fn collect_authenticated_providers_adds_active_provider() {
    let settings = ProviderSettings {
        presets: vec![
            ("openai".to_string(), Some(ResolvedCredential { base_url: None, api_key: "sk".to_string() })),
            ("together".to_string(), None),
        ],
        active: "custom".to_string(),
        active_api_key: "ck".to_string(),
        active_base_url: Some("http://x".to_string()),
    };
    let r = collect_authenticated_providers(&settings);
    assert_eq!(
        r,
        vec![
            ("openai".to_string(), None, "sk".to_string()),
            ("custom".to_string(), Some("http://x".to_string()), "ck".to_string()),
        ]
    );
}

#[test]
fn collect_authenticated_providers_skips_active_without_key_or_listed() {
    let settings = ProviderSettings {
        presets: vec![("openai".to_string(), Some(ResolvedCredential { base_url: None, api_key: "sk".to_string() }))],
        active: "openai".to_string(),
        active_api_key: "other".to_string(),
        active_base_url: None,
    };
    assert_eq!(collect_authenticated_providers(&settings).len(), 1);
    let settings2 = ProviderSettings {
        presets: Vec::new(),
        active: "together".to_string(),
        active_api_key: String::new(),
        active_base_url: None,
    };
    assert!(collect_authenticated_providers(&settings2).is_empty());
}

// ── What a login stores ───────────────────────────────────────

#[test]
fn plan_credential_api_key_provider() {
    let plan = plan_credential(&intent("Together", AuthMethodChoice::ApiKey, None, Some("  tg-key  "))).unwrap();
    assert_eq!(
        plan,
        CredentialPlan::Store {
            provider: "together".to_string(),
            credential: cred("tg-key", None),
            message: "Saved API key for 'together'. It will be used on the next launch (equivalent to setting TOGETHER_API_KEY).".to_string(),
        }
    );
}

#[test]
fn plan_credential_endpoint_provider() {
    let plan =
        plan_credential(&intent("custom", AuthMethodChoice::ApiKey, Some(" http://h:1 "), Some("ck"))).unwrap();
    assert_eq!(
        plan,
        CredentialPlan::Store {
            provider: "custom".to_string(),
            credential: ProviderCredential {
                access_token: "ck".to_string(),
                refresh_token: None,
                expires_at: None,
                endpoint: Some("http://h:1".to_string()),
            },
            message: "Saved endpoint+key for 'custom'. Endpoint stored as OPENPISTA_BASE_URL.".to_string(),
        }
    );
}

#[test]
fn plan_credential_oauth_goes_to_browser() {
    let plan = plan_credential(&intent("openai", AuthMethodChoice::OAuth, None, None)).unwrap();
    assert_eq!(plan, CredentialPlan::BrowserLogin { provider: "openai".to_string(), supports_runtime: true });
}

#[test]
fn plan_credential_errors() {
    let unknown = plan_credential(&intent("nope", AuthMethodChoice::ApiKey, None, Some("k"))).unwrap_err();
    assert_eq!(
        unknown,
        "Unknown provider 'nope'. Available providers: openai, anthropic, together, ollama, openrouter, custom"
    );
    assert_eq!(
        plan_credential(&intent("ollama", AuthMethodChoice::ApiKey, None, Some("k"))).unwrap_err(),
        "Provider 'ollama' does not require authentication"
    );
    assert_eq!(
        plan_credential(&intent("together", AuthMethodChoice::ApiKey, None, None)).unwrap_err(),
        "API key input is required"
    );
    assert_eq!(
        plan_credential(&intent("together", AuthMethodChoice::ApiKey, None, Some("a b"))).unwrap_err(),
        "API key must not contain whitespace"
    );
    assert_eq!(
        plan_credential(&intent("together", AuthMethodChoice::ApiKey, None, Some("  "))).unwrap_err(),
        "API key cannot be empty"
    );
    assert_eq!(
        plan_credential(&intent("custom", AuthMethodChoice::ApiKey, Some("   "), Some("ck"))).unwrap_err(),
        "Endpoint is required for this provider"
    );
}

#[test]
fn runtime_note_appends_when_unsupported() {
    assert_eq!(runtime_note(true, "Saved."), "Saved.");
    assert_eq!(runtime_note(false, "Saved."), "Saved. Credential stored; runtime execution not yet wired.");
}

// ── QR codes ───────────────────────────────────────────────────

#[test]
fn qr_lines_from_modules_uses_half_blocks() {
    let dark = vec![true, false, true, false, true, false, true, true, false];
    let lines = qr_lines_from_modules(3, &dark);
    assert_eq!(lines, vec!["\u{2580}\u{2584}\u{2580}".to_string(), "\u{2580}\u{2580} ".to_string()]);
}

#[test]
fn generate_qr_lines_draws_a_square_code() {
    let lines = generate_qr_lines("https://example.com/pair").unwrap();
    assert!(lines.len() >= 11);
    let w = lines[0].chars().count();
    assert!(w >= 21);
    assert_eq!(lines.len(), (w + 1) / 2);
    for l in &lines {
        assert_eq!(l.chars().count(), w);
        assert!(l.chars().all(|c| c == ' ' || c == '\u{2580}' || c == '\u{2584}' || c == '\u{2588}'));
    }
    assert!(lines[0].starts_with('\u{2588}'));
}

// ── Submitting input ──────────────────────────────────────────

#[test]
fn submit_plain_message_runs_agent() {
    let mut app = make_app();
    app.chat.input = "hello".to_string();
    app.chat.cursor_pos = 5;
    let r = app.submit_input("openai", false);
    assert_eq!(r, Some(Submission::RunAgent("hello".to_string())));
    assert_eq!(app.state, AppState::Thinking { round: 0 });
    assert!(app.chat.input.is_empty());
    assert!(matches!(app.chat.messages.last(), Some(TuiMessage::User(t)) if t == "hello"));
}

#[test]
fn submit_model_commands() {
    let mut app = make_app();
    app.chat.input = "/model list".to_string();
    assert_eq!(app.submit_input("openai", false), Some(Submission::LoadCatalog(CatalogRequest::List)));
    let mut app2 = make_app();
    app2.chat.input = "/model".to_string();
    assert_eq!(app2.submit_input("openai", false), Some(Submission::LoadCatalog(CatalogRequest::Browse(String::new()))));
    assert!(matches!(app2.state, AppState::ModelBrowsing { .. }));
    let mut app3 = make_app();
    app3.chat.input = "/model".to_string();
    assert_eq!(app3.submit_input("openai", true), Some(Submission::Handled));
    assert!(matches!(app3.chat.messages.last(), Some(TuiMessage::Error(t)) if t == "Model sync is already in progress. Please wait."));
}

#[test]
fn submit_empty_or_busy_does_nothing() {
    let mut app = make_app();
    assert_eq!(app.submit_input("openai", false), None);
    app.chat.input = "x".to_string();
    app.state = AppState::Thinking { round: 1 };
    assert_eq!(app.submit_input("openai", false), None);
    assert_eq!(app.chat.input, "x");
}

#[test]
fn apply_catalog_list_prints_models() {
    let mut app = make_app();
    app.apply_catalog(Some(CatalogRequest::List), vec![entry("o3", "openai", true, ModelSource::Docs, true)], vec!["openai: ok".to_string()]);
    assert!(matches!(app.chat.messages.last(), Some(TuiMessage::Assistant(t)) if t.starts_with("Models \u{2014} 1 total")));
}

#[test]
fn finish_auth_reports_and_returns_to_idle() {
    let mut app = make_app();
    app.state = AppState::Thinking { round: 0 };
    app.finish_auth(Err("boom".to_string()));
    assert_eq!(app.state, AppState::Idle);
    assert!(matches!(app.chat.messages.last(), Some(TuiMessage::Error(t)) if t == "Authentication failed: boom"));
}

// ── Laws on concrete values ───────────────────────────────────

#[test]
fn type_then_backspace_restores_input() {
    let mut app = make_app();
    app.chat.input = "ab".to_string();
    app.chat.cursor_pos = 1;
    app.handle_key(key(KeyCode::Char('\u{00e9}')));
    assert_eq!(app.chat.input, "a\u{00e9}b");
    app.handle_key(key(KeyCode::Backspace));
    assert_eq!(app.chat.input, "ab");
    assert_eq!(app.chat.cursor_pos, 1);
}

#[test]
fn cursor_left_then_right_restores_cursor() {
    let mut app = make_app();
    app.chat.input = "h\u{00e9}llo".to_string();
    app.chat.cursor_pos = 3;
    app.handle_key(key(KeyCode::Left));
    assert_eq!(app.chat.cursor_pos, 1);
    app.handle_key(key(KeyCode::Right));
    assert_eq!(app.chat.cursor_pos, 3);
}

#[test]
fn sidebar_focus_toggle_twice_restores_focus() {
    let mut app = make_app();
    app.screen = Screen::Chat;
    app.sidebar.visible = true;
    app.update(Action::ToggleSidebarFocus);
    app.update(Action::ToggleSidebarFocus);
    assert!(!app.sidebar.focused);
}

#[test]
fn ctrl_c_cancels_login_picker() {
    let mut app = make_app();
    app.update(Action::OpenLoginBrowser(None));
    app.handle_key(KeyEvent::new(KeyCode::Char('c'), KeyModifiers::CONTROL));
    assert_eq!(app.state, AppState::Idle);
}

fn web_app(step: WebConfigStep) -> TuiApp {
    let mut app = make_app();
    app.state = AppState::WebConfiguring(WebConfiguringState {
        step,
        enabled: false,
        token: String::new(),
        port: "3210".to_string(),
        cors_origins: "*".to_string(),
        static_dir: String::new(),
        input_buffer: String::new(),
    });
    app
}

#[test]
fn escape_cancels_web_setup_without_saving() {
    let mut app = web_app(WebConfigStep::Port);
    app.handle_web_config_key(key(KeyCode::Esc));
    assert_eq!(app.state, AppState::Idle);
    assert!(app.pending_web_config.is_none());
    assert!(matches!(app.chat.messages.last(), Some(TuiMessage::Assistant(t)) if t == "Web setup cancelled."));
}

#[test]
fn web_setup_runs_to_saved_settings() {
    let mut app = web_app(WebConfigStep::Enable);
    app.handle_web_config_key(key(KeyCode::Char('y')));
    for c in "tok".chars() {
        app.handle_web_config_key(key(KeyCode::Char(c)));
    }
    app.handle_web_config_key(key(KeyCode::Enter));
    app.handle_web_config_key(key(KeyCode::Backspace));
    app.handle_web_config_key(key(KeyCode::Char('1')));
    app.handle_web_config_key(key(KeyCode::Enter));
    app.handle_web_config_key(key(KeyCode::Enter));
    app.handle_web_config_key(key(KeyCode::Enter));
    app.handle_web_config_key(key(KeyCode::Char('y')));
    assert_eq!(app.state, AppState::Idle);
    let cfg = app.pending_web_config.clone().unwrap();
    assert!(cfg.enabled);
    assert_eq!(cfg.token, "tok");
    assert_eq!(cfg.port, 3211);
    assert_eq!(cfg.cors_origins, "*");
}

#[test]
fn web_setup_bad_port_uses_default() {
    let mut app = web_app(WebConfigStep::Port);
    app.handle_web_config_key(key(KeyCode::Char('x')));
    app.handle_web_config_key(key(KeyCode::Enter));
    app.handle_web_config_key(key(KeyCode::Enter));
    app.handle_web_config_key(key(KeyCode::Enter));
    app.handle_web_config_key(key(KeyCode::Enter));
    assert_eq!(app.pending_web_config.clone().unwrap().port, 3210);
}

#[test]
fn approval_keys_decide_or_leave_pending() {
    let mut app = make_app();
    app.chat.pending_approval = Some(PendingApproval {
        request: ToolApprovalRequest { tool_name: "bash".to_string(), arguments: "{}".to_string() },
    });
    let out = app.handle_key(key(KeyCode::Char('x')));
    assert_eq!(out.approval, None);
    assert!(app.chat.pending_approval.is_some());
    let out = app.handle_key(key(KeyCode::Char('a')));
    assert_eq!(out.approval, Some(ToolApprovalDecision::AllowForSession));
    assert!(app.chat.pending_approval.is_none());
}

#[test]
fn keys_through_actions_match_direct_handling() {
    let mut a = make_app();
    let mut b = make_app();
    for k in [key(KeyCode::Char('h')), key(KeyCode::Char('i')), key(KeyCode::Left), key(KeyCode::Backspace)] {
        for act in a.map_key_event(k) {
            a.update(act);
        }
        b.handle_key(k);
    }
    assert_eq!(a.chat.input, b.chat.input);
    assert_eq!(a.chat.cursor_pos, b.chat.cursor_pos);
    assert_eq!(a.chat.input, "i");
}
