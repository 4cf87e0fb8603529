//! Key handling: what every key press does in every state of the client.

use vstd::prelude::*;
use crate::app::{
    lemma_boundary_ends, clear_input, palette_active, palette_closed, palette_down, palette_up, push_message,
    tab_completed, with_state,
};
use crate::browse::{
    sat_sub16, delete_requested, login_clamped, model_clamped, session_clamped, sessions_for,
    sidebar_selected, sidebar_toggled,
};
use crate::catalog::browser_rows;
use crate::editing::{char_deleted, char_inserted, cursor_moved_left, cursor_moved_right, input_active};
use crate::keys::{KeyCode, KeyEvent, KeyModifiers, is_ctrl_c, key_is_ctrl_c};
use crate::providers::{
    AuthLoginIntent, AuthMethodChoice, IntentView, LoginAuthMode, LoginBrowseStep, ProviderView,
    api_key_method_for_provider, copy_opt, filtered_provider_entries, filtered_providers,
    find_provider, key_method, offers_method_choice, opt_view, provider_by_name,
    provider_step_for_entry, registry, step_for_provider,
};
use crate::text::{concat3, concat5, copy_str, pop_char, push_char, str_eq, trim_str};
use crate::selection::{extract_selected_text, selected_text};
use crate::state::{
    AppModel, AppState, AppStateView, ChatModel, LoginBrowsingState, LoginView, MessageView,
    ModelInfo, Screen, SessionModel, SessionView, SidebarState, TextSelection, ToolApprovalDecision,
    TuiApp, selection_active, selection_range,
};

verus! {

/// `a + b`, or `usize::MAX` when that overflows (`usize::saturating_add`).
pub open spec fn sat_add(a: usize, b: usize) -> usize {
    if a + b <= usize::MAX {
        (a + b) as usize
    } else {
        usize::MAX
    }
}

/// `a - b`, or 0 when `b > a` (`usize::saturating_sub`).
pub open spec fn sat_sub(a: usize, b: usize) -> usize {
    if a >= b {
        (a - b) as usize
    } else {
        0
    }
}

/// `a + b`, or `u16::MAX` when that overflows.
pub open spec fn sat_add16(a: u16, b: u16) -> u16 {
    if a + b <= 0xFFFF {
        (a + b) as u16
    } else {
        0xFFFF
    }
}

/// `s` without its last character (`String::pop`).
pub open spec fn popped(s: Seq<char>) -> Seq<char> {
    if s.len() > 0 {
        s.drop_last()
    } else {
        s
    }
}

// ─── Simple modes ───────────────────────────────────────────────────────────

/// Decision given by a key while a tool call waits for approval.
pub open spec fn approval_decision(key: KeyEvent) -> Option<ToolApprovalDecision> {
    match key.code {
        KeyCode::Char(c) => if c == 'y' || c == 'Y' {
            Some(ToolApprovalDecision::Approve)
        } else if c == 'n' || c == 'N' {
            Some(ToolApprovalDecision::Reject)
        } else if c == 'a' || c == 'A' {
            Some(ToolApprovalDecision::AllowForSession)
        } else {
            None
        },
        KeyCode::Esc => Some(ToolApprovalDecision::Reject),
        _ => None,
    }
}

/// Key on the QR code overlay: Esc, Enter or `q` closes it.
pub open spec fn qr_key(m: AppModel, key: KeyEvent) -> AppModel {
    if key.code == KeyCode::Esc || key.code == KeyCode::Enter || key.code == KeyCode::Char('q') {
        with_state(m, AppStateView::Idle)
    } else {
        m
    }
}

/// Key in the delete confirmation: `y` or Enter confirms, `n` or Esc cancels.
pub open spec fn confirm_key(m: AppModel, key: KeyEvent) -> AppModel {
    match m.state {
        AppStateView::ConfirmDelete { session_id, .. } => if key.code == KeyCode::Char('y')
            || key.code == KeyCode::Enter {
            with_state(
                AppModel {
                    session: SessionModel { confirmed_delete: Some(session_id), ..m.session },
                    ..m
                },
                AppStateView::Idle,
            )
        } else if key.code == KeyCode::Char('n') || key.code == KeyCode::Esc {
            with_state(m, AppStateView::Idle)
        } else {
            m
        },
        _ => m,
    }
}

/// Row below the sidebar highlight, stopping at the last session.
pub open spec fn sidebar_down_hover(m: AppModel) -> usize {
    let max = sat_sub(m.session.session_list.len() as usize, 1);
    let cur = match m.sidebar.hover {
        Some(h) => h,
        None => 0,
    };
    if cur + 1 < max {
        (cur + 1) as usize
    } else {
        max
    }
}

/// Row above the sidebar highlight.
pub open spec fn sidebar_up_hover(m: AppModel) -> usize {
    sat_sub(
        match m.sidebar.hover {
            Some(h) => h,
            None => 0,
        },
        1,
    )
}

/// Key while the sidebar has the focus.
pub open spec fn sidebar_key(m: AppModel, key: KeyEvent) -> AppModel {
    if key.code == KeyCode::Char('j') || key.code == KeyCode::Down {
        AppModel { sidebar: SidebarState { hover: Some(sidebar_down_hover(m)), ..m.sidebar }, ..m }
    } else if key.code == KeyCode::Char('k') || key.code == KeyCode::Up {
        AppModel { sidebar: SidebarState { hover: Some(sidebar_up_hover(m)), ..m.sidebar }, ..m }
    } else if key.code == KeyCode::Enter {
        sidebar_selected(m)
    } else if key.code == KeyCode::Char('d') || key.code == KeyCode::Delete {
        delete_requested(m)
    } else if key.code == KeyCode::Esc || key.code == KeyCode::Tab {
        AppModel { sidebar: SidebarState { focused: false, ..m.sidebar }, ..m }
    } else {
        m
    }
}

/// Key during WhatsApp pairing: Esc cancels it.
pub open spec fn whatsapp_key(m: AppModel, key: KeyEvent) -> AppModel {
    if key.code == KeyCode::Esc {
        push_message(
            with_state(m, AppStateView::Idle),
            MessageView::Assistant("WhatsApp pairing cancelled."@),
        )
    } else {
        m
    }
}

// ─── Login picker ───────────────────────────────────────────────────────────

/// One step of the login picker: the new picker state, whether its cursor is
/// clamped afterwards, the login chosen (if any), and whether it closes.
pub struct LoginStep {
    pub view: LoginView,
    pub clamp: bool,
    pub intent: Option<IntentView>,
    pub close: bool,
}

/// A login step that keeps the picker open without a login chosen.
pub open spec fn stay(view: LoginView, clamp: bool) -> LoginStep {
    LoginStep { view, clamp, intent: None, close: false }
}

/// The message shown for a provider cleared from the picker.
pub open spec fn cleared_provider_error() -> Seq<char> {
    "Provider selection was cleared. Select provider again."@
}

/// Key at the provider step.
pub open spec fn login_provider_key(l: LoginView, key: KeyEvent) -> LoginStep {
    let providers = filtered_providers(l.query);
    if is_ctrl_c(key) || key.code == KeyCode::Esc {
        LoginStep { view: l, clamp: false, intent: None, close: true }
    } else {
        match key.code {
            KeyCode::Up => stay(LoginView { cursor: sat_sub(l.cursor, 1), ..l }, true),
            KeyCode::Char('k') => stay(LoginView { cursor: sat_sub(l.cursor, 1), ..l }, true),
            KeyCode::Down => stay(LoginView { cursor: sat_add(l.cursor, 1), ..l }, true),
            KeyCode::Char('j') => stay(LoginView { cursor: sat_add(l.cursor, 1), ..l }, true),
            KeyCode::PageUp => stay(LoginView { cursor: sat_sub(l.cursor, 10), ..l }, true),
            KeyCode::PageDown => stay(LoginView { cursor: sat_add(l.cursor, 10), ..l }, true),
            KeyCode::Backspace => stay(LoginView { query: popped(l.query), cursor: 0, ..l }, true),
            KeyCode::Char(c) => stay(LoginView { query: l.query.push(c), cursor: 0, ..l }, true),
            KeyCode::Enter => if providers.len() == 0 {
                stay(LoginView { last_error: Some("No matches for '"@ + l.query + "'."@), ..l }, false)
            } else if l.cursor < providers.len() {
                let p = providers[l.cursor as int];
                let base = LoginView {
                    selected_provider: Some(p.name),
                    selected_method: None,
                    input_buffer: Seq::empty(),
                    masked_buffer: Seq::empty(),
                    endpoint: None,
                    last_error: None,
                    cursor: 0,
                    ..l
                };
                match p.auth_mode {
                    LoginAuthMode::NoAuth => stay(
                        LoginView {
                            last_error: Some(
                                "Provider '"@ + p.display_name + "' does not require login."@,
                            ),
                            ..base
                        },
                        false,
                    ),
                    LoginAuthMode::OAuth => if p.name == "openai"@ || p.name == "anthropic"@ {
                        stay(LoginView { step: LoginBrowseStep::SelectMethod, ..base }, false)
                    } else {
                        LoginStep {
                            view: base,
                            clamp: false,
                            intent: Some(
                                IntentView {
                                    provider: p.name,
                                    auth_method: AuthMethodChoice::OAuth,
                                    endpoint: None,
                                    api_key: None,
                                },
                            ),
                            close: false,
                        }
                    },
                    LoginAuthMode::ApiKey => stay(
                        LoginView { step: LoginBrowseStep::InputApiKey, ..base },
                        false,
                    ),
                    LoginAuthMode::EndpointAndKey => stay(
                        LoginView { step: LoginBrowseStep::InputEndpoint, ..base },
                        false,
                    ),
                }
            } else {
                stay(l, false)
            },
            _ => stay(l, false),
        }
    }
}

/// The provider chosen earlier, or empty text.
pub open spec fn chosen_provider(l: LoginView) -> Seq<char> {
    match l.selected_provider {
        Some(p) => p,
        None => Seq::empty(),
    }
}

/// Key at the method step (row 0: browser login, row 1: API key).
pub open spec fn login_method_key(l: LoginView, key: KeyEvent) -> LoginStep {
    if is_ctrl_c(key) {
        LoginStep { view: l, clamp: false, intent: None, close: true }
    } else {
        match key.code {
            KeyCode::Esc => stay(
                LoginView { step: LoginBrowseStep::SelectProvider, cursor: 0, ..l },
                true,
            ),
            KeyCode::Up => stay(LoginView { cursor: sat_sub(l.cursor, 1), ..l }, true),
            KeyCode::Char('k') => stay(LoginView { cursor: sat_sub(l.cursor, 1), ..l }, true),
            KeyCode::Down => stay(LoginView { cursor: sat_add(l.cursor, 1), ..l }, true),
            KeyCode::Char('j') => stay(LoginView { cursor: sat_add(l.cursor, 1), ..l }, true),
            KeyCode::Enter => {
                let provider = chosen_provider(l);
                if provider.len() == 0 {
                    stay(
                        LoginView {
                            step: LoginBrowseStep::SelectProvider,
                            last_error: Some(cleared_provider_error()),
                            ..l
                        },
                        false,
                    )
                } else if l.cursor == 0 {
                    LoginStep {
                        view: LoginView { selected_method: Some(AuthMethodChoice::OAuth), ..l },
                        clamp: false,
                        intent: Some(
                            IntentView {
                                provider,
                                auth_method: AuthMethodChoice::OAuth,
                                endpoint: None,
                                api_key: None,
                            },
                        ),
                        close: false,
                    }
                } else {
                    stay(
                        LoginView {
                            selected_method: Some(AuthMethodChoice::ApiKey),
                            input_buffer: Seq::empty(),
                            masked_buffer: Seq::empty(),
                            step: LoginBrowseStep::InputApiKey,
                            ..l
                        },
                        false,
                    )
                }
            },
            _ => stay(l, false),
        }
    }
}

/// Key at the endpoint step.
pub open spec fn login_endpoint_key(l: LoginView, key: KeyEvent) -> LoginStep {
    if is_ctrl_c(key) {
        LoginStep { view: l, clamp: false, intent: None, close: true }
    } else {
        match key.code {
            KeyCode::Esc => stay(
                LoginView {
                    step: LoginBrowseStep::SelectProvider,
                    cursor: 0,
                    input_buffer: Seq::empty(),
                    ..l
                },
                false,
            ),
            KeyCode::Backspace => stay(LoginView { input_buffer: popped(l.input_buffer), ..l }, false),
            KeyCode::Enter => {
                let value = crate::text::trim(l.input_buffer);
                if value.len() == 0 {
                    stay(LoginView { last_error: Some("Endpoint is required."@), ..l }, false)
                } else {
                    stay(
                        LoginView {
                            endpoint: Some(value),
                            input_buffer: Seq::empty(),
                            step: LoginBrowseStep::InputApiKey,
                            last_error: None,
                            ..l
                        },
                        false,
                    )
                }
            },
            KeyCode::Char(c) => stay(LoginView { input_buffer: l.input_buffer.push(c), ..l }, false),
            _ => stay(l, false),
        }
    }
}

/// Where Esc at the API-key step goes back to.
pub open spec fn api_key_back(l: LoginView) -> LoginView {
    let back = match find_provider(registry(), chosen_provider(l)) {
        Some(e) => if step_for_provider(e) == LoginBrowseStep::SelectMethod {
            LoginView {
                step: LoginBrowseStep::SelectMethod,
                cursor: if l.selected_method == Some(AuthMethodChoice::OAuth) {
                    0
                } else {
                    1
                },
                ..l
            }
        } else if e.auth_mode == LoginAuthMode::EndpointAndKey {
            LoginView {
                step: LoginBrowseStep::InputEndpoint,
                input_buffer: match l.endpoint {
                    Some(s) => s,
                    None => Seq::empty(),
                },
                ..l
            }
        } else {
            LoginView { step: LoginBrowseStep::SelectProvider, cursor: 0, ..l }
        },
        None => LoginView { step: LoginBrowseStep::SelectProvider, cursor: 0, ..l },
    };
    LoginView { masked_buffer: Seq::empty(), ..back }
}

/// Key at the API-key step (also used to paste an OAuth code).
pub open spec fn login_api_key_key(l: LoginView, key: KeyEvent) -> LoginStep {
    if is_ctrl_c(key) {
        LoginStep { view: l, clamp: false, intent: None, close: true }
    } else {
        match key.code {
            KeyCode::Esc => stay(api_key_back(l), false),
            KeyCode::Backspace => if l.input_buffer.len() > 0 {
                stay(
                    LoginView {
                        input_buffer: l.input_buffer.drop_last(),
                        masked_buffer: popped(l.masked_buffer),
                        ..l
                    },
                    false,
                )
            } else {
                stay(l, false)
            },
            KeyCode::Enter => {
                let provider = chosen_provider(l);
                let api_key = crate::text::trim(l.input_buffer);
                if provider.len() == 0 {
                    stay(
                        LoginView {
                            last_error: Some(cleared_provider_error()),
                            step: LoginBrowseStep::SelectProvider,
                            ..l
                        },
                        false,
                    )
                } else if api_key.len() == 0 {
                    stay(LoginView { last_error: Some("API key is required."@), ..l }, false)
                } else {
                    LoginStep {
                        view: l,
                        clamp: false,
                        intent: Some(
                            IntentView {
                                provider,
                                auth_method: key_method(l.selected_method),
                                endpoint: l.endpoint,
                                api_key: Some(api_key),
                            },
                        ),
                        close: false,
                    }
                }
            },
            KeyCode::Char(c) => stay(
                LoginView {
                    input_buffer: l.input_buffer.push(c),
                    masked_buffer: l.masked_buffer.push('*'),
                    ..l
                },
                false,
            ),
            _ => stay(l, false),
        }
    }
}

/// Key in the login picker, by step.
pub open spec fn login_transition(l: LoginView, key: KeyEvent) -> LoginStep {
    match l.step {
        LoginBrowseStep::SelectProvider => login_provider_key(l, key),
        LoginBrowseStep::SelectMethod => login_method_key(l, key),
        LoginBrowseStep::InputEndpoint => login_endpoint_key(l, key),
        LoginBrowseStep::InputApiKey => login_api_key_key(l, key),
    }
}

/// Key while the login picker is open.
pub open spec fn login_key(m: AppModel, key: KeyEvent) -> AppModel {
    match m.state {
        AppStateView::LoginBrowsing(l) => {
            let st = login_transition(l, key);
            if st.close {
                push_message(
                    with_state(m, AppStateView::Idle),
                    MessageView::Assistant("Login cancelled."@),
                )
            } else {
                let m1 = with_state(m, AppStateView::LoginBrowsing(st.view));
                let m2 = if st.clamp {
                    login_clamped(m1)
                } else {
                    m1
                };
                match st.intent {
                    Some(i) => with_state(
                        AppModel {
                            model: ModelInfo { pending_auth_intent: Some(i), ..m2.model },
                            ..m2
                        },
                        AppStateView::AuthValidating { provider: i.provider },
                    ),
                    None => m2,
                }
            }
        },
        _ => m,
    }
}

// ─── Model and session browsers ─────────────────────────────────────────────

/// `m` with the model browser's highlighted model chosen for the session
/// (when the highlight is on a row) and the browser closed.
pub open spec fn model_chosen(m: AppModel) -> AppModel {
    match m.state {
        AppStateView::ModelBrowsing { query, cursor, .. } => {
            let rows = browser_rows(m.model.model_entries, query);
            let m1 = if cursor < rows.len() {
                let e = rows[cursor as int];
                push_message(
                    AppModel {
                        model: ModelInfo {
                            model_name: e.id,
                            pending_model_change: Some((e.id, e.provider)),
                            ..m.model
                        },
                        ..m
                    },
                    MessageView::Assistant(
                        "Selected model '"@ + e.id + "' (provider: "@ + e.provider
                            + ") for this session."@,
                    ),
                )
            } else {
                m
            };
            with_state(m1, AppStateView::Idle)
        },
        _ => m,
    }
}

/// Key while the model browser is open.
pub open spec fn model_key(m: AppModel, key: KeyEvent) -> AppModel {
    match m.state {
        AppStateView::ModelBrowsing { query, cursor, scroll, last_sync_status, search_active } => {
            let set = |q: Seq<char>, c: usize, s: u16, sa: bool|
                with_state(
                    m,
                    AppStateView::ModelBrowsing {
                        query: q,
                        cursor: c,
                        scroll: s,
                        last_sync_status,
                        search_active: sa,
                    },
                );
            if is_ctrl_c(key) {
                with_state(m, AppStateView::Idle)
            } else if key.code == KeyCode::Esc {
                if search_active {
                    set(query, cursor, scroll, false)
                } else {
                    with_state(m, AppStateView::Idle)
                }
            } else if !search_active && (key.code == KeyCode::Char('s') || key.code
                == KeyCode::Char('/')) {
                set(query, cursor, scroll, true)
            } else if !search_active && key.code == KeyCode::Enter {
                model_chosen(m)
            } else if !search_active && key.code == KeyCode::Char('r') {
                AppModel { model: ModelInfo { model_refresh_requested: true, ..m.model }, ..m }
            } else if !search_active && (key.code == KeyCode::Char('j') || key.code
                == KeyCode::Down) {
                model_clamped(set(query, sat_add(cursor, 1), scroll, search_active))
            } else if !search_active && (key.code == KeyCode::Char('k') || key.code
                == KeyCode::Up) {
                model_clamped(set(query, sat_sub(cursor, 1), scroll, search_active))
            } else if !search_active && key.code == KeyCode::PageDown {
                model_clamped(set(query, sat_add(cursor, 10), scroll, search_active))
            } else if !search_active && key.code == KeyCode::PageUp {
                model_clamped(set(query, sat_sub(cursor, 10), scroll, search_active))
            } else if search_active && key.code == KeyCode::Backspace {
                model_clamped(set(popped(query), 0, 0, search_active))
            } else if search_active && key.code is Char {
                model_clamped(set(query.push(key.code->Char_0), 0, 0, search_active))
            } else {
                m
            }
        },
        _ => m,
    }
}

/// Index of the first session of `list` with id `id`.
pub open spec fn session_index(list: Seq<SessionView>, id: Seq<char>) -> Option<int>
    decreases list.len(),
{
    if list.len() == 0 {
        None
    } else {
        match session_index(list.drop_last(), id) {
            Some(i) => Some(i),
            None => if list.last().id == id {
                Some(list.len() - 1)
            } else {
                None
            },
        }
    }
}

/// Key while the session browser is open.
pub open spec fn session_key(m: AppModel, key: KeyEvent) -> AppModel {
    match m.state {
        AppStateView::SessionBrowsing { query, cursor, scroll, search_active } => {
            let set = |q: Seq<char>, c: usize, s: u16, sa: bool|
                with_state(
                    m,
                    AppStateView::SessionBrowsing { query: q, cursor: c, scroll: s, search_active: sa },
                );
            let rows = sessions_for(m.session.session_list, query);
            if is_ctrl_c(key) {
                with_state(m, AppStateView::Idle)
            } else if key.code == KeyCode::Esc {
                if search_active {
                    set(query, cursor, scroll, false)
                } else {
                    with_state(m, AppStateView::Idle)
                }
            } else if !search_active && (key.code == KeyCode::Char('s') || key.code
                == KeyCode::Char('/')) {
                set(query, cursor, scroll, true)
            } else if !search_active && key.code == KeyCode::Enter {
                if cursor < rows.len() {
                    with_state(
                        AppModel {
                            session: SessionModel {
                                pending_sidebar_selection: Some(rows[cursor as int].id),
                                ..m.session
                            },
                            ..m
                        },
                        AppStateView::Idle,
                    )
                } else {
                    with_state(m, AppStateView::Idle)
                }
            } else if !search_active && key.code == KeyCode::Char('n') {
                with_state(
                    AppModel {
                        session: SessionModel { session_browser_new_requested: true, ..m.session },
                        ..m
                    },
                    AppStateView::Idle,
                )
            } else if !search_active && (key.code == KeyCode::Char('d') || key.code
                == KeyCode::Delete) {
                if cursor < rows.len() {
                    match session_index(m.session.session_list, rows[cursor as int].id) {
                        Some(idx) => delete_requested(
                            with_state(
                                AppModel {
                                    sidebar: SidebarState { hover: Some(idx as usize), ..m.sidebar },
                                    ..m
                                },
                                AppStateView::Idle,
                            ),
                        ),
                        None => m,
                    }
                } else {
                    m
                }
            } else if !search_active && (key.code == KeyCode::Char('j') || key.code
                == KeyCode::Down) {
                session_clamped(set(query, sat_add(cursor, 1), scroll, search_active))
            } else if !search_active && (key.code == KeyCode::Char('k') || key.code
                == KeyCode::Up) {
                session_clamped(set(query, sat_sub(cursor, 1), scroll, search_active))
            } else if !search_active && key.code == KeyCode::PageDown {
                session_clamped(set(query, sat_add(cursor, 10), scroll, search_active))
            } else if !search_active && key.code == KeyCode::PageUp {
                session_clamped(set(query, sat_sub(cursor, 10), scroll, search_active))
            } else if search_active && key.code == KeyCode::Backspace {
                session_clamped(set(popped(query), 0, 0, search_active))
            } else if search_active && key.code is Char {
                session_clamped(set(query.push(key.code->Char_0), 0, 0, search_active))
            } else {
                m
            }
        },
        _ => m,
    }
}

// ─── The input box ──────────────────────────────────────────────────────────

/// Text copied by Esc or Ctrl+C while a selection is shown.
pub open spec fn selection_copy(m: AppModel) -> Option<Seq<char>> {
    match selection_range(m.chat.text_selection) {
        Some((start, end)) => selected_text(
            m.chat.chat_text_grid,
            start,
            end,
            m.chat.chat_scroll_clamped,
        ),
        None => None,
    }
}

/// `m` without a mouse selection.
pub open spec fn selection_cleared(m: AppModel) -> AppModel {
    AppModel {
        chat: ChatModel {
            text_selection: TextSelection { anchor: None, endpoint: None, dragging: false },
            ..m.chat
        },
        ..m
    }
}

/// `m` with the history scrolled to `s`.
pub open spec fn history_scrolled(m: AppModel, s: u16) -> AppModel {
    AppModel { chat: ChatModel { history_scroll: s, ..m.chat }, ..m }
}

/// The cancelled API key prompt.
pub open spec fn auth_cancelled(m: AppModel) -> AppModel {
    push_message(
        with_state(clear_input(m), AppStateView::Idle),
        MessageView::Assistant("Login cancelled."@),
    )
}

/// Key in the general input mode: the new state, and text to copy to the
/// clipboard.
pub open spec fn input_key(m: AppModel, key: KeyEvent) -> (AppModel, Option<Seq<char>>) {
    let active = input_active(m);
    let pal = palette_active(m);
    if is_ctrl_c(key) || key.code == KeyCode::Esc {
        if selection_active(m.chat.text_selection) {
            (selection_cleared(m), selection_copy(m))
        } else if pal {
            (palette_closed(m), None)
        } else if m.state is Idle {
            (AppModel { should_quit: true, ..m }, None)
        } else if m.state is AuthPrompting {
            (auth_cancelled(m), None)
        } else {
            (m, None)
        }
    } else {
        let m2 = if key.code == KeyCode::Tab && pal {
            tab_completed(m)
        } else if key.code == KeyCode::Tab && m.state is Idle && m.sidebar.visible {
            sidebar_toggled(m)
        } else if key.code == KeyCode::Enter && m.state is Idle {
            AppModel { screen: Screen::Chat, ..m }
        } else if key.code is Char && active {
            char_inserted(m, key.code->Char_0)
        } else if key.code == KeyCode::Backspace && active {
            char_deleted(m)
        } else if key.code == KeyCode::Left && active {
            cursor_moved_left(m)
        } else if key.code == KeyCode::Right && active {
            cursor_moved_right(m)
        } else if key.code == KeyCode::Up && pal {
            palette_up(m)
        } else if key.code == KeyCode::Down && pal {
            palette_down(m)
        } else if key.code == KeyCode::Up {
            history_scrolled(m, sat_sub16(m.chat.history_scroll, 1))
        } else if key.code == KeyCode::Down {
            history_scrolled(m, sat_add16(m.chat.history_scroll, 1))
        } else if key.code == KeyCode::PageUp {
            history_scrolled(m, sat_sub16(m.chat.history_scroll, 10))
        } else if key.code == KeyCode::PageDown {
            history_scrolled(m, sat_add16(m.chat.history_scroll, 10))
        } else {
            m
        };
        (m2, None)
    }
}

// ─── All keys ───────────────────────────────────────────────────────────────

/// What a key press produces besides the change of state.
pub struct KeyOutcome {
    /// Text to put on the clipboard.
    pub copy_text: Option<String>,
    /// Decision to hand to the tool call waiting for approval.
    pub approval: Option<ToolApprovalDecision>,
}

/// The mode a key press is handled in, in order of precedence.
pub open spec fn key_state(m: AppModel, key: KeyEvent) -> AppModel {
    if m.state is QrCodeDisplay {
        qr_key(m, key)
    } else if m.chat.pending_approval is Some {
        match approval_decision(key) {
            Some(_) => AppModel { chat: ChatModel { pending_approval: None, ..m.chat }, ..m },
            None => m,
        }
    } else if m.state is ConfirmDelete {
        confirm_key(m, key)
    } else if m.sidebar.focused && m.state is Idle {
        sidebar_key(m, key)
    } else if m.state is WhatsAppSetup {
        whatsapp_key(m, key)
    } else if m.state is LoginBrowsing {
        login_key(m, key)
    } else if m.state is ModelBrowsing {
        model_key(m, key)
    } else if m.state is SessionBrowsing {
        session_key(m, key)
    } else {
        input_key(m, key).0
    }
}

/// Clipboard text of a key press.
pub open spec fn key_copy(m: AppModel, key: KeyEvent) -> Option<Seq<char>> {
    if m.state is QrCodeDisplay || m.chat.pending_approval is Some || m.state is ConfirmDelete || (
    m.sidebar.focused && m.state is Idle) || m.state is WhatsAppSetup || m.state is LoginBrowsing
        || m.state is ModelBrowsing || m.state is SessionBrowsing {
        None
    } else {
        input_key(m, key).1
    }
}

/// Approval decision of a key press.
pub open spec fn key_approval(m: AppModel, key: KeyEvent) -> Option<ToolApprovalDecision> {
    if !(m.state is QrCodeDisplay) && m.chat.pending_approval is Some {
        approval_decision(key)
    } else {
        None
    }
}

/// A key press is handled without arithmetic overflow: the sidebar highlight
/// and the palette highlight are below the largest index when a key moves
/// them down.
pub open spec fn key_in_range(m: AppModel) -> bool {
    &&& m.sidebar.hover != Some(usize::MAX)
    &&& m.command_palette_cursor < usize::MAX
}

// ─── Executable key handling: the login picker ─────────────────────────────

/// The outcome `(clamp, intent, close)` of a login key matches the step `st`
/// and leaves the picker in state `view`.
pub open spec fn step_matches(
    st: LoginStep,
    view: LoginView,
    clamp: bool,
    intent: Option<AuthLoginIntent>,
    close: bool,
) -> bool {
    &&& view == st.view
    &&& clamp == st.clamp
    &&& close == st.close
    &&& match intent {
        Some(i) => st.intent == Some(i@),
        None => st.intent is None,
    }
}

/// The provider chosen earlier, or an empty string.
fn chosen_provider_of(l: &LoginBrowsingState) -> (r: String)
    ensures
        r@ == chosen_provider(l@),
{
    match &l.selected_provider {
        Some(p) => copy_str(p.as_str()),
        None => String::new(),
    }
}

/// Key at the provider step.
fn login_provider_step(l: &mut LoginBrowsingState, key: KeyEvent) -> (r: (
    bool,
    Option<AuthLoginIntent>,
    bool,
))
    requires
        old(l)@.step == LoginBrowseStep::SelectProvider,
    ensures
        step_matches(login_provider_key(old(l)@, key), final(l)@, r.0, r.1, r.2),
{
    if key_is_ctrl_c(key) || key.code == KeyCode::Esc {
        return (false, None, true);
    }
    match key.code {
        KeyCode::Up => {
            l.cursor = l.cursor.saturating_sub(1);
            (true, None, false)
        },
        KeyCode::Down => {
            l.cursor = l.cursor.saturating_add(1);
            (true, None, false)
        },
        KeyCode::PageUp => {
            l.cursor = l.cursor.saturating_sub(10);
            (true, None, false)
        },
        KeyCode::PageDown => {
            l.cursor = l.cursor.saturating_add(10);
            (true, None, false)
        },
        KeyCode::Backspace => {
            pop_char(&mut l.query);
            l.cursor = 0;
            (true, None, false)
        },
        KeyCode::Char(c) => {
            if c == 'k' {
                l.cursor = l.cursor.saturating_sub(1);
            } else if c == 'j' {
                l.cursor = l.cursor.saturating_add(1);
            } else {
                push_char(&mut l.query, c);
                l.cursor = 0;
            }
            (true, None, false)
        },
        KeyCode::Enter => {
            let providers = filtered_provider_entries(l.query.as_str());
            if providers.len() == 0 {
                l.last_error = Some(concat3("No matches for '", l.query.as_str(), "'."));
                return (false, None, false);
            }
            if l.cursor >= providers.len() {
                return (false, None, false);
            }
            let p = &providers[l.cursor];
            assert(p@ == filtered_providers(old(l)@.query)[old(l)@.cursor as int]);
            l.selected_provider = Some(copy_str(p.name.as_str()));
            l.selected_method = None;
            l.input_buffer = String::new();
            l.masked_buffer = String::new();
            l.endpoint = None;
            l.last_error = None;
            l.cursor = 0;
            match p.auth_mode {
                LoginAuthMode::NoAuth => {
                    l.last_error = Some(
                        concat3("Provider '", p.display_name.as_str(), "' does not require login."),
                    );
                    (false, None, false)
                },
                LoginAuthMode::OAuth => {
                    if offers_method_choice(p.name.as_str()) {
                        l.step = LoginBrowseStep::SelectMethod;
                        (false, None, false)
                    } else {
                        let intent = AuthLoginIntent {
                            provider: copy_str(p.name.as_str()),
                            auth_method: AuthMethodChoice::OAuth,
                            endpoint: None,
                            api_key: None,
                        };
                        (false, Some(intent), false)
                    }
                },
                LoginAuthMode::ApiKey => {
                    l.step = LoginBrowseStep::InputApiKey;
                    (false, None, false)
                },
                LoginAuthMode::EndpointAndKey => {
                    l.step = LoginBrowseStep::InputEndpoint;
                    (false, None, false)
                },
            }
        },
        _ => (false, None, false),
    }
}

/// Key at the method step.
fn login_method_step(l: &mut LoginBrowsingState, key: KeyEvent) -> (r: (
    bool,
    Option<AuthLoginIntent>,
    bool,
))
    requires
        old(l)@.step == LoginBrowseStep::SelectMethod,
    ensures
        step_matches(login_method_key(old(l)@, key), final(l)@, r.0, r.1, r.2),
{
    if key_is_ctrl_c(key) {
        return (false, None, true);
    }
    match key.code {
        KeyCode::Esc => {
            l.step = LoginBrowseStep::SelectProvider;
            l.cursor = 0;
            (true, None, false)
        },
        KeyCode::Up => {
            l.cursor = l.cursor.saturating_sub(1);
            (true, None, false)
        },
        KeyCode::Down => {
            l.cursor = l.cursor.saturating_add(1);
            (true, None, false)
        },
        KeyCode::Char(c) => {
            if c == 'k' {
                l.cursor = l.cursor.saturating_sub(1);
                (true, None, false)
            } else if c == 'j' {
                l.cursor = l.cursor.saturating_add(1);
                (true, None, false)
            } else {
                (false, None, false)
            }
        },
        KeyCode::Enter => {
            let provider = chosen_provider_of(l);
            if provider.as_str().is_empty() {
                l.step = LoginBrowseStep::SelectProvider;
                l.last_error = Some(
                    copy_str("Provider selection was cleared. Select provider again."),
                );
                (false, None, false)
            } else if l.cursor == 0 {
                l.selected_method = Some(AuthMethodChoice::OAuth);
                let intent = AuthLoginIntent {
                    provider,
                    auth_method: AuthMethodChoice::OAuth,
                    endpoint: None,
                    api_key: None,
                };
                (false, Some(intent), false)
            } else {
                l.selected_method = Some(AuthMethodChoice::ApiKey);
                l.input_buffer = String::new();
                l.masked_buffer = String::new();
                l.step = LoginBrowseStep::InputApiKey;
                (false, None, false)
            }
        },
        _ => (false, None, false),
    }
}

/// Key at the endpoint step.
fn login_endpoint_step(l: &mut LoginBrowsingState, key: KeyEvent) -> (r: (
    bool,
    Option<AuthLoginIntent>,
    bool,
))
    requires
        old(l)@.step == LoginBrowseStep::InputEndpoint,
    ensures
        step_matches(login_endpoint_key(old(l)@, key), final(l)@, r.0, r.1, r.2),
{
    if key_is_ctrl_c(key) {
        return (false, None, true);
    }
    match key.code {
        KeyCode::Esc => {
            l.step = LoginBrowseStep::SelectProvider;
            l.cursor = 0;
            l.input_buffer = String::new();
        },
        KeyCode::Backspace => {
            pop_char(&mut l.input_buffer);
        },
        KeyCode::Enter => {
            let value = trim_str(l.input_buffer.as_str());
            if value.as_str().is_empty() {
                l.last_error = Some(copy_str("Endpoint is required."));
            } else {
                l.endpoint = Some(value);
                l.input_buffer = String::new();
                l.step = LoginBrowseStep::InputApiKey;
                l.last_error = None;
            }
        },
        KeyCode::Char(c) => {
            push_char(&mut l.input_buffer, c);
        },
        _ => {},
    }
    (false, None, false)
}

/// Key at the API-key step.
fn login_api_key_step(l: &mut LoginBrowsingState, key: KeyEvent) -> (r: (
    bool,
    Option<AuthLoginIntent>,
    bool,
))
    requires
        old(l)@.step == LoginBrowseStep::InputApiKey,
    ensures
        step_matches(login_api_key_key(old(l)@, key), final(l)@, r.0, r.1, r.2),
{
    if key_is_ctrl_c(key) {
        return (false, None, true);
    }
    match key.code {
        KeyCode::Esc => {
            let provider = chosen_provider_of(l);
            match provider_by_name(provider.as_str()) {
                Some(entry) => {
                    if provider_step_for_entry(&entry) == LoginBrowseStep::SelectMethod {
                        l.step = LoginBrowseStep::SelectMethod;
                        l.cursor = match l.selected_method {
                            Some(AuthMethodChoice::OAuth) => 0,
                            _ => 1,
                        };
                    } else if entry.auth_mode == LoginAuthMode::EndpointAndKey {
                        l.step = LoginBrowseStep::InputEndpoint;
                        l.input_buffer = match &l.endpoint {
                            Some(e) => copy_str(e.as_str()),
                            None => String::new(),
                        };
                    } else {
                        l.step = LoginBrowseStep::SelectProvider;
                        l.cursor = 0;
                    }
                },
                None => {
                    l.step = LoginBrowseStep::SelectProvider;
                    l.cursor = 0;
                },
            }
            l.masked_buffer = String::new();
            (false, None, false)
        },
        KeyCode::Backspace => {
            if pop_char(&mut l.input_buffer).is_some() {
                pop_char(&mut l.masked_buffer);
            }
            (false, None, false)
        },
        KeyCode::Enter => {
            let provider = chosen_provider_of(l);
            let api_key = trim_str(l.input_buffer.as_str());
            if provider.as_str().is_empty() {
                l.last_error = Some(
                    copy_str("Provider selection was cleared. Select provider again."),
                );
                l.step = LoginBrowseStep::SelectProvider;
                (false, None, false)
            } else if api_key.as_str().is_empty() {
                l.last_error = Some(copy_str("API key is required."));
                (false, None, false)
            } else {
                let method = api_key_method_for_provider(provider.as_str(), l.selected_method);
                let intent = AuthLoginIntent {
                    provider,
                    auth_method: method,
                    endpoint: copy_opt(&l.endpoint),
                    api_key: Some(api_key),
                };
                (false, Some(intent), false)
            }
        },
        KeyCode::Char(c) => {
            push_char(&mut l.input_buffer, c);
            push_char(&mut l.masked_buffer, '*');
            (false, None, false)
        },
        _ => (false, None, false),
    }
}

/// Key in the login picker, by step.
fn login_step(l: &mut LoginBrowsingState, key: KeyEvent) -> (r: (
    bool,
    Option<AuthLoginIntent>,
    bool,
))
    ensures
        step_matches(login_transition(old(l)@, key), final(l)@, r.0, r.1, r.2),
{
    match l.step {
        LoginBrowseStep::SelectProvider => login_provider_step(l, key),
        LoginBrowseStep::SelectMethod => login_method_step(l, key),
        LoginBrowseStep::InputEndpoint => login_endpoint_step(l, key),
        LoginBrowseStep::InputApiKey => login_api_key_step(l, key),
    }
}

// ─── Executable key handling: the client ────────────────────────────────────

/// The index of the first session with id `id` extends from a prefix of the
/// list to the whole list.
proof fn lemma_session_index_extends(s: Seq<SessionView>, k: int, id: Seq<char>)
    requires
        0 <= k <= s.len(),
        session_index(s.take(k), id) is Some,
    ensures
        session_index(s, id) == session_index(s.take(k), id),
    decreases s.len() - k,
{
    if k < s.len() {
        assert(s.take(k + 1).drop_last() =~= s.take(k));
        lemma_session_index_extends(s, k + 1, id);
    } else {
        assert(s.take(k) =~= s);
    }
}

impl TuiApp {
    /// Index of the first listed session with id `id`.
    fn session_position(&self, id: &str) -> (r: Option<usize>)
        ensures
            match r {
                Some(i) => session_index(self@.session.session_list, id@) == Some(i as int),
                None => session_index(self@.session.session_list, id@) is None,
            },
    {
        let ghost all = self@.session.session_list;
        let mut i: usize = 0;
        assert(all.take(0) =~= Seq::<SessionView>::empty());
        while i < self.session.session_list.len()
            invariant
                0 <= i <= self.session.session_list.len(),
                all == self@.session.session_list,
                all.len() == self.session.session_list.len(),
                session_index(all.take(i as int), id@) is None,
            decreases self.session.session_list.len() - i,
        {
            assert(all.take(i + 1).drop_last() =~= all.take(i as int));
            assert(all.take(i + 1).last() == self.session.session_list@[i as int]@);
            if str_eq(self.session.session_list[i].id.as_str(), id) {
                proof {
                    lemma_session_index_extends(all, i + 1, id@);
                }
                return Some(i);
            }
            i = i + 1;
        }
        assert(all.take(i as int) =~= all);
        None
    }

    /// Key while the login picker is open.
    fn handle_login_key(&mut self, key: KeyEvent)
        requires
            old(self)@.state is LoginBrowsing,
        ensures
            final(self)@ == login_key(old(self)@, key),
    {
        let (clamp, intent, close) = match &mut self.state {
            AppState::LoginBrowsing(l) => login_step(l, key),
            _ => {
                return;
            },
        };
        if close {
            self.state = AppState::Idle;
            self.push_assistant(copy_str("Login cancelled."));
            return;
        }
        if clamp {
            self.clamp_login_cursor();
        }
        match intent {
            Some(i) => {
                let provider = copy_str(i.provider.as_str());
                self.model.pending_auth_intent = Some(i);
                self.state = AppState::AuthValidating { provider };
            },
            None => {},
        }
    }

    /// Picks the model browser's highlighted model and closes the browser.
    fn choose_browsed_model(&mut self)
        requires
            old(self)@.state is ModelBrowsing,
        ensures
            final(self)@ == model_chosen(old(self)@),
    {
        let (query, cursor) = match &self.state {
            AppState::ModelBrowsing { query, cursor, .. } => (copy_str(query.as_str()), *cursor),
            _ => {
                return;
            },
        };
        let visible = self.visible_model_entries(query.as_str());
        if cursor < visible.len() {
            let id = copy_str(visible[cursor].id.as_str());
            let provider = copy_str(visible[cursor].provider.as_str());
            assert(id@ == browser_rows(old(self)@.model.model_entries, query@)[cursor as int].id);
            let msg = concat5(
                "Selected model '",
                id.as_str(),
                "' (provider: ",
                provider.as_str(),
                ") for this session.",
            );
            self.model.model_name = copy_str(id.as_str());
            self.model.pending_model_change = Some((id, provider));
            self.push_assistant(msg);
        }
        self.state = AppState::Idle;
    }

    /// Key while the model browser is open.
    fn handle_model_key(&mut self, key: KeyEvent)
        requires
            old(self)@.state is ModelBrowsing,
        ensures
            final(self)@ == model_key(old(self)@, key),
    {
        let search_active = match &self.state {
            AppState::ModelBrowsing { search_active, .. } => *search_active,
            _ => {
                return;
            },
        };
        if key_is_ctrl_c(key) {
            self.state = AppState::Idle;
            return;
        }
        if key.code == KeyCode::Esc {
            if search_active {
                match &mut self.state {
                    AppState::ModelBrowsing { search_active, .. } => {
                        *search_active = false;
                    },
                    _ => {},
                }
            } else {
                self.state = AppState::Idle;
            }
            return;
        }
        if !search_active {
            if key.code == KeyCode::Char('s') || key.code == KeyCode::Char('/') {
                match &mut self.state {
                    AppState::ModelBrowsing { search_active, .. } => {
                        *search_active = true;
                    },
                    _ => {},
                }
            } else if key.code == KeyCode::Enter {
                self.choose_browsed_model();
            } else if key.code == KeyCode::Char('r') {
                self.model.model_refresh_requested = true;
            } else if key.code == KeyCode::Char('j') || key.code == KeyCode::Down
                || key.code == KeyCode::Char('k') || key.code == KeyCode::Up
                || key.code == KeyCode::PageDown || key.code == KeyCode::PageUp {
                match &mut self.state {
                    AppState::ModelBrowsing { cursor, .. } => {
                        *cursor = if key.code == KeyCode::Char('j') || key.code == KeyCode::Down {
                            cursor.saturating_add(1)
                        } else if key.code == KeyCode::Char('k') || key.code == KeyCode::Up {
                            cursor.saturating_sub(1)
                        } else if key.code == KeyCode::PageDown {
                            cursor.saturating_add(10)
                        } else {
                            cursor.saturating_sub(10)
                        };
                    },
                    _ => {},
                }
                self.clamp_model_cursor();
            }
        } else {
            if key.code == KeyCode::Backspace {
                match &mut self.state {
                    AppState::ModelBrowsing { query, cursor, scroll, .. } => {
                        pop_char(query);
                        *cursor = 0;
                        *scroll = 0;
                    },
                    _ => {},
                }
                self.clamp_model_cursor();
            } else {
                match key.code {
                    KeyCode::Char(c) => {
                        match &mut self.state {
                            AppState::ModelBrowsing { query, cursor, scroll, .. } => {
                                push_char(query, c);
                                *cursor = 0;
                                *scroll = 0;
                            },
                            _ => {},
                        }
                        self.clamp_model_cursor();
                    },
                    _ => {},
                }
            }
        }
    }
    /// Key while the session browser is open.
    fn handle_session_key(&mut self, key: KeyEvent)
        requires
            old(self)@.state is SessionBrowsing,
        ensures
            final(self)@ == session_key(old(self)@, key),
    {
        let (query, cursor, search_active) = match &self.state {
            AppState::SessionBrowsing { query, cursor, search_active, .. } => (
                copy_str(query.as_str()),
                *cursor,
                *search_active,
            ),
            _ => {
                return;
            },
        };
        if key_is_ctrl_c(key) {
            self.state = AppState::Idle;
            return;
        }
        if key.code == KeyCode::Esc {
            if search_active {
                match &mut self.state {
                    AppState::SessionBrowsing { search_active, .. } => {
                        *search_active = false;
                    },
                    _ => {},
                }
            } else {
                self.state = AppState::Idle;
            }
            return;
        }
        if !search_active {
            if key.code == KeyCode::Char('s') || key.code == KeyCode::Char('/') {
                match &mut self.state {
                    AppState::SessionBrowsing { search_active, .. } => {
                        *search_active = true;
                    },
                    _ => {},
                }
            } else if key.code == KeyCode::Enter {
                let visible = self.visible_sessions(query.as_str());
                if cursor < visible.len() {
                    let id = copy_str(visible[cursor].id.as_str());
                    self.set_pending_sidebar_selection(id);
                }
                self.state = AppState::Idle;
            } else if key.code == KeyCode::Char('n') {
                self.session.session_browser_new_requested = true;
                self.state = AppState::Idle;
            } else if key.code == KeyCode::Char('d') || key.code == KeyCode::Delete {
                let visible = self.visible_sessions(query.as_str());
                if cursor < visible.len() {
                    match self.session_position(visible[cursor].id.as_str()) {
                        Some(idx) => {
                            self.sidebar.hover = Some(idx);
                            self.state = AppState::Idle;
                            self.request_delete_session();
                        },
                        None => {},
                    }
                }
            } else if key.code == KeyCode::Char('j') || key.code == KeyCode::Down
                || key.code == KeyCode::Char('k') || key.code == KeyCode::Up
                || key.code == KeyCode::PageDown || key.code == KeyCode::PageUp {
                match &mut self.state {
                    AppState::SessionBrowsing { cursor, .. } => {
                        *cursor = if key.code == KeyCode::Char('j') || key.code == KeyCode::Down {
                            cursor.saturating_add(1)
                        } else if key.code == KeyCode::Char('k') || key.code == KeyCode::Up {
                            cursor.saturating_sub(1)
                        } else if key.code == KeyCode::PageDown {
                            cursor.saturating_add(10)
                        } else {
                            cursor.saturating_sub(10)
                        };
                    },
                    _ => {},
                }
                self.clamp_session_cursor();
            }
        } else {
            if key.code == KeyCode::Backspace {
                match &mut self.state {
                    AppState::SessionBrowsing { query, cursor, scroll, .. } => {
                        pop_char(query);
                        *cursor = 0;
                        *scroll = 0;
                    },
                    _ => {},
                }
                self.clamp_session_cursor();
            } else {
                match key.code {
                    KeyCode::Char(c) => {
                        match &mut self.state {
                            AppState::SessionBrowsing { query, cursor, scroll, .. } => {
                                push_char(query, c);
                                *cursor = 0;
                                *scroll = 0;
                            },
                            _ => {},
                        }
                        self.clamp_session_cursor();
                    },
                    _ => {},
                }
            }
        }
    }

    /// Key in the general input mode; returns text to copy to the clipboard.
    fn handle_input_key(&mut self, key: KeyEvent) -> (copy: Option<String>)
        requires
            old(self).wf(),
            key_in_range(old(self)@),
        ensures
            final(self)@ == input_key(old(self)@, key).0,
            opt_view(copy) == input_key(old(self)@, key).1,
            final(self).wf(),
    {
        let pal = self.is_palette_active();
        let idle = match self.state {
            AppState::Idle => true,
            _ => false,
        };
        let prompting = match self.state {
            AppState::AuthPrompting { .. } => true,
            _ => false,
        };
        let active = idle || prompting;
        if key_is_ctrl_c(key) || key.code == KeyCode::Esc {
            if self.chat.text_selection.is_active() {
                let text = match self.chat.text_selection.ordered_range() {
                    Some((start, end)) => extract_selected_text(
                        &self.chat.chat_text_grid,
                        start,
                        end,
                        self.chat.chat_scroll_clamped,
                    ),
                    None => None,
                };
                self.chat.text_selection.clear();
                return text;
            } else if pal {
                self.chat.input = String::new();
                self.chat.cursor_pos = 0;
                self.command_palette_cursor = 0;
                proof {
                    lemma_boundary_ends(self.chat.input@);
                }
            } else if idle {
                self.should_quit = true;
            } else if prompting {
                self.cancel_auth_prompt();
            }
            return None;
        }
        if key.code == KeyCode::Tab && pal {
            self.palette_tab_complete();
        } else if key.code == KeyCode::Tab && idle && self.sidebar.visible {
            self.toggle_sidebar_focus();
        } else if key.code == KeyCode::Enter && idle {
            self.screen = Screen::Chat;
        } else if key.code == KeyCode::Backspace && active {
            self.delete_char();
        } else if key.code == KeyCode::Left && active {
            self.move_cursor_left();
        } else if key.code == KeyCode::Right && active {
            self.move_cursor_right();
        } else if key.code == KeyCode::Up && pal {
            self.command_palette_cursor = self.command_palette_cursor.saturating_sub(1);
        } else if key.code == KeyCode::Down && pal {
            let n = self.palette_filtered_commands().len();
            let max = n.saturating_sub(1);
            let next = self.command_palette_cursor + 1;
            self.command_palette_cursor = if next < max {
                next
            } else {
                max
            };
        } else if key.code == KeyCode::Up {
            self.chat.history_scroll = self.chat.history_scroll.saturating_sub(1);
        } else if key.code == KeyCode::Down {
            self.chat.history_scroll = self.chat.history_scroll.saturating_add(1);
        } else if key.code == KeyCode::PageUp {
            self.chat.history_scroll = self.chat.history_scroll.saturating_sub(10);
        } else if key.code == KeyCode::PageDown {
            self.chat.history_scroll = self.chat.history_scroll.saturating_add(10);
        } else {
            match key.code {
                KeyCode::Char(c) => {
                    if active {
                        self.insert_char(c);
                    }
                },
                _ => {},
            }
        }
        None
    }

    /// Key on the QR code overlay.
    fn key_on_qr(&mut self, key: KeyEvent)
        requires
            old(self).wf(),
            old(self)@.state is QrCodeDisplay,
        ensures
            final(self)@ == key_state(old(self)@, key),
            key_copy(old(self)@, key) is None,
            key_approval(old(self)@, key) is None,
            final(self).wf(),
    {
        if key.code == KeyCode::Esc || key.code == KeyCode::Enter || key.code == KeyCode::Char('q') {
            self.state = AppState::Idle;
        }
    }

    /// Key while a tool call waits for approval; returns the decision.
    fn key_on_approval(&mut self, key: KeyEvent) -> (d: Option<ToolApprovalDecision>)
        requires
            old(self).wf(),
            !(old(self)@.state is QrCodeDisplay),
            old(self)@.chat.pending_approval is Some,
        ensures
            final(self)@ == key_state(old(self)@, key),
            key_copy(old(self)@, key) is None,
            d == key_approval(old(self)@, key),
            final(self).wf(),
    {
        let decision = match key.code {
            KeyCode::Char(c) => if c == 'y' || c == 'Y' {
                Some(ToolApprovalDecision::Approve)
            } else if c == 'n' || c == 'N' {
                Some(ToolApprovalDecision::Reject)
            } else if c == 'a' || c == 'A' {
                Some(ToolApprovalDecision::AllowForSession)
            } else {
                None
            },
            KeyCode::Esc => Some(ToolApprovalDecision::Reject),
            _ => None,
        };
        if decision.is_some() {
            self.chat.pending_approval = None;
        }
        decision
    }

    /// Key in the delete confirmation.
    fn key_on_confirm(&mut self, key: KeyEvent)
        requires
            old(self).wf(),
            !(old(self)@.state is QrCodeDisplay),
            old(self)@.chat.pending_approval is None,
            old(self)@.state is ConfirmDelete,
        ensures
            final(self)@ == key_state(old(self)@, key),
            key_copy(old(self)@, key) is None,
            key_approval(old(self)@, key) is None,
            final(self).wf(),
    {
        let id = match &self.state {
            AppState::ConfirmDelete { session_id, .. } => copy_str(session_id.as_str()),
            _ => {
                return;
            },
        };
        if key.code == KeyCode::Char('y') || key.code == KeyCode::Enter {
            self.session.confirmed_delete = Some(id);
            self.state = AppState::Idle;
        } else if key.code == KeyCode::Char('n') || key.code == KeyCode::Esc {
            self.state = AppState::Idle;
        }
    }

    /// Key while the sidebar has the focus.
    fn key_on_sidebar(&mut self, key: KeyEvent)
        requires
            old(self).wf(),
            key_in_range(old(self)@),
            !(old(self)@.state is QrCodeDisplay),
            old(self)@.chat.pending_approval is None,
            old(self)@.sidebar.focused,
            old(self)@.state is Idle,
        ensures
            final(self)@ == key_state(old(self)@, key),
            key_copy(old(self)@, key) is None,
            key_approval(old(self)@, key) is None,
            final(self).wf(),
    {
        if key.code == KeyCode::Char('j') || key.code == KeyCode::Down {
            let max = self.session.session_list.len().saturating_sub(1);
            let current = match self.sidebar.hover {
                Some(h) => h,
                None => 0,
            };
            self.sidebar.hover = Some(
                if current + 1 < max {
                    current + 1
                } else {
                    max
                },
            );
        } else if key.code == KeyCode::Char('k') || key.code == KeyCode::Up {
            let current = match self.sidebar.hover {
                Some(h) => h,
                None => 0,
            };
            self.sidebar.hover = Some(current.saturating_sub(1));
        } else if key.code == KeyCode::Enter {
            self.select_sidebar_session();
        } else if key.code == KeyCode::Char('d') || key.code == KeyCode::Delete {
            self.request_delete_session();
        } else if key.code == KeyCode::Esc || key.code == KeyCode::Tab {
            self.sidebar.focused = false;
        }
    }

    /// Key in one of the modal views: WhatsApp pairing, the login picker, the
    /// model browser or the session browser.
    fn key_on_modal(&mut self, key: KeyEvent)
        requires
            old(self).wf(),
            !(old(self)@.state is QrCodeDisplay),
            old(self)@.chat.pending_approval is None,
            !(old(self)@.state is ConfirmDelete),
            !(old(self)@.sidebar.focused && old(self)@.state is Idle),
            old(self)@.state is WhatsAppSetup || old(self)@.state is LoginBrowsing
                || old(self)@.state is ModelBrowsing || old(self)@.state is SessionBrowsing,
        ensures
            final(self)@ == key_state(old(self)@, key),
            key_copy(old(self)@, key) is None,
            key_approval(old(self)@, key) is None,
            final(self).wf(),
    {
        match self.state {
            AppState::WhatsAppSetup { .. } => {
                if key.code == KeyCode::Esc {
                    self.state = AppState::Idle;
                    self.push_assistant(copy_str("WhatsApp pairing cancelled."));
                }
            },
            AppState::LoginBrowsing(_) => {
                self.handle_login_key(key);
            },
            AppState::ModelBrowsing { .. } => {
                self.handle_model_key(key);
            },
            _ => {
                self.handle_session_key(key);
            },
        }
    }

    /// Key in the general input mode.
    fn key_on_input(&mut self, key: KeyEvent) -> (copy: Option<String>)
        requires
            old(self).wf(),
            key_in_range(old(self)@),
            !(old(self)@.state is QrCodeDisplay),
            old(self)@.chat.pending_approval is None,
            !(old(self)@.state is ConfirmDelete),
            !(old(self)@.sidebar.focused && old(self)@.state is Idle),
            !(old(self)@.state is WhatsAppSetup || old(self)@.state is LoginBrowsing
                || old(self)@.state is ModelBrowsing || old(self)@.state is SessionBrowsing),
        ensures
            final(self)@ == key_state(old(self)@, key),
            opt_view(copy) == key_copy(old(self)@, key),
            key_approval(old(self)@, key) is None,
            final(self).wf(),
    {
        self.handle_input_key(key)
    }

    /// Handles a key press: updates the state as [`key_state`] says, and
    /// returns the text to copy to the clipboard and the decision for a tool
    /// call waiting for approval.
    pub fn handle_key(&mut self, key: KeyEvent) -> (out: KeyOutcome)
        requires
            old(self).wf(),
            key_in_range(old(self)@),
        ensures
            final(self)@ == key_state(old(self)@, key),
            opt_view(out.copy_text) == key_copy(old(self)@, key),
            out.approval == key_approval(old(self)@, key),
            final(self).wf(),
    {
        let (qr, confirm, idle, modal) = match self.state {
            AppState::QrCodeDisplay { .. } => (true, false, false, false),
            AppState::ConfirmDelete { .. } => (false, true, false, false),
            AppState::Idle => (false, false, true, false),
            AppState::WhatsAppSetup { .. } | AppState::LoginBrowsing(_)
            | AppState::ModelBrowsing { .. } | AppState::SessionBrowsing { .. } => (
                false,
                false,
                false,
                true,
            ),
            _ => (false, false, false, false),
        };
        if qr {
            self.key_on_qr(key);
            KeyOutcome { copy_text: None, approval: None }
        } else if self.chat.pending_approval.is_some() {
            let approval = self.key_on_approval(key);
            KeyOutcome { copy_text: None, approval }
        } else if confirm {
            self.key_on_confirm(key);
            KeyOutcome { copy_text: None, approval: None }
        } else if self.sidebar.focused && idle {
            self.key_on_sidebar(key);
            KeyOutcome { copy_text: None, approval: None }
        } else if modal {
            self.key_on_modal(key);
            KeyOutcome { copy_text: None, approval: None }
        } else {
            let copy_text = self.key_on_input(key);
            KeyOutcome { copy_text, approval: None }
        }
    }
}

} // verus!
