//! The state of the terminal client: conversation, sessions, model and
//! provider choice, sidebar, and the high-level processing state, each with
//! its mathematical view.

use vstd::prelude::*;
use crate::catalog::{ModelCatalogEntry, EntryView, entry_views};
use crate::keys::Rect;
use crate::providers::{AuthLoginIntent, AuthMethodChoice, IntentView, LoginBrowseStep, opt_view};
use crate::text::{copy_str, is_boundary, string_views, utf8_len};

verus! {

// ─── Conversation items ─────────────────────────────────────────────────────

/// One item of the conversation history panel.
#[derive(Debug, Clone, PartialEq, Eq)]
pub enum TuiMessage {
    /// Typed by the user.
    User(String),
    /// Final answer of the assistant.
    Assistant(String),
    /// A tool call, running or done.
    ToolCall { tool_name: String, args_preview: String, done: bool },
    /// Output of a finished tool call.
    ToolResult { tool_name: String, output_preview: String, is_error: bool },
    /// An error of the agent runtime or of a command.
    Error(String),
}

/// The mathematical content of a [`TuiMessage`].
pub enum MessageView {
    User(Seq<char>),
    Assistant(Seq<char>),
    ToolCall { tool_name: Seq<char>, args_preview: Seq<char>, done: bool },
    ToolResult { tool_name: Seq<char>, output_preview: Seq<char>, is_error: bool },
    Error(Seq<char>),
}

impl View for TuiMessage {
    type V = MessageView;

    open spec fn view(&self) -> MessageView {
        match self {
            TuiMessage::User(t) => MessageView::User(t@),
            TuiMessage::Assistant(t) => MessageView::Assistant(t@),
            TuiMessage::ToolCall { tool_name, args_preview, done } => MessageView::ToolCall {
                tool_name: tool_name@,
                args_preview: args_preview@,
                done: *done,
            },
            TuiMessage::ToolResult { tool_name, output_preview, is_error } =>
                MessageView::ToolResult {
                tool_name: tool_name@,
                output_preview: output_preview@,
                is_error: *is_error,
            },
            TuiMessage::Error(t) => MessageView::Error(t@),
        }
    }
}

/// The texts of a list of messages.
pub open spec fn message_views(v: Seq<TuiMessage>) -> Seq<MessageView> {
    Seq::new(v.len(), |i: int| v[i]@)
}

// ─── Screens and processing states ──────────────────────────────────────────

/// Which view is shown.
#[derive(Debug, Clone, Copy, PartialEq, Eq, Structural)]
pub enum Screen {
    /// The welcome screen shown before the first message.
    Home,
    /// The conversation.
    Chat,
}

/// Steps of the web adapter setup wizard.
#[derive(Debug, Clone, Copy, PartialEq, Eq, Structural)]
pub enum WebConfigStep {
    Enable,
    Token,
    Port,
    CorsOrigins,
    StaticDir,
    Confirm,
}

/// State of the login picker.
#[derive(Debug, Clone, PartialEq, Eq)]
pub struct LoginBrowsingState {
    /// Provider search text.
    pub query: String,
    /// Highlighted row.
    pub cursor: usize,
    /// First visible row.
    pub scroll: u16,
    /// Current step.
    pub step: LoginBrowseStep,
    /// Provider chosen at the first step.
    pub selected_provider: Option<String>,
    /// Credential kind chosen at the method step.
    pub selected_method: Option<AuthMethodChoice>,
    /// Text typed at the endpoint or key step.
    pub input_buffer: String,
    /// One `*` per character of a typed API key.
    pub masked_buffer: String,
    /// Error shown in the picker.
    pub last_error: Option<String>,
    /// Endpoint entered at the endpoint step.
    pub endpoint: Option<String>,
}

/// The mathematical content of a [`LoginBrowsingState`].
pub struct LoginView {
    pub query: Seq<char>,
    pub cursor: usize,
    pub scroll: u16,
    pub step: LoginBrowseStep,
    pub selected_provider: Option<Seq<char>>,
    pub selected_method: Option<AuthMethodChoice>,
    pub input_buffer: Seq<char>,
    pub masked_buffer: Seq<char>,
    pub last_error: Option<Seq<char>>,
    pub endpoint: Option<Seq<char>>,
}

impl View for LoginBrowsingState {
    type V = LoginView;

    open spec fn view(&self) -> LoginView {
        LoginView {
            query: self.query@,
            cursor: self.cursor,
            scroll: self.scroll,
            step: self.step,
            selected_provider: opt_view(self.selected_provider),
            selected_method: self.selected_method,
            input_buffer: self.input_buffer@,
            masked_buffer: self.masked_buffer@,
            last_error: opt_view(self.last_error),
            endpoint: opt_view(self.endpoint),
        }
    }
}

/// State of the web adapter setup wizard.
#[derive(Debug, Clone, PartialEq, Eq)]
pub struct WebConfiguringState {
    pub step: WebConfigStep,
    pub enabled: bool,
    pub token: String,
    pub port: String,
    pub cors_origins: String,
    pub static_dir: String,
    /// Text typed at the current step.
    pub input_buffer: String,
}

/// The mathematical content of a [`WebConfiguringState`].
pub struct WebView {
    pub step: WebConfigStep,
    pub enabled: bool,
    pub token: Seq<char>,
    pub port: Seq<char>,
    pub cors_origins: Seq<char>,
    pub static_dir: Seq<char>,
    pub input_buffer: Seq<char>,
}

impl View for WebConfiguringState {
    type V = WebView;

    open spec fn view(&self) -> WebView {
        WebView {
            step: self.step,
            enabled: self.enabled,
            token: self.token@,
            port: self.port@,
            cors_origins: self.cors_origins@,
            static_dir: self.static_dir@,
            input_buffer: self.input_buffer@,
        }
    }
}

/// Steps of WhatsApp pairing.
#[derive(Debug, Clone, PartialEq, Eq)]
pub enum WhatsAppSetupStep {
    CheckingPrereqs,
    InstallingBridge,
    WaitingForQr,
    DisplayQr { qr_data: String, qr_lines: Vec<String> },
    Connected { phone: String, name: String },
}

/// The mathematical content of a [`WhatsAppSetupStep`].
pub enum WhatsAppView {
    CheckingPrereqs,
    InstallingBridge,
    WaitingForQr,
    DisplayQr { qr_data: Seq<char>, qr_lines: Seq<Seq<char>> },
    Connected { phone: Seq<char>, name: Seq<char> },
}

impl View for WhatsAppSetupStep {
    type V = WhatsAppView;

    open spec fn view(&self) -> WhatsAppView {
        match self {
            WhatsAppSetupStep::CheckingPrereqs => WhatsAppView::CheckingPrereqs,
            WhatsAppSetupStep::InstallingBridge => WhatsAppView::InstallingBridge,
            WhatsAppSetupStep::WaitingForQr => WhatsAppView::WaitingForQr,
            WhatsAppSetupStep::DisplayQr { qr_data, qr_lines } => WhatsAppView::DisplayQr {
                qr_data: qr_data@,
                qr_lines: string_views(qr_lines@),
            },
            WhatsAppSetupStep::Connected { phone, name } => WhatsAppView::Connected {
                phone: phone@,
                name: name@,
            },
        }
    }
}

/// High-level processing state.
#[derive(Debug, Clone, PartialEq, Eq)]
pub enum AppState {
    /// Nothing running; the input box takes text.
    Idle,
    /// Waiting for the model.
    Thinking { round: usize },
    /// A tool runs.
    ExecutingTool { tool_name: String },
    /// Waiting for an API key typed in the input box.
    AuthPrompting {
        provider: String,
        env_name: String,
        endpoint: Option<String>,
        endpoint_env: Option<String>,
    },
    /// Checking or storing a credential.
    AuthValidating { provider: String },
    /// The login picker.
    LoginBrowsing(LoginBrowsingState),
    /// The model browser.
    ModelBrowsing {
        query: String,
        cursor: usize,
        scroll: u16,
        last_sync_status: String,
        search_active: bool,
    },
    /// The session browser.
    SessionBrowsing { query: String, cursor: usize, scroll: u16, search_active: bool },
    /// Asking whether to delete a session.
    ConfirmDelete { session_id: String, session_preview: String },
    /// The web adapter setup wizard.
    WebConfiguring(WebConfiguringState),
    /// WhatsApp pairing.
    WhatsAppSetup { step: WhatsAppSetupStep },
    /// A QR code of the web UI address.
    QrCodeDisplay { url: String, qr_lines: Vec<String> },
}

/// The mathematical content of an [`AppState`].
pub enum AppStateView {
    Idle,
    Thinking { round: usize },
    ExecutingTool { tool_name: Seq<char> },
    AuthPrompting {
        provider: Seq<char>,
        env_name: Seq<char>,
        endpoint: Option<Seq<char>>,
        endpoint_env: Option<Seq<char>>,
    },
    AuthValidating { provider: Seq<char> },
    LoginBrowsing(LoginView),
    ModelBrowsing {
        query: Seq<char>,
        cursor: usize,
        scroll: u16,
        last_sync_status: Seq<char>,
        search_active: bool,
    },
    SessionBrowsing { query: Seq<char>, cursor: usize, scroll: u16, search_active: bool },
    ConfirmDelete { session_id: Seq<char>, session_preview: Seq<char> },
    WebConfiguring(WebView),
    WhatsAppSetup { step: WhatsAppView },
    QrCodeDisplay { url: Seq<char>, qr_lines: Seq<Seq<char>> },
}

impl View for AppState {
    type V = AppStateView;

    open spec fn view(&self) -> AppStateView {
        match self {
            AppState::Idle => AppStateView::Idle,
            AppState::Thinking { round } => AppStateView::Thinking { round: *round },
            AppState::ExecutingTool { tool_name } => AppStateView::ExecutingTool {
                tool_name: tool_name@,
            },
            AppState::AuthPrompting { provider, env_name, endpoint, endpoint_env } =>
                AppStateView::AuthPrompting {
                provider: provider@,
                env_name: env_name@,
                endpoint: opt_view(*endpoint),
                endpoint_env: opt_view(*endpoint_env),
            },
            AppState::AuthValidating { provider } => AppStateView::AuthValidating {
                provider: provider@,
            },
            AppState::LoginBrowsing(l) => AppStateView::LoginBrowsing(l@),
            AppState::ModelBrowsing { query, cursor, scroll, last_sync_status, search_active } =>
                AppStateView::ModelBrowsing {
                query: query@,
                cursor: *cursor,
                scroll: *scroll,
                last_sync_status: last_sync_status@,
                search_active: *search_active,
            },
            AppState::SessionBrowsing { query, cursor, scroll, search_active } =>
                AppStateView::SessionBrowsing {
                query: query@,
                cursor: *cursor,
                scroll: *scroll,
                search_active: *search_active,
            },
            AppState::ConfirmDelete { session_id, session_preview } =>
                AppStateView::ConfirmDelete {
                session_id: session_id@,
                session_preview: session_preview@,
            },
            AppState::WebConfiguring(w) => AppStateView::WebConfiguring(w@),
            AppState::WhatsAppSetup { step } => AppStateView::WhatsAppSetup { step: step@ },
            AppState::QrCodeDisplay { url, qr_lines } => AppStateView::QrCodeDisplay {
                url: url@,
                qr_lines: string_views(qr_lines@),
            },
        }
    }
}

/// API key typed at the prompt, with what the prompt was for.
#[derive(Debug, Clone, PartialEq, Eq)]
pub struct AuthSubmission {
    pub provider: String,
    pub env_name: String,
    pub endpoint: Option<String>,
    pub api_key: String,
}

/// A session listed in the sidebar.
#[derive(Debug, Clone, PartialEq, Eq)]
pub struct SessionEntry {
    /// Session id.
    pub id: String,
    /// Channel of the session (e.g. `cli:tui`).
    pub channel_id: String,
    /// Time of the latest message, in seconds since the Unix epoch.
    pub updated_at: i64,
    /// Text of the latest message.
    pub preview: String,
}

/// The mathematical content of a [`SessionEntry`].
pub struct SessionView {
    pub id: Seq<char>,
    pub channel_id: Seq<char>,
    pub updated_at: i64,
    pub preview: Seq<char>,
}

impl View for SessionEntry {
    type V = SessionView;

    open spec fn view(&self) -> SessionView {
        SessionView {
            id: self.id@,
            channel_id: self.channel_id@,
            updated_at: self.updated_at,
            preview: self.preview@,
        }
    }
}

impl SessionEntry {
    /// A copy of the entry.
    pub fn copy(&self) -> (r: SessionEntry)
        ensures
            r@ == self@,
    {
        SessionEntry {
            id: copy_str(self.id.as_str()),
            channel_id: copy_str(self.channel_id.as_str()),
            updated_at: self.updated_at,
            preview: copy_str(self.preview.as_str()),
        }
    }
}

/// The texts of a list of sessions.
pub open spec fn session_views(v: Seq<SessionEntry>) -> Seq<SessionView> {
    Seq::new(v.len(), |i: int| v[i]@)
}

/// Web adapter settings produced by the setup wizard.
#[derive(Debug, Clone, PartialEq, Eq)]
pub struct WebConfig {
    pub enabled: bool,
    pub token: String,
    pub port: u16,
    pub cors_origins: String,
    pub static_dir: String,
}

/// The mathematical content of a [`WebConfig`].
pub struct WebConfigView {
    pub enabled: bool,
    pub token: Seq<char>,
    pub port: u16,
    pub cors_origins: Seq<char>,
    pub static_dir: Seq<char>,
}

impl View for WebConfig {
    type V = WebConfigView;

    open spec fn view(&self) -> WebConfigView {
        WebConfigView {
            enabled: self.enabled,
            token: self.token@,
            port: self.port,
            cors_origins: self.cors_origins@,
            static_dir: self.static_dir@,
        }
    }
}

// ─── Mouse text selection ───────────────────────────────────────────────────

/// Text selected with the mouse in the conversation panel, in
/// panel-relative `(row, column)` cells.
#[derive(Debug, Clone, Copy, PartialEq, Eq)]
pub struct TextSelection {
    /// Where the drag started.
    pub anchor: Option<(u16, u16)>,
    /// Where the drag is now (or ended).
    pub endpoint: Option<(u16, u16)>,
    /// A drag is in progress.
    pub dragging: bool,
}

/// `a` comes before or at `b` in reading order.
pub open spec fn cell_le(a: (u16, u16), b: (u16, u16)) -> bool {
    a.0 < b.0 || (a.0 == b.0 && a.1 <= b.1)
}

/// The selection spans at least one cell: both ends are set and differ.
pub open spec fn selection_active(s: TextSelection) -> bool {
    match (s.anchor, s.endpoint) {
        (Some(a), Some(e)) => a != e,
        _ => false,
    }
}

/// Both ends of the selection in reading order.
pub open spec fn selection_range(s: TextSelection) -> Option<((u16, u16), (u16, u16))> {
    match (s.anchor, s.endpoint) {
        (Some(a), Some(e)) => if cell_le(a, e) {
            Some((a, e))
        } else {
            Some((e, a))
        },
        _ => None,
    }
}

impl TextSelection {
    /// No selection.
    pub fn new() -> (s: TextSelection)
        ensures
            s == (TextSelection { anchor: None, endpoint: None, dragging: false }),
    {
        TextSelection { anchor: None, endpoint: None, dragging: false }
    }

    /// Whether a non-empty selection exists.
    pub fn is_active(&self) -> (b: bool)
        ensures
            b == selection_active(*self),
    {
        match (self.anchor, self.endpoint) {
            (Some(a), Some(e)) => a.0 != e.0 || a.1 != e.1,
            _ => false,
        }
    }

    /// Both ends of the selection in reading order, when both are set.
    pub fn ordered_range(&self) -> (r: Option<((u16, u16), (u16, u16))>)
        ensures
            r == selection_range(*self),
    {
        match (self.anchor, self.endpoint) {
            (Some(a), Some(e)) => if a.0 < e.0 || (a.0 == e.0 && a.1 <= e.1) {
                Some((a, e))
            } else {
                Some((e, a))
            },
            _ => None,
        }
    }

    /// Drops the selection.
    pub fn clear(&mut self)
        ensures
            *final(self) == (TextSelection { anchor: None, endpoint: None, dragging: false }),
    {
        self.anchor = None;
        self.endpoint = None;
        self.dragging = false;
    }
}

// ─── Tool approval ──────────────────────────────────────────────────────────

/// What the user decides about a tool call that needs approval.
#[derive(Debug, Clone, Copy, PartialEq, Eq, Structural)]
pub enum ToolApprovalDecision {
    Approve,
    Reject,
    AllowForSession,
}

/// A tool call waiting for approval.
#[derive(Debug, Clone, PartialEq, Eq)]
pub struct ToolApprovalRequest {
    pub tool_name: String,
    /// JSON text of the call's arguments.
    pub arguments: String,
}

/// A tool call waiting for the user's decision.
pub struct PendingApproval {
    pub request: ToolApprovalRequest,
}

/// The mathematical content of a [`PendingApproval`]: the request.
pub struct ApprovalView {
    pub tool_name: Seq<char>,
    pub arguments: Seq<char>,
}

// ─── The application ────────────────────────────────────────────────────────

/// Conversation state.
pub struct ChatState {
    /// History, oldest first.
    pub messages: Vec<TuiMessage>,
    /// Text of the input box.
    pub input: String,
    /// Cursor in the input box, as a byte offset into `input`.
    pub cursor_pos: usize,
    /// Scroll offset of the history panel.
    pub history_scroll: u16,
    /// Mouse selection in the history panel.
    pub text_selection: TextSelection,
    /// Where the history panel was drawn last.
    pub chat_area: Option<Rect>,
    /// Characters of the history panel as drawn last, row by row.
    pub chat_text_grid: Vec<Vec<char>>,
    /// Scroll offset actually used at the last draw.
    pub chat_scroll_clamped: u16,
    /// Tool call waiting for the user's decision.
    pub pending_approval: Option<PendingApproval>,
}

/// Session state.
pub struct SessionState {
    pub session_id: String,
    pub channel_id: String,
    /// Sessions listed in the sidebar.
    pub session_list: Vec<SessionEntry>,
    /// Session picked to be loaded, for the event loop.
    pub pending_sidebar_selection: Option<String>,
    /// Session confirmed for deletion, for the event loop.
    pub confirmed_delete: Option<String>,
    /// A new session was asked for in the session browser.
    pub session_browser_new_requested: bool,
}

/// Model, provider and login state.
pub struct ModelState {
    /// Model shown in the status bar.
    pub model_name: String,
    /// Latest model catalog.
    pub model_entries: Vec<ModelCatalogEntry>,
    /// Provider the catalog came from.
    pub model_provider: String,
    /// `r` was pressed in the model browser.
    pub model_refresh_requested: bool,
    /// Model picked in the browser, as `(model id, provider)`, for the event loop.
    pub pending_model_change: Option<(String, String)>,
    /// Provider whose credentials are checked.
    pub provider_name: String,
    /// Login chosen in the picker, for the event loop.
    pub pending_auth_intent: Option<AuthLoginIntent>,
}

/// Sidebar state.
#[derive(Debug, Clone, Copy, PartialEq, Eq, Structural)]
pub struct SidebarState {
    /// Row under the mouse or keyboard highlight.
    pub hover: Option<usize>,
    pub scroll: u16,
    pub visible: bool,
    /// Keys go to the sidebar.
    pub focused: bool,
}

/// The whole client state.
pub struct TuiApp {
    pub chat: ChatState,
    pub session: SessionState,
    pub model: ModelState,
    pub sidebar: SidebarState,
    pub state: AppState,
    pub screen: Screen,
    /// Spinner animation frame counter.
    pub spinner_tick: u8,
    /// The user asked to leave.
    pub should_quit: bool,
    /// Highlighted row of the command palette.
    pub command_palette_cursor: usize,
    pub workspace_name: String,
    pub branch_name: String,
    pub mcp_count: usize,
    pub version: String,
    /// Settings from a finished web setup wizard, for the event loop.
    pub pending_web_config: Option<WebConfig>,
}

/// The mathematical content of a [`ChatState`].
pub struct ChatModel {
    pub messages: Seq<MessageView>,
    pub input: Seq<char>,
    pub cursor_pos: usize,
    pub history_scroll: u16,
    pub text_selection: TextSelection,
    pub chat_area: Option<Rect>,
    pub chat_text_grid: Seq<Seq<char>>,
    pub chat_scroll_clamped: u16,
    pub pending_approval: Option<ApprovalView>,
}

/// The mathematical content of a [`SessionState`].
pub struct SessionModel {
    pub session_id: Seq<char>,
    pub channel_id: Seq<char>,
    pub session_list: Seq<SessionView>,
    pub pending_sidebar_selection: Option<Seq<char>>,
    pub confirmed_delete: Option<Seq<char>>,
    pub session_browser_new_requested: bool,
}

/// The mathematical content of a [`ModelState`].
pub struct ModelInfo {
    pub model_name: Seq<char>,
    pub model_entries: Seq<EntryView>,
    pub model_provider: Seq<char>,
    pub model_refresh_requested: bool,
    pub pending_model_change: Option<(Seq<char>, Seq<char>)>,
    pub provider_name: Seq<char>,
    pub pending_auth_intent: Option<IntentView>,
}

/// The mathematical content of a [`TuiApp`].
pub struct AppModel {
    pub chat: ChatModel,
    pub session: SessionModel,
    pub model: ModelInfo,
    pub sidebar: SidebarState,
    pub state: AppStateView,
    pub screen: Screen,
    pub spinner_tick: u8,
    pub should_quit: bool,
    pub command_palette_cursor: usize,
    pub workspace_name: Seq<char>,
    pub branch_name: Seq<char>,
    pub mcp_count: usize,
    pub version: Seq<char>,
    pub pending_web_config: Option<WebConfigView>,
}

/// The rows of characters of a text grid.
pub open spec fn grid_view(g: Seq<Vec<char>>) -> Seq<Seq<char>> {
    Seq::new(g.len(), |i: int| g[i]@)
}

impl View for ChatState {
    type V = ChatModel;

    open spec fn view(&self) -> ChatModel {
        ChatModel {
            messages: message_views(self.messages@),
            input: self.input@,
            cursor_pos: self.cursor_pos,
            history_scroll: self.history_scroll,
            text_selection: self.text_selection,
            chat_area: self.chat_area,
            chat_text_grid: grid_view(self.chat_text_grid@),
            chat_scroll_clamped: self.chat_scroll_clamped,
            pending_approval: match self.pending_approval {
                Some(p) => Some(
                    ApprovalView { tool_name: p.request.tool_name@, arguments: p.request.arguments@ },
                ),
                None => None,
            },
        }
    }
}

impl View for SessionState {
    type V = SessionModel;

    open spec fn view(&self) -> SessionModel {
        SessionModel {
            session_id: self.session_id@,
            channel_id: self.channel_id@,
            session_list: session_views(self.session_list@),
            pending_sidebar_selection: opt_view(self.pending_sidebar_selection),
            confirmed_delete: opt_view(self.confirmed_delete),
            session_browser_new_requested: self.session_browser_new_requested,
        }
    }
}

impl View for ModelState {
    type V = ModelInfo;

    open spec fn view(&self) -> ModelInfo {
        ModelInfo {
            model_name: self.model_name@,
            model_entries: entry_views(self.model_entries@),
            model_provider: self.model_provider@,
            model_refresh_requested: self.model_refresh_requested,
            pending_model_change: match self.pending_model_change {
                Some((m, p)) => Some((m@, p@)),
                None => None,
            },
            provider_name: self.provider_name@,
            pending_auth_intent: match self.pending_auth_intent {
                Some(i) => Some(i@),
                None => None,
            },
        }
    }
}

impl View for TuiApp {
    type V = AppModel;

    open spec fn view(&self) -> AppModel {
        AppModel {
            chat: self.chat@,
            session: self.session@,
            model: self.model@,
            sidebar: self.sidebar,
            state: self.state@,
            screen: self.screen,
            spinner_tick: self.spinner_tick,
            should_quit: self.should_quit,
            command_palette_cursor: self.command_palette_cursor,
            workspace_name: self.workspace_name@,
            branch_name: self.branch_name@,
            mcp_count: self.mcp_count,
            version: self.version@,
            pending_web_config: match self.pending_web_config {
                Some(w) => Some(w@),
                None => None,
            },
        }
    }
}

/// Well-formedness of the client state: the input cursor sits on a character
/// boundary of the input text, and that text fits in memory.
pub open spec fn app_wf(m: AppModel) -> bool {
    &&& utf8_len(m.chat.input) <= isize::MAX
    &&& is_boundary(m.chat.input, m.chat.cursor_pos as int)
}

impl TuiApp {
    /// Well-formedness of the client state (see [`app_wf`]).
    pub open spec fn wf(&self) -> bool {
        app_wf(self@)
    }
}

} // verus!
