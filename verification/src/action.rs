//! Actions and commands: every state change of the client is an [`Action`]
//! applied by [`TuiApp::update`], and every side effect it asks for is a
//! [`Command`] that the event loop carries out.

use vstd::prelude::*;
use crate::app::{
    lemma_boundary_ends, ProgressEvent, clear_input, login_opened, palette_closed, palette_down, palette_selected,
    palette_up, progress_applied, progress_ok, push_message, scrolled_to_bottom, slash_outcome,
    tab_completed, with_state,
};
use crate::browse::{
    AgentMessage, catalog_updated, delete_requested, hovered_session, model_browser_opened,
    refreshing_marked, sat_sub16, session_loaded, session_removed, sidebar_selected,
    sidebar_toggled,
};
use crate::catalog::{ModelCatalogEntry, entry_views};
use crate::editing::{char_deleted, char_inserted, cursor_moved_left, cursor_moved_right, input_active};
use crate::input::{
    auth_cancelled, history_scrolled, key_approval, key_copy, key_in_range, key_state, sat_add16,
    selection_cleared, selection_copy,
};
use crate::keys::KeyEvent;
use crate::providers::{AuthMethodChoice, LoginBrowseStep, opt_view};
use crate::qr::{generate_qr_lines, qr_render};
use crate::selection::extract_selected_text;
use crate::state::{
    AppModel, AppState, AppStateView, LoginBrowsingState, TuiApp, WhatsAppSetupStep, ChatModel, LoginView, MessageView, ModelInfo, Screen, SessionEntry,
    SessionModel, SidebarState, TextSelection, ToolApprovalDecision, WhatsAppView,
    selection_active, session_views,
};
use crate::text::{concat2, concat3, copy_str, string_views};
use crate::wizard::web_key;

verus! {

// ─── Actions ────────────────────────────────────────────────────────────────

/// Every state change of the client.
#[derive(Debug)]
pub enum Action {
    /// Insert a character at the input cursor.
    InsertChar(char),
    /// Delete the character before the input cursor.
    DeleteChar,
    /// Move the input cursor one character left.
    MoveCursorLeft,
    /// Move the input cursor one character right.
    MoveCursorRight,
    /// Submit the input (Enter while idle).
    SubmitInput,
    /// Scroll the history up by `n` lines.
    ScrollUp(u16),
    /// Scroll the history down by `n` lines.
    ScrollDown(u16),
    /// Jump to the newest message.
    ScrollToBottom,
    /// Show a screen.
    SwitchScreen(Screen),
    /// Move keyboard focus between sidebar and input.
    ToggleSidebarFocus,
    /// Append a user message.
    PushUserMessage(String),
    /// Append an assistant message.
    PushAssistantMessage(String),
    /// Append an error message.
    PushError(String),
    /// Apply a progress event of the agent runtime.
    ApplyProgress(ProgressEvent),
    /// Apply the final result of an agent run.
    ApplyCompletion(Result<String, String>),
    /// Set the sidebar highlight.
    SidebarHover(Option<usize>),
    /// Scroll the sidebar by `delta` rows (positive: down).
    SidebarScroll(i16),
    /// Load the highlighted sidebar session.
    SelectSidebarSession,
    /// Ask whether to delete the highlighted sidebar session.
    RequestDeleteSession,
    /// Confirm the deletion asked for.
    ConfirmDelete,
    /// Cancel the deletion asked for.
    CancelDelete,
    /// Open the login picker, searching an optional seed.
    OpenLoginBrowser(Option<String>),
    /// Cancel the API key prompt.
    CancelAuth,
    /// A key for the login picker.
    LoginBrowserKey(KeyEvent),
    /// Ask for the OAuth code of `provider` at the picker's key step.
    SetOAuthCodeDisplayState { provider: String },
    /// Start validating the credentials of a provider.
    SetAuthValidating(String),
    /// Open the model browser on a catalog.
    OpenModelBrowser {
        provider: String,
        entries: Vec<ModelCatalogEntry>,
        query: String,
        sync_status: String,
    },
    /// Close the model browser.
    CloseModelBrowser,
    /// A key for the model browser.
    ModelBrowserKey(KeyEvent),
    /// Show that the catalog is being refreshed.
    MarkModelRefreshing,
    /// Replace the catalog.
    UpdateModelCatalog { provider: String, entries: Vec<ModelCatalogEntry>, sync_status: String },
    /// Open the session browser.
    OpenSessionBrowser,
    /// Close the session browser.
    CloseSessionBrowser,
    /// A key for the session browser.
    SessionBrowserKey(KeyEvent),
    /// A key for the web setup wizard.
    WebConfigKey(KeyEvent),
    /// Move the palette highlight up.
    PaletteMoveUp,
    /// Move the palette highlight down.
    PaletteMoveDown,
    /// Resolve the highlighted palette command into the input.
    PaletteSelect,
    /// Close the palette by clearing the input.
    PaletteClose,
    /// Copy the highlighted palette command into the input.
    PaletteTabComplete,
    /// Start a mouse selection at a panel cell.
    TextSelectionStart { row: u16, col: u16 },
    /// Drag the mouse selection to a panel cell.
    TextSelectionDrag { row: u16, col: u16 },
    /// End the mouse selection at a panel cell.
    TextSelectionEnd { row: u16, col: u16 },
    /// Copy the selection and drop it.
    TextSelectionCopy,
    /// Drop the selection.
    TextSelectionClear,
    /// Spinner animation tick.
    Tick,
    /// Leave the client.
    Quit,
    /// The terminal was resized (redraw only).
    Resize,
    /// The agent starts thinking.
    SetThinking,
    /// Back to idle.
    SetIdle,
    /// Show a stored session.
    LoadSession { session_id: String, messages: Vec<AgentMessage> },
    /// Replace the sidebar's session list.
    RefreshSessionList(Vec<SessionEntry>),
    /// Show a new, empty session.
    NewSession(String),
    /// Remove a session from the sidebar.
    RemoveSession(String),
    /// Set the model name shown.
    SetModel(String),
    /// Set the provider name shown.
    SetProviderName(String),
    /// Run a local slash command.
    SlashCommand(String),
    /// Start WhatsApp pairing.
    OpenWhatsAppSetup,
    /// Cancel WhatsApp pairing.
    WhatsAppSetupCancel,
    /// The pairing prerequisites were checked.
    WhatsAppPrereqsChecked { node_ok: bool, bridge_installed: bool },
    /// The bridge's dependencies were installed, or failed to.
    WhatsAppBridgeInstalled(Result<(), String>),
    /// The bridge sent the pairing QR code's text.
    WhatsAppQrReceived(String),
    /// The bridge connected.
    WhatsAppConnected { phone: String, name: String },
    /// A key during WhatsApp pairing.
    WhatsAppSetupKey(KeyEvent),
    /// Show a QR code of the web UI address.
    OpenQrCode { url: String, qr_lines: Vec<String> },
    /// Close the QR code.
    CloseQrCode,
}

// ─── Commands ───────────────────────────────────────────────────────────────

/// Side effects asked for by [`TuiApp::update`], carried out by the event
/// loop.
#[derive(Debug, Clone, PartialEq, Eq)]
pub enum Command {
    /// Nothing to do.
    NoOp,
    /// Run the agent on a user message.
    SpawnAgentTask(String),
    /// Start the login flow of the pending login.
    StartAuthFlow,
    /// Load the model catalog.
    LoadModelCatalog,
    /// Load a session from the store.
    LoadSessionFromDb(String),
    /// Delete a session from the store.
    DeleteSession(String),
    /// Create a new session.
    CreateNewSession,
    /// Reload the sidebar's session list.
    RefreshSidebar,
    /// Put text on the system clipboard.
    CopyToClipboard(String),
    /// Start the WhatsApp bridge.
    SpawnWhatsAppBridge,
    /// Check the WhatsApp bridge's prerequisites.
    CheckWhatsAppPrereqs,
    /// Install the WhatsApp bridge's dependencies.
    InstallWhatsAppBridge,
    /// Hand a decision to the tool call waiting for approval.
    ReplyApproval(ToolApprovalDecision),
}

/// The mathematical content of a [`Command`].
pub enum CommandView {
    NoOp,
    SpawnAgentTask(Seq<char>),
    StartAuthFlow,
    LoadModelCatalog,
    LoadSessionFromDb(Seq<char>),
    DeleteSession(Seq<char>),
    CreateNewSession,
    RefreshSidebar,
    CopyToClipboard(Seq<char>),
    SpawnWhatsAppBridge,
    CheckWhatsAppPrereqs,
    InstallWhatsAppBridge,
    ReplyApproval(ToolApprovalDecision),
}

impl View for Command {
    type V = CommandView;

    open spec fn view(&self) -> CommandView {
        match self {
            Command::NoOp => CommandView::NoOp,
            Command::SpawnAgentTask(t) => CommandView::SpawnAgentTask(t@),
            Command::StartAuthFlow => CommandView::StartAuthFlow,
            Command::LoadModelCatalog => CommandView::LoadModelCatalog,
            Command::LoadSessionFromDb(id) => CommandView::LoadSessionFromDb(id@),
            Command::DeleteSession(id) => CommandView::DeleteSession(id@),
            Command::CreateNewSession => CommandView::CreateNewSession,
            Command::RefreshSidebar => CommandView::RefreshSidebar,
            Command::CopyToClipboard(t) => CommandView::CopyToClipboard(t@),
            Command::SpawnWhatsAppBridge => CommandView::SpawnWhatsAppBridge,
            Command::CheckWhatsAppPrereqs => CommandView::CheckWhatsAppPrereqs,
            Command::InstallWhatsAppBridge => CommandView::InstallWhatsAppBridge,
            Command::ReplyApproval(d) => CommandView::ReplyApproval(*d),
        }
    }
}

// ─── What an action does ────────────────────────────────────────────────────

/// The command putting `t` on the clipboard, if there is text.
pub open spec fn copy_command(t: Option<Seq<char>>) -> CommandView {
    match t {
        Some(s) => CommandView::CopyToClipboard(s),
        None => CommandView::NoOp,
    }
}

/// The side effect of a key press: text to copy, else a decision to hand
/// to a waiting tool call.
pub open spec fn key_command(m: AppModel, key: KeyEvent) -> CommandView {
    match key_copy(m, key) {
        Some(t) => CommandView::CopyToClipboard(t),
        None => match key_approval(m, key) {
            Some(d) => CommandView::ReplyApproval(d),
            None => CommandView::NoOp,
        },
    }
}

/// `m` with mouse selection `s`.
pub open spec fn selection_set(m: AppModel, s: TextSelection) -> AppModel {
    AppModel { chat: ChatModel { text_selection: s, ..m.chat }, ..m }
}

/// `m` with the sidebar scrolled by `delta` rows, saturating.
pub open spec fn sidebar_scrolled(m: AppModel, delta: i16) -> AppModel {
    let s = m.sidebar.scroll;
    let scroll = if delta > 0 {
        sat_add16(s, delta as u16)
    } else {
        sat_sub16(s, (-delta) as u16)
    };
    AppModel { sidebar: SidebarState { scroll, ..m.sidebar }, ..m }
}

/// The history item of an agent run's result.
pub open spec fn completion_message(r: Result<String, String>) -> MessageView {
    match r {
        Ok(t) => MessageView::Assistant(t@),
        Err(e) => MessageView::Error(e@),
    }
}

/// The login picker asking for the OAuth code of `provider`.
pub open spec fn oauth_code_state(provider: Seq<char>) -> AppStateView {
    AppStateView::LoginBrowsing(
        LoginView {
            query: provider,
            cursor: 0,
            scroll: 0,
            step: LoginBrowseStep::InputApiKey,
            selected_provider: Some(provider),
            selected_method: Some(AuthMethodChoice::OAuth),
            input_buffer: Seq::empty(),
            masked_buffer: Seq::empty(),
            last_error: None,
            endpoint: None,
        },
    )
}

/// `m` at WhatsApp pairing step `step`.
pub open spec fn pairing_at(m: AppModel, step: WhatsAppView) -> AppModel {
    with_state(m, AppStateView::WhatsAppSetup { step })
}

/// `m` showing the pairing QR code of `data` (or the error rendering it),
/// when pairing is under way.
#[verifier::opaque]
pub open spec fn qr_received(m: AppModel, data: Seq<char>) -> AppModel {
    if m.state is WhatsAppSetup {
        match qr_render(data) {
            Ok(lines) => pairing_at(m, WhatsAppView::DisplayQr { qr_data: data, qr_lines: lines }),
            Err(e) => push_message(m, MessageView::Error("Failed to render QR code: "@ + e)),
        }
    } else {
        m
    }
}

/// `m` after the bridge connected as `phone` / `name`.
#[verifier::opaque]
pub open spec fn pairing_connected(m: AppModel, phone: Seq<char>, name: Seq<char>) -> AppModel {
    let m1 = if m.state is WhatsAppSetup {
        pairing_at(m, WhatsAppView::Connected { phone, name })
    } else {
        m
    };
    push_message(
        m1,
        MessageView::Assistant("WhatsApp connected! Phone: "@ + phone + ", Name: "@ + name),
    )
}

/// The effect of the mouse selection's end at `(row, col)`: the selection,
/// and the copy of its text when it spans at least one cell.
#[verifier::opaque]
pub open spec fn selection_ended(m: AppModel, row: u16, col: u16) -> (AppModel, CommandView) {
    if m.chat.text_selection.dragging {
        let s = TextSelection {
            endpoint: Some((row, col)),
            dragging: false,
            ..m.chat.text_selection
        };
        let m1 = selection_set(m, s);
        (m1, if selection_active(s) {
            copy_command(selection_copy(m1))
        } else {
            CommandView::NoOp
        })
    } else {
        (m, CommandView::NoOp)
    }
}

// Each action with more than a field update is described by a function of
// its own, opaque so that reasoning about one action does not unfold the
// others.

/// Effect of a typed character.
#[verifier::opaque]
pub open spec fn typed(m: AppModel, c: char) -> AppModel {
    if input_active(m) {
        char_inserted(m, c)
    } else {
        m
    }
}

/// Effect of Backspace in the input box.
#[verifier::opaque]
pub open spec fn backspaced(m: AppModel) -> AppModel {
    if input_active(m) {
        char_deleted(m)
    } else {
        m
    }
}

/// Effect of moving the input cursor left.
#[verifier::opaque]
pub open spec fn moved_left(m: AppModel) -> AppModel {
    if input_active(m) {
        cursor_moved_left(m)
    } else {
        m
    }
}

/// Effect of moving the input cursor right.
#[verifier::opaque]
pub open spec fn moved_right(m: AppModel) -> AppModel {
    if input_active(m) {
        cursor_moved_right(m)
    } else {
        m
    }
}

/// Effect of a key forwarded to the key handler: its state and side effect.
#[verifier::opaque]
pub open spec fn key_forwarded(m: AppModel, k: KeyEvent) -> (AppModel, CommandView) {
    (key_state(m, k), key_command(m, k))
}

/// Effect of a progress event, scrolled to the newest message.
#[verifier::opaque]
pub open spec fn progress_shown(m: AppModel, e: ProgressEvent) -> AppModel {
    scrolled_to_bottom(progress_applied(m, e))
}

/// Effect of the result of an agent run.
#[verifier::opaque]
pub open spec fn completion_shown(m: AppModel, r: Result<String, String>) -> AppModel {
    scrolled_to_bottom(with_state(push_message(m, completion_message(r)), AppStateView::Idle))
}

/// Effect of picking the highlighted sidebar session.
#[verifier::opaque]
pub open spec fn sidebar_picked(m: AppModel) -> (AppModel, CommandView) {
    (
        sidebar_selected(m),
        match hovered_session(m) {
            Some(e) => CommandView::LoadSessionFromDb(e.id),
            None => CommandView::NoOp,
        },
    )
}

/// Effect of confirming a deletion.
#[verifier::opaque]
pub open spec fn delete_confirmed(m: AppModel) -> (AppModel, CommandView) {
    match m.state {
        AppStateView::ConfirmDelete { session_id, .. } => (
            with_state(
                AppModel {
                    session: SessionModel { confirmed_delete: Some(session_id), ..m.session },
                    ..m
                },
                AppStateView::Idle,
            ),
            CommandView::DeleteSession(session_id),
        ),
        _ => (m, CommandView::NoOp),
    }
}

/// Effect of copying the mouse selection.
#[verifier::opaque]
pub open spec fn selection_copied(m: AppModel) -> (AppModel, CommandView) {
    (selection_cleared(m), copy_command(selection_copy(m)))
}

/// Effect of a new, empty session `sid`.
#[verifier::opaque]
pub open spec fn session_started(m: AppModel, sid: Seq<char>) -> AppModel {
    push_message(
        session_loaded(m, sid, Seq::empty()),
        MessageView::Assistant("New session created: `"@ + sid + "`"@),
    )
}

/// Effect of a local slash command, scrolled to the newest message.
#[verifier::opaque]
pub open spec fn slash_run(m: AppModel, raw: Seq<char>) -> AppModel {
    scrolled_to_bottom(slash_outcome(m, raw).0)
}

/// Effect of the pairing prerequisites check.
#[verifier::opaque]
pub open spec fn prereqs_checked(m: AppModel, node_ok: bool, bridge_installed: bool) -> (
    AppModel,
    CommandView,
) {
    if !node_ok {
        (
            push_message(
                with_state(m, AppStateView::Idle),
                MessageView::Error(
                    "Node.js is required for WhatsApp bridge. Install from https://nodejs.org/"@,
                ),
            ),
            CommandView::NoOp,
        )
    } else if !bridge_installed {
        (pairing_at(m, WhatsAppView::InstallingBridge), CommandView::InstallWhatsAppBridge)
    } else {
        (pairing_at(m, WhatsAppView::WaitingForQr), CommandView::SpawnWhatsAppBridge)
    }
}

/// Effect of the bridge installation's result.
#[verifier::opaque]
pub open spec fn bridge_installed(m: AppModel, r: Result<(), String>) -> (AppModel, CommandView) {
    match r {
        Ok(()) => (pairing_at(m, WhatsAppView::WaitingForQr), CommandView::SpawnWhatsAppBridge),
        Err(msg) => (
            push_message(
                with_state(m, AppStateView::Idle),
                MessageView::Error("Failed to install WhatsApp bridge: "@ + msg@),
            ),
            CommandView::NoOp,
        ),
    }
}

/// Effect of a key in the web setup wizard.
#[verifier::opaque]
pub open spec fn wizard_keyed(m: AppModel, k: KeyEvent) -> AppModel {
    web_key(m, k)
}

/// Effect of moving the palette highlight down.
#[verifier::opaque]
pub open spec fn palette_lowered(m: AppModel) -> AppModel {
    palette_down(m)
}

/// Effect of choosing the highlighted palette command.
#[verifier::opaque]
pub open spec fn palette_chosen(m: AppModel) -> AppModel {
    palette_selected(m)
}

/// Effect of completing the highlighted palette command.
#[verifier::opaque]
pub open spec fn palette_completed(m: AppModel) -> AppModel {
    tab_completed(m)
}

/// Effect of asking to delete the highlighted sidebar session.
#[verifier::opaque]
pub open spec fn deletion_asked(m: AppModel) -> AppModel {
    delete_requested(m)
}

/// Effect of opening the login picker.
#[verifier::opaque]
pub open spec fn login_shown(m: AppModel, seed: Option<Seq<char>>) -> AppModel {
    login_opened(m, seed)
}

/// Effect of showing stored session `id`.
#[verifier::opaque]
pub open spec fn session_shown(m: AppModel, id: Seq<char>, msgs: Seq<AgentMessage>) -> AppModel {
    session_loaded(m, id, msgs)
}

/// Effect of removing session `id` from the sidebar.
#[verifier::opaque]
pub open spec fn session_dropped(m: AppModel, id: Seq<char>) -> AppModel {
    session_removed(m, id)
}

/// What applying `a` to `m` gives: the new state and the side effect.
#[verifier::opaque]
pub open spec fn update_model(m: AppModel, a: Action) -> (AppModel, CommandView) {
    let none = CommandView::NoOp;
    match a {
        Action::InsertChar(c) => (typed(m, c), none),
        Action::DeleteChar => (backspaced(m), none),
        Action::MoveCursorLeft => (moved_left(m), none),
        Action::MoveCursorRight => (moved_right(m), none),
        Action::SubmitInput => (AppModel { screen: Screen::Chat, ..m }, none),
        Action::ScrollUp(n) => (history_scrolled(m, sat_sub16(m.chat.history_scroll, n)), none),
        Action::ScrollDown(n) => (history_scrolled(m, sat_add16(m.chat.history_scroll, n)), none),
        Action::ScrollToBottom => (scrolled_to_bottom(m), none),
        Action::SwitchScreen(s) => (AppModel { screen: s, ..m }, none),
        Action::ToggleSidebarFocus => (sidebar_toggled(m), none),
        Action::PushUserMessage(t) => (push_message(m, MessageView::User(t@)), none),
        Action::PushAssistantMessage(t) => (push_message(m, MessageView::Assistant(t@)), none),
        Action::PushError(e) => (push_message(m, MessageView::Error(e@)), none),
        Action::ApplyProgress(e) => (progress_shown(m, e), none),
        Action::ApplyCompletion(r) => (completion_shown(m, r), none),
        Action::SidebarHover(h) => (
            AppModel { sidebar: SidebarState { hover: h, ..m.sidebar }, ..m },
            none,
        ),
        Action::SidebarScroll(d) => (sidebar_scrolled(m, d), none),
        Action::SelectSidebarSession => sidebar_picked(m),
        Action::RequestDeleteSession => (deletion_asked(m), none),
        Action::ConfirmDelete => delete_confirmed(m),
        Action::CancelDelete => (with_state(m, AppStateView::Idle), none),
        Action::OpenLoginBrowser(seed) => (login_shown(m, opt_view(seed)), none),
        Action::CancelAuth => (auth_cancelled(m), none),
        Action::LoginBrowserKey(k) => key_forwarded(m, k),
        Action::SetOAuthCodeDisplayState { provider } => (
            with_state(m, oauth_code_state(provider@)),
            none,
        ),
        Action::SetAuthValidating(p) => (
            with_state(m, AppStateView::AuthValidating { provider: p@ }),
            none,
        ),
        Action::OpenModelBrowser { provider, entries, query, sync_status } => (
            model_browser_opened(m, provider@, entry_views(entries@), query@, sync_status@),
            none,
        ),
        Action::CloseModelBrowser => (with_state(m, AppStateView::Idle), none),
        Action::ModelBrowserKey(k) => key_forwarded(m, k),
        Action::MarkModelRefreshing => (refreshing_marked(m), none),
        Action::UpdateModelCatalog { provider, entries, sync_status } => (
            catalog_updated(m, provider@, entry_views(entries@), sync_status@),
            none,
        ),
        Action::OpenSessionBrowser => (
            with_state(
                m,
                AppStateView::SessionBrowsing {
                    query: Seq::empty(),
                    cursor: 0,
                    scroll: 0,
                    search_active: false,
                },
            ),
            none,
        ),
        Action::CloseSessionBrowser => (with_state(m, AppStateView::Idle), none),
        Action::SessionBrowserKey(k) => key_forwarded(m, k),
        Action::WebConfigKey(k) => (wizard_keyed(m, k), none),
        Action::PaletteMoveUp => (palette_up(m), none),
        Action::PaletteMoveDown => (palette_lowered(m), none),
        Action::PaletteSelect => (palette_chosen(m), none),
        Action::PaletteClose => (palette_closed(m), none),
        Action::PaletteTabComplete => (palette_completed(m), none),
        Action::TextSelectionStart { row, col } => (
            selection_set(
                m,
                TextSelection {
                    anchor: Some((row, col)),
                    endpoint: Some((row, col)),
                    dragging: true,
                },
            ),
            none,
        ),
        Action::TextSelectionDrag { row, col } => (if m.chat.text_selection.dragging {
            selection_set(
                m,
                TextSelection { endpoint: Some((row, col)), ..m.chat.text_selection },
            )
        } else {
            m
        }, none),
        Action::TextSelectionEnd { row, col } => selection_ended(m, row, col),
        Action::TextSelectionCopy => selection_copied(m),
        Action::TextSelectionClear => (selection_cleared(m), none),
        Action::Tick => (
            AppModel { spinner_tick: ((m.spinner_tick + 1) % 256) as u8, ..m },
            none,
        ),
        Action::Quit => (AppModel { should_quit: true, ..m }, none),
        Action::Resize => (m, none),
        Action::SetThinking => (with_state(m, AppStateView::Thinking { round: 0 }), none),
        Action::SetIdle => (with_state(m, AppStateView::Idle), none),
        Action::LoadSession { session_id, messages } => (
            session_shown(m, session_id@, messages@),
            none,
        ),
        Action::RefreshSessionList(v) => (
            AppModel {
                session: SessionModel { session_list: session_views(v@), ..m.session },
                ..m
            },
            none,
        ),
        Action::NewSession(sid) => (session_started(m, sid@), none),
        Action::RemoveSession(sid) => (session_dropped(m, sid@), none),
        Action::SetModel(s) => (
            AppModel { model: ModelInfo { model_name: s@, ..m.model }, ..m },
            none,
        ),
        Action::SetProviderName(s) => (
            AppModel { model: ModelInfo { provider_name: s@, ..m.model }, ..m },
            none,
        ),
        Action::SlashCommand(raw) => (slash_run(m, raw@), none),
        Action::OpenWhatsAppSetup => (
            pairing_at(
                AppModel { screen: Screen::Chat, ..clear_input(m) },
                WhatsAppView::CheckingPrereqs,
            ),
            CommandView::CheckWhatsAppPrereqs,
        ),
        Action::WhatsAppSetupCancel => (
            push_message(
                with_state(m, AppStateView::Idle),
                MessageView::Assistant("WhatsApp pairing cancelled."@),
            ),
            none,
        ),
        Action::WhatsAppPrereqsChecked { node_ok, bridge_installed } => prereqs_checked(
            m,
            node_ok,
            bridge_installed,
        ),
        Action::WhatsAppBridgeInstalled(r) => bridge_installed(m, r),
        Action::WhatsAppQrReceived(data) => (qr_received(m, data@), none),
        Action::WhatsAppConnected { phone, name } => (pairing_connected(m, phone@, name@), none),
        Action::WhatsAppSetupKey(k) => key_forwarded(m, k),
        Action::OpenQrCode { url, qr_lines } => (
            with_state(
                m,
                AppStateView::QrCodeDisplay { url: url@, qr_lines: string_views(qr_lines@) },
            ),
            none,
        ),
        Action::CloseQrCode => (with_state(m, AppStateView::Idle), none),
    }
}

/// `a` can be applied to `m` without an arithmetic overflow: a forwarded key
/// is in range (see [`key_in_range`]), the palette highlight can move down,
/// a progress event can be previewed, and a sidebar scroll can be negated.
pub open spec fn update_ok(m: AppModel, a: Action) -> bool {
    match a {
        Action::LoginBrowserKey(k) => key_in_range(m),
        Action::ModelBrowserKey(k) => key_in_range(m),
        Action::SessionBrowserKey(k) => key_in_range(m),
        Action::WhatsAppSetupKey(k) => key_in_range(m),
        Action::PaletteMoveDown => m.command_palette_cursor < usize::MAX,
        Action::ApplyProgress(e) => progress_ok(e),
        Action::SidebarScroll(d) => d != i16::MIN,
        _ => true,
    }
}

impl TuiApp {
    /// A typed character.
    fn act_type(&mut self, c: char)
        requires
            old(self).wf(),
        ensures
            final(self)@ == typed(old(self)@, c),
            final(self).wf(),
    {
        proof {
            reveal(typed);
        }
        if match self.state {
            AppState::Idle | AppState::AuthPrompting { .. } => true,
            _ => false,
        } {
            self.insert_char(c);
        }
    }

    /// Backspace in the input box.
    fn act_backspace(&mut self)
        requires
            old(self).wf(),
        ensures
            final(self)@ == backspaced(old(self)@),
            final(self).wf(),
    {
        proof {
            reveal(backspaced);
        }
        if match self.state {
            AppState::Idle | AppState::AuthPrompting { .. } => true,
            _ => false,
        } {
            self.delete_char();
        }
    }

    /// The input cursor one character left.
    fn act_left(&mut self)
        requires
            old(self).wf(),
        ensures
            final(self)@ == moved_left(old(self)@),
            final(self).wf(),
    {
        proof {
            reveal(moved_left);
        }
        if match self.state {
            AppState::Idle | AppState::AuthPrompting { .. } => true,
            _ => false,
        } {
            self.move_cursor_left();
        }
    }

    /// The input cursor one character right.
    fn act_right(&mut self)
        requires
            old(self).wf(),
        ensures
            final(self)@ == moved_right(old(self)@),
            final(self).wf(),
    {
        proof {
            reveal(moved_right);
        }
        if match self.state {
            AppState::Idle | AppState::AuthPrompting { .. } => true,
            _ => false,
        } {
            self.move_cursor_right();
        }
    }

    /// A key forwarded to the key handler, with its side effect as a command.
    fn forward_key(&mut self, key: KeyEvent) -> (cmd: Command)
        requires
            old(self).wf(),
            key_in_range(old(self)@),
        ensures
            (final(self)@, cmd@) == key_forwarded(old(self)@, key),
            final(self).wf(),
    {
        proof {
            reveal(key_forwarded);
        }
        let out = self.handle_key(key);
        match out.copy_text {
            Some(t) => Command::CopyToClipboard(t),
            None => match out.approval {
                Some(d) => Command::ReplyApproval(d),
                None => Command::NoOp,
            },
        }
    }

    /// A progress event of the agent runtime.
    fn act_progress(&mut self, e: ProgressEvent)
        requires
            progress_ok(e),
            old(self).wf(),
        ensures
            final(self)@ == progress_shown(old(self)@, e),
            final(self).wf(),
    {
        proof {
            reveal(progress_shown);
        }
        self.apply_progress(e);
        self.scroll_to_bottom();
    }

    /// The result of an agent run.
    fn act_completion(&mut self, r: Result<String, String>)
        requires
            old(self).wf(),
        ensures
            final(self)@ == completion_shown(old(self)@, r),
            final(self).wf(),
    {
        proof {
            reveal(completion_shown);
        }
        self.apply_completion(r);
        self.scroll_to_bottom();
    }

    /// Picks the highlighted sidebar session.
    fn act_pick_sidebar(&mut self) -> (cmd: Command)
        requires
            old(self).wf(),
        ensures
            (final(self)@, cmd@) == sidebar_picked(old(self)@),
            final(self).wf(),
    {
        proof {
            reveal(sidebar_picked);
        }
        match self.select_sidebar_session() {
            Some(id) => Command::LoadSessionFromDb(id),
            None => Command::NoOp,
        }
    }

    /// Confirms the deletion asked for.
    fn act_confirm_delete(&mut self) -> (cmd: Command)
        requires
            old(self).wf(),
        ensures
            (final(self)@, cmd@) == delete_confirmed(old(self)@),
            final(self).wf(),
    {
        proof {
            reveal(delete_confirmed);
        }
        let id = match &self.state {
            AppState::ConfirmDelete { session_id, .. } => copy_str(session_id.as_str()),
            _ => {
                return Command::NoOp;
            },
        };
        self.session.confirmed_delete = Some(copy_str(id.as_str()));
        self.state = AppState::Idle;
        Command::DeleteSession(id)
    }

    /// The text covered by the mouse selection, if any.
    fn selection_text(&self) -> (r: Option<String>)
        ensures
            opt_view(r) == selection_copy(self@),
    {
        match self.chat.text_selection.ordered_range() {
            Some((start, end)) => extract_selected_text(
                &self.chat.chat_text_grid,
                start,
                end,
                self.chat.chat_scroll_clamped,
            ),
            None => None,
        }
    }

    /// Ends the mouse selection.
    fn act_end_selection(&mut self, row: u16, col: u16) -> (cmd: Command)
        requires
            old(self).wf(),
        ensures
            (final(self)@, cmd@) == selection_ended(old(self)@, row, col),
            final(self).wf(),
    {
        proof {
            reveal(selection_ended);
        }
        if self.chat.text_selection.dragging {
            self.chat.text_selection.endpoint = Some((row, col));
            self.chat.text_selection.dragging = false;
            if self.chat.text_selection.is_active() {
                match self.selection_text() {
                    Some(t) => {
                        return Command::CopyToClipboard(t);
                    },
                    None => {},
                }
            }
        }
        Command::NoOp
    }

    /// Copies the mouse selection and drops it.
    fn act_copy_selection(&mut self) -> (cmd: Command)
        requires
            old(self).wf(),
        ensures
            (final(self)@, cmd@) == selection_copied(old(self)@),
            final(self).wf(),
    {
        proof {
            reveal(selection_copied);
        }
        let text = self.selection_text();
        self.chat.text_selection.clear();
        match text {
            Some(t) => Command::CopyToClipboard(t),
            None => Command::NoOp,
        }
    }

    /// Starts a new, empty session.
    fn act_new_session(&mut self, sid: String)
        requires
            old(self).wf(),
        ensures
            final(self)@ == session_started(old(self)@, sid@),
            final(self).wf(),
    {
        proof {
            reveal(session_started);
        }
        let msg = concat3("New session created: `", sid.as_str(), "`");
        self.load_session_messages(sid, Vec::new());
        self.push_assistant(msg);
    }

    /// Runs a local slash command.
    fn act_slash(&mut self, raw: String)
        requires
            old(self).wf(),
        ensures
            final(self)@ == slash_run(old(self)@, raw@),
            final(self).wf(),
    {
        proof {
            reveal(slash_run);
        }
        self.handle_slash_command(raw.as_str());
        self.scroll_to_bottom();
    }

    /// The pairing prerequisites were checked.
    fn act_prereqs(&mut self, node_ok: bool, installed: bool) -> (cmd: Command)
        requires
            old(self).wf(),
        ensures
            (final(self)@, cmd@) == prereqs_checked(old(self)@, node_ok, installed),
            final(self).wf(),
    {
        proof {
            reveal(prereqs_checked);
        }
        if !node_ok {
            self.state = AppState::Idle;
            self.push_error(
                copy_str(
                    "Node.js is required for WhatsApp bridge. Install from https://nodejs.org/",
                ),
            );
            Command::NoOp
        } else if !installed {
            self.state = AppState::WhatsAppSetup { step: WhatsAppSetupStep::InstallingBridge };
            Command::InstallWhatsAppBridge
        } else {
            self.state = AppState::WhatsAppSetup { step: WhatsAppSetupStep::WaitingForQr };
            Command::SpawnWhatsAppBridge
        }
    }

    /// The bridge's installation ended.
    fn act_bridge(&mut self, r: Result<(), String>) -> (cmd: Command)
        requires
            old(self).wf(),
        ensures
            (final(self)@, cmd@) == bridge_installed(old(self)@, r),
            final(self).wf(),
    {
        proof {
            reveal(bridge_installed);
        }
        match r {
            Ok(()) => {
                self.state = AppState::WhatsAppSetup { step: WhatsAppSetupStep::WaitingForQr };
                Command::SpawnWhatsAppBridge
            },
            Err(msg) => {
                self.state = AppState::Idle;
                self.push_error(concat2("Failed to install WhatsApp bridge: ", msg.as_str()));
                Command::NoOp
            },
        }
    }

    /// The bridge sent the pairing QR code's text.
    fn act_qr(&mut self, data: String)
        requires
            old(self).wf(),
        ensures
            final(self)@ == qr_received(old(self)@, data@),
            final(self).wf(),
    {
        proof {
            reveal(qr_received);
        }
        let pairing = match self.state {
            AppState::WhatsAppSetup { .. } => true,
            _ => false,
        };
        if pairing {
            match generate_qr_lines(data.as_str()) {
                Ok(lines) => {
                    self.state = AppState::WhatsAppSetup {
                        step: WhatsAppSetupStep::DisplayQr { qr_data: data, qr_lines: lines },
                    };
                },
                Err(e) => {
                    self.push_error(concat2("Failed to render QR code: ", e.as_str()));
                },
            }
        }
    }

    /// The bridge connected.
    fn act_connected(&mut self, phone: String, name: String)
        requires
            old(self).wf(),
        ensures
            final(self)@ == pairing_connected(old(self)@, phone@, name@),
            final(self).wf(),
    {
        proof {
            reveal(pairing_connected);
        }
        let head = concat3("WhatsApp connected! Phone: ", phone.as_str(), ", Name: ");
        let msg = concat2(head.as_str(), name.as_str());
        let pairing = match self.state {
            AppState::WhatsAppSetup { .. } => true,
            _ => false,
        };
        if pairing {
            self.state = AppState::WhatsAppSetup {
                step: WhatsAppSetupStep::Connected { phone, name },
            };
        }
        self.push_assistant(msg);
    }

    /// A key in the web setup wizard.
    fn act_wizard(&mut self, k: KeyEvent)
        requires
            old(self).wf(),
        ensures
            final(self)@ == wizard_keyed(old(self)@, k),
            final(self).wf(),
    {
        proof {
            reveal(wizard_keyed);
        }
        self.handle_web_config_key(k);
    }

    /// The palette highlight one row down.
    fn act_palette_down(&mut self)
        requires
            old(self).wf(),
            old(self).command_palette_cursor < usize::MAX,
        ensures
            final(self)@ == palette_lowered(old(self)@),
            final(self).wf(),
    {
        proof {
            reveal(palette_lowered);
        }
        let max = self.palette_filtered_commands().len().saturating_sub(1);
        let next = self.command_palette_cursor + 1;
        self.command_palette_cursor = if next < max {
            next
        } else {
            max
        };
    }

    /// Chooses the highlighted palette command.
    fn act_palette_select(&mut self)
        requires
            old(self).wf(),
        ensures
            final(self)@ == palette_chosen(old(self)@),
            final(self).wf(),
    {
        proof {
            reveal(palette_chosen);
        }
        self.take_palette_command();
    }

    /// Completes the highlighted palette command.
    fn act_palette_complete(&mut self)
        requires
            old(self).wf(),
        ensures
            final(self)@ == palette_completed(old(self)@),
            final(self).wf(),
    {
        proof {
            reveal(palette_completed);
        }
        self.palette_tab_complete();
    }

    /// Asks whether to delete the highlighted sidebar session.
    fn act_ask_delete(&mut self)
        requires
            old(self).wf(),
        ensures
            final(self)@ == deletion_asked(old(self)@),
            final(self).wf(),
    {
        proof {
            reveal(deletion_asked);
        }
        self.request_delete_session();
    }

    /// Opens the login picker.
    fn act_login(&mut self, seed: Option<String>)
        requires
            old(self).wf(),
        ensures
            final(self)@ == login_shown(old(self)@, opt_view(seed)),
            final(self).wf(),
    {
        proof {
            reveal(login_shown);
        }
        self.open_login_browser(seed);
    }

    /// Shows a stored session.
    fn act_load(&mut self, id: String, messages: Vec<AgentMessage>)
        requires
            old(self).wf(),
        ensures
            final(self)@ == session_shown(old(self)@, id@, messages@),
            final(self).wf(),
    {
        proof {
            reveal(session_shown);
        }
        self.load_session_messages(id, messages);
    }

    /// Removes a session from the sidebar.
    fn act_remove(&mut self, id: String)
        requires
            old(self).wf(),
        ensures
            final(self)@ == session_dropped(old(self)@, id@),
            final(self).wf(),
    {
        proof {
            reveal(session_dropped);
        }
        self.remove_session_from_list(id.as_str());
    }
}

impl TuiApp {
    /// Applies an action (see [`update_model`]) and returns the side effect
    /// it asks for.
    #[verifier::rlimit(50)]
    #[verifier::spinoff_prover]
    pub fn update(&mut self, action: Action) -> (cmd: Command)
        requires
            old(self).wf(),
            update_ok(old(self)@, action),
        ensures
            (final(self)@, cmd@) == update_model(old(self)@, action),
            final(self).wf(),
    {
        proof {
            reveal(update_model);
        }
        match action {
            Action::InsertChar(c) => {
                self.act_type(c);
                Command::NoOp
            },
            Action::DeleteChar => {
                self.act_backspace();
                Command::NoOp
            },
            Action::MoveCursorLeft => {
                self.act_left();
                Command::NoOp
            },
            Action::MoveCursorRight => {
                self.act_right();
                Command::NoOp
            },
            Action::SubmitInput => {
                self.screen = Screen::Chat;
                Command::NoOp
            },
            Action::ScrollUp(n) => {
                self.chat.history_scroll = self.chat.history_scroll.saturating_sub(n);
                Command::NoOp
            },
            Action::ScrollDown(n) => {
                self.chat.history_scroll = self.chat.history_scroll.saturating_add(n);
                Command::NoOp
            },
            Action::ScrollToBottom => {
                self.scroll_to_bottom();
                Command::NoOp
            },
            Action::SwitchScreen(screen) => {
                self.screen = screen;
                Command::NoOp
            },
            Action::ToggleSidebarFocus => {
                self.toggle_sidebar_focus();
                Command::NoOp
            },
            Action::PushUserMessage(t) => {
                self.push_user(t);
                Command::NoOp
            },
            Action::PushAssistantMessage(t) => {
                self.push_assistant(t);
                Command::NoOp
            },
            Action::PushError(e) => {
                self.push_error(e);
                Command::NoOp
            },
            Action::ApplyProgress(e) => {
                self.act_progress(e);
                Command::NoOp
            },
            Action::ApplyCompletion(r) => {
                self.act_completion(r);
                Command::NoOp
            },
            Action::SidebarHover(h) => {
                self.sidebar.hover = h;
                Command::NoOp
            },
            Action::SidebarScroll(d) => {
                if d > 0 {
                    self.sidebar.scroll = self.sidebar.scroll.saturating_add(d as u16);
                } else {
                    self.sidebar.scroll = self.sidebar.scroll.saturating_sub((-d) as u16);
                }
                Command::NoOp
            },
            Action::SelectSidebarSession => self.act_pick_sidebar(),
            Action::RequestDeleteSession => {
                self.act_ask_delete();
                Command::NoOp
            },
            Action::ConfirmDelete => self.act_confirm_delete(),
            Action::CancelDelete => {
                self.state = AppState::Idle;
                Command::NoOp
            },
            Action::OpenLoginBrowser(seed) => {
                self.act_login(seed);
                Command::NoOp
            },
            Action::CancelAuth => {
                self.cancel_auth_prompt();
                Command::NoOp
            },
            Action::LoginBrowserKey(k) => self.forward_key(k),
            Action::SetOAuthCodeDisplayState { provider } => {
                self.state = AppState::LoginBrowsing(
                    LoginBrowsingState {
                        query: copy_str(provider.as_str()),
                        cursor: 0,
                        scroll: 0,
                        step: LoginBrowseStep::InputApiKey,
                        selected_provider: Some(provider),
                        selected_method: Some(AuthMethodChoice::OAuth),
                        input_buffer: String::new(),
                        masked_buffer: String::new(),
                        last_error: None,
                        endpoint: None,
                    },
                );
                Command::NoOp
            },
            Action::SetAuthValidating(provider) => {
                self.state = AppState::AuthValidating { provider };
                Command::NoOp
            },
            Action::OpenModelBrowser { provider, entries, query, sync_status } => {
                self.open_model_browser(provider, entries, query, sync_status);
                Command::NoOp
            },
            Action::CloseModelBrowser => {
                self.state = AppState::Idle;
                Command::NoOp
            },
            Action::ModelBrowserKey(k) => self.forward_key(k),
            Action::MarkModelRefreshing => {
                self.mark_model_refreshing();
                Command::NoOp
            },
            Action::UpdateModelCatalog { provider, entries, sync_status } => {
                self.update_model_browser_catalog(provider, entries, sync_status);
                Command::NoOp
            },
            Action::OpenSessionBrowser => {
                self.open_session_browser();
                Command::NoOp
            },
            Action::CloseSessionBrowser => {
                self.state = AppState::Idle;
                Command::NoOp
            },
            Action::SessionBrowserKey(k) => self.forward_key(k),
            Action::WebConfigKey(k) => {
                self.act_wizard(k);
                Command::NoOp
            },
            Action::PaletteMoveUp => {
                self.command_palette_cursor = self.command_palette_cursor.saturating_sub(1);
                Command::NoOp
            },
            Action::PaletteMoveDown => {
                self.act_palette_down();
                Command::NoOp
            },
            Action::PaletteSelect => {
                self.act_palette_select();
                Command::NoOp
            },
            Action::PaletteClose => {
                self.chat.input = String::new();
                self.chat.cursor_pos = 0;
                self.command_palette_cursor = 0;
                proof {
                    lemma_boundary_ends(self.chat.input@);
                }
                Command::NoOp
            },
            Action::PaletteTabComplete => {
                self.act_palette_complete();
                Command::NoOp
            },
            Action::TextSelectionStart { row, col } => {
                self.chat.text_selection.anchor = Some((row, col));
                self.chat.text_selection.endpoint = Some((row, col));
                self.chat.text_selection.dragging = true;
                Command::NoOp
            },
            Action::TextSelectionDrag { row, col } => {
                if self.chat.text_selection.dragging {
                    self.chat.text_selection.endpoint = Some((row, col));
                }
                Command::NoOp
            },
            Action::TextSelectionEnd { row, col } => self.act_end_selection(row, col),
            Action::TextSelectionCopy => self.act_copy_selection(),
            Action::TextSelectionClear => {
                self.chat.text_selection.clear();
                Command::NoOp
            },
            Action::Tick => {
                self.spinner_tick = if self.spinner_tick == 255 {
                    0
                } else {
                    self.spinner_tick + 1
                };
                Command::NoOp
            },
            Action::Quit => {
                self.should_quit = true;
                Command::NoOp
            },
            Action::Resize => Command::NoOp,
            Action::SetThinking => {
                self.state = AppState::Thinking { round: 0 };
                Command::NoOp
            },
            Action::SetIdle => {
                self.state = AppState::Idle;
                Command::NoOp
            },
            Action::LoadSession { session_id, messages } => {
                self.act_load(session_id, messages);
                Command::NoOp
            },
            Action::RefreshSessionList(v) => {
                self.refresh_session_list(v);
                Command::NoOp
            },
            Action::NewSession(sid) => {
                self.act_new_session(sid);
                Command::NoOp
            },
            Action::RemoveSession(sid) => {
                self.act_remove(sid);
                Command::NoOp
            },
            Action::SetModel(name) => {
                self.model.model_name = name;
                Command::NoOp
            },
            Action::SetProviderName(name) => {
                self.model.provider_name = name;
                Command::NoOp
            },
            Action::SlashCommand(raw) => {
                self.act_slash(raw);
                Command::NoOp
            },
            Action::OpenWhatsAppSetup => {
                self.chat.input = String::new();
                self.chat.cursor_pos = 0;
                self.state = AppState::WhatsAppSetup { step: WhatsAppSetupStep::CheckingPrereqs };
                self.screen = Screen::Chat;
                proof {
                    lemma_boundary_ends(self.chat.input@);
                }
                Command::CheckWhatsAppPrereqs
            },
            Action::WhatsAppSetupCancel => {
                self.state = AppState::Idle;
                self.push_assistant(copy_str("WhatsApp pairing cancelled."));
                Command::NoOp
            },
            Action::WhatsAppPrereqsChecked { node_ok, bridge_installed } => self.act_prereqs(
                node_ok,
                bridge_installed,
            ),
            Action::WhatsAppBridgeInstalled(r) => self.act_bridge(r),
            Action::WhatsAppQrReceived(data) => {
                self.act_qr(data);
                Command::NoOp
            },
            Action::WhatsAppConnected { phone, name } => {
                self.act_connected(phone, name);
                Command::NoOp
            },
            Action::WhatsAppSetupKey(k) => self.forward_key(k),
            Action::OpenQrCode { url, qr_lines } => {
                self.state = AppState::QrCodeDisplay { url, qr_lines };
                Command::NoOp
            },
            Action::CloseQrCode => {
                self.state = AppState::Idle;
                Command::NoOp
            },
        }
    }
}

} // verus!
