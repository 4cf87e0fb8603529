//! Operations on the client state: messages, the input box, the command
//! palette, local slash commands, login prompts, and the processing state.

use vstd::prelude::*;
use crate::providers::{AuthLoginIntent, LoginBrowseStep, parse_provider_seed, provider_seed, opt_view};
use crate::state::{
    AppModel, AppState, AppStateView, AuthSubmission, ChatModel, ChatState, LoginBrowsingState,
    LoginView, MessageView, ModelInfo, ModelState, Screen, SessionModel, SessionState,
    SessionView, SidebarState, TextSelection, TuiApp, TuiMessage, WebConfig, WebConfigStep,
    WebConfiguringState, WebView, message_views,
};
use crate::text::{
    ascii_lower_seq, ascii_lowercase, byte_len, chars_of, copy_str, concat2, concat3, has_prefix,
    is_blank, is_boundary, join, join_from, split_words, starts_with, string_views, trim, trim_str,
    u64_to_string, decimal, utf8_len, words, lemma_utf8_len_take_le,
};

verus! {

/// Version shown in the status bar.
pub const VERSION: &'static str = "0.1.0";

// ─── Small state updates ────────────────────────────────────────────────────

/// `m` with processing state `s`.
pub open spec fn with_state(m: AppModel, s: AppStateView) -> AppModel {
    AppModel { state: s, ..m }
}

/// `m` with `msg` appended to the history.
pub open spec fn push_message(m: AppModel, msg: MessageView) -> AppModel {
    AppModel { chat: ChatModel { messages: m.chat.messages.push(msg), ..m.chat }, ..m }
}

/// `m` with an empty input box.
pub open spec fn clear_input(m: AppModel) -> AppModel {
    AppModel { chat: ChatModel { input: Seq::empty(), cursor_pos: 0, ..m.chat }, ..m }
}

/// `m` scrolled to the newest message.
pub open spec fn scrolled_to_bottom(m: AppModel) -> AppModel {
    AppModel { chat: ChatModel { history_scroll: 0xFFFF, ..m.chat }, ..m }
}

/// The start and the end of a text are character boundaries.
pub proof fn lemma_boundary_ends(s: Seq<char>)
    ensures
        is_boundary(s, 0),
        is_boundary(s, utf8_len(s) as int),
{
    assert(s.take(0) =~= Seq::<char>::empty());
    assert(utf8_len(s.take(0)) == 0);
    assert(s.take(s.len() as int) =~= s);
}

// ─── Slash commands of the palette ──────────────────────────────────────────

/// A command offered by the command palette.
#[derive(Debug, Clone, PartialEq, Eq)]
pub struct SlashCommand {
    pub name: String,
    pub description: String,
}

/// Names of the palette commands, in display order.
pub open spec fn slash_command_names() -> Seq<Seq<char>> {
    seq![
        "/model"@,
        "/model list"@,
        "/login"@,
        "/connection"@,
        "/clear"@,
        "/help"@,
        "/quit"@,
        "/exit"@,
        "/session"@,
        "/session new"@,
        "/session load <id>"@,
        "/session delete <id>"@,
        "/web"@,
        "/web setup"@,
        "/whatsapp"@,
        "/whatsapp status"@,
        "/telegram"@,
        "/telegram status"@,
        "/telegram start"@,
        "/qr"@,
    ]
}

/// Descriptions of the palette commands, in the order of their names.
pub open spec fn slash_command_descriptions() -> Seq<Seq<char>> {
    seq![
        "Browse & select model"@,
        "Print available models to chat"@,
        "Change API credentials"@,
        "Change credentials (alias)"@,
        "Clear conversation history"@,
        "Show available commands"@,
        "Exit TUI"@,
        "Exit TUI"@,
        "Browse sessions"@,
        "Start a new session"@,
        "Load a session by ID"@,
        "Delete a session by ID"@,
        "Show web adapter status"@,
        "Configure web adapter (wizard)"@,
        "Configure WhatsApp channel"@,
        "Show WhatsApp config status"@,
        "Telegram bot setup guide"@,
        "Show Telegram config status"@,
        "Start Telegram adapter info"@,
        "Show QR code for Web UI URL"@,
    ]
}

/// The command is one of the palette's, with its own description.
pub open spec fn is_palette_command(c: SlashCommand) -> bool {
    exists|j: int|
        0 <= j < slash_command_names().len() && #[trigger] slash_command_names()[j] == c.name@
            && slash_command_descriptions()[j] == c.description@
}

/// Descriptions of a list of palette commands.
pub open spec fn command_descriptions(v: Seq<SlashCommand>) -> Seq<Seq<char>> {
    Seq::new(v.len(), |i: int| v[i].description@)
}

/// Names of a list of palette commands.
pub open spec fn command_names(v: Seq<SlashCommand>) -> Seq<Seq<char>> {
    Seq::new(v.len(), |i: int| v[i].name@)
}

fn cmd(name: &str, description: &str) -> (c: SlashCommand)
    ensures
        c.name@ == name@,
        c.description@ == description@,
{
    SlashCommand { name: copy_str(name), description: copy_str(description) }
}

/// All palette commands with their descriptions, in display order.
pub fn slash_commands() -> (v: Vec<SlashCommand>)
    ensures
        command_names(v@) == slash_command_names(),
        command_descriptions(v@) == slash_command_descriptions(),
{
    let mut v: Vec<SlashCommand> = Vec::new();
    v.push(cmd("/model", "Browse & select model"));
    v.push(cmd("/model list", "Print available models to chat"));
    v.push(cmd("/login", "Change API credentials"));
    v.push(cmd("/connection", "Change credentials (alias)"));
    v.push(cmd("/clear", "Clear conversation history"));
    v.push(cmd("/help", "Show available commands"));
    v.push(cmd("/quit", "Exit TUI"));
    v.push(cmd("/exit", "Exit TUI"));
    v.push(cmd("/session", "Browse sessions"));
    v.push(cmd("/session new", "Start a new session"));
    v.push(cmd("/session load <id>", "Load a session by ID"));
    v.push(cmd("/session delete <id>", "Delete a session by ID"));
    v.push(cmd("/web", "Show web adapter status"));
    v.push(cmd("/web setup", "Configure web adapter (wizard)"));
    v.push(cmd("/whatsapp", "Configure WhatsApp channel"));
    v.push(cmd("/whatsapp status", "Show WhatsApp config status"));
    v.push(cmd("/telegram", "Telegram bot setup guide"));
    v.push(cmd("/telegram status", "Show Telegram config status"));
    v.push(cmd("/telegram start", "Start Telegram adapter info"));
    v.push(cmd("/qr", "Show QR code for Web UI URL"));
    assert(command_names(v@) =~= slash_command_names());
    assert(command_descriptions(v@) =~= slash_command_descriptions());
    v
}

/// Names of `s` that start with `q`, in order.
pub open spec fn filter_names(s: Seq<Seq<char>>, q: Seq<char>) -> Seq<Seq<char>>
    decreases s.len(),
{
    if s.len() == 0 {
        Seq::empty()
    } else if has_prefix(s.last(), q) {
        filter_names(s.drop_last(), q).push(s.last())
    } else {
        filter_names(s.drop_last(), q)
    }
}

/// Palette commands offered for the input text: those whose name starts with
/// the ASCII-lowercased input.
pub open spec fn palette_names(input: Seq<char>) -> Seq<Seq<char>> {
    filter_names(slash_command_names(), ascii_lower_seq(input))
}

/// The palette is shown: nothing runs and the input starts with `/`.
pub open spec fn palette_active(m: AppModel) -> bool {
    m.state is Idle && has_prefix(m.chat.input, "/"@)
}

/// `m` with the palette's highlighted command copied into the input box.
pub open spec fn tab_completed(m: AppModel) -> AppModel {
    let names = palette_names(m.chat.input);
    if m.command_palette_cursor < names.len() {
        let name = names[m.command_palette_cursor as int];
        AppModel {
            chat: ChatModel { input: name, cursor_pos: utf8_len(name) as usize, ..m.chat },
            command_palette_cursor: 0,
            ..m
        }
    } else {
        m
    }
}

/// `m` with the palette closed by clearing the input.
pub open spec fn palette_closed(m: AppModel) -> AppModel {
    AppModel { command_palette_cursor: 0, ..clear_input(m) }
}

/// `m` with the palette highlight one row up.
pub open spec fn palette_up(m: AppModel) -> AppModel {
    AppModel {
        command_palette_cursor: if m.command_palette_cursor > 0 {
            (m.command_palette_cursor - 1) as usize
        } else {
            0
        },
        ..m
    }
}

/// `m` with the palette highlight one row down, stopping at the last row.
pub open spec fn palette_down(m: AppModel) -> AppModel {
    let n = palette_names(m.chat.input).len();
    let max = if n > 0 { n - 1 } else { 0 };
    let next = m.command_palette_cursor + 1;
    AppModel { command_palette_cursor: (if next < max { next } else { max }) as usize, ..m }
}

/// `m` with the palette's highlighted command resolved into the input box,
/// the palette closed and the conversation shown (nothing when the palette
/// is not shown or has no highlighted command).
pub open spec fn palette_selected(m: AppModel) -> AppModel {
    let names = palette_names(m.chat.input);
    if palette_active(m) && m.command_palette_cursor < names.len() {
        let name = names[m.command_palette_cursor as int];
        AppModel {
            chat: ChatModel { input: name, cursor_pos: utf8_len(name) as usize, ..m.chat },
            command_palette_cursor: 0,
            screen: Screen::Chat,
            ..m
        }
    } else {
        m
    }
}

// ─── Local slash commands ───────────────────────────────────────────────────

/// Text of `/help`.
pub open spec fn help_text() -> Seq<char> {
    "TUI commands:\n/help - show this help\n/login - open credential picker\n/connection - open credential picker\n/model - browse model catalog (search with s, refresh with r)\n/model list - print available models to chat\n/session - list sessions\n/session new - start a new session\n/session load <id> - load a session\n/session delete <id> - delete a session\n/web - show web adapter status\n/web setup - configure web adapter\n/whatsapp - configure WhatsApp channel\n/whatsapp status - show WhatsApp config status\n/telegram - Telegram bot setup guide\n/telegram status - show Telegram config status\n/telegram start - start Telegram adapter info\n/qr - show QR code for Web UI URL\n/clear - clear history\n/quit or /exit - leave TUI"@
}

/// `m` with the login picker opened at the provider step, searching `seed`.
pub open spec fn login_opened(m: AppModel, seed: Option<Seq<char>>) -> AppModel {
    with_state(
        clear_input(m),
        AppStateView::LoginBrowsing(
            LoginView {
                query: provider_seed(seed),
                cursor: 0,
                scroll: 0,
                step: LoginBrowseStep::SelectProvider,
                selected_provider: None,
                selected_method: None,
                input_buffer: Seq::empty(),
                masked_buffer: Seq::empty(),
                last_error: None,
                endpoint: None,
            },
        ),
    )
}

/// Effect of a local slash command on the state, and whether `raw` was a
/// slash command at all (its trimmed text starts with `/`).
pub open spec fn slash_outcome(m: AppModel, raw: Seq<char>) -> (AppModel, bool) {
    let t = trim(raw);
    if !has_prefix(t, "/"@) {
        (m, false)
    } else {
        let ws = words(t);
        let command = ws[0];
        let seed = join(ws.skip(1), " "@);
        let m2 = if command == "/quit"@ || command == "/exit"@ {
            AppModel { should_quit: true, ..m }
        } else if command == "/clear"@ {
            AppModel {
                chat: ChatModel { messages: Seq::empty(), history_scroll: 0, ..m.chat },
                ..m
            }
        } else if command == "/help"@ {
            push_message(m, MessageView::Assistant(help_text()))
        } else if command == "/login"@ || command == "/connection"@ {
            login_opened(m, if trim(seed).len() == 0 { None } else { Some(seed) })
        } else if command == "/model"@ {
            push_message(
                m,
                MessageView::Assistant(
                    "Loading model catalog... (inside browser: s or / to search, r to refresh)"@,
                ),
            )
        } else if command == "/whatsapp"@ || command == "/telegram"@ || command == "/qr"@ {
            m
        } else {
            push_message(
                m,
                MessageView::Error(
                    "Unknown command: "@ + command + ". Try /help for available commands."@,
                ),
            )
        };
        (m2, true)
    }
}

/// A text starting with `/` after trimming has at least one word, the first
/// of which starts the trimmed text.
proof fn lemma_first_word_of_slash(t: Seq<char>)
    requires
        has_prefix(t, "/"@),
    ensures
        words(t).len() > 0,
{
    reveal_strlit("/");
    assert("/"@.len() == 1);
    assert("/"@[0] == '/');
    assert(t.take(1)[0] == t[0]);
    assert(t[0] == '/');
    crate::text::lemma_skip_ws_from_bounds(t, 0);
    crate::text::lemma_word_end_from_bounds(t, 0);
    assert(!crate::text::is_ws(t[0]));
    assert(crate::text::skip_ws_from(t, 0) == 0);
    assert(crate::text::word_end_from(t, 0) > 0) by {
        assert(crate::text::word_end_from(t, 0) == crate::text::word_end_from(t, 1));
        crate::text::lemma_word_end_from_bounds(t, 1);
    }
}

// ─── Tool progress ──────────────────────────────────────────────────────────

/// Progress reported by the agent runtime while it works on a message.
#[derive(Debug, Clone, PartialEq, Eq)]
pub enum ProgressEvent {
    /// The model is asked, in the given round.
    LlmThinking { round: usize },
    /// A tool call starts; `args` is the JSON text of its arguments.
    ToolCallStarted { call_id: String, tool_name: String, args: String },
    /// A tool call ended.
    ToolCallFinished { call_id: String, tool_name: String, output: String, is_error: bool },
}

/// The event can be applied without slicing text inside a character: a
/// preview cut falls on a character boundary.
pub open spec fn progress_ok(e: ProgressEvent) -> bool {
    match e {
        ProgressEvent::ToolCallStarted { args, .. } => utf8_len(args@) > 80 ==> is_boundary(
            args@,
            80,
        ),
        ProgressEvent::ToolCallFinished { output, .. } => utf8_len(output@) > 120
            ==> is_boundary(output@, 120),
        _ => true,
    }
}

/// Index of the newest unfinished call of `tool` among `msgs[..n]`, if any.
pub open spec fn last_open_call(msgs: Seq<MessageView>, tool: Seq<char>, n: int) -> Option<int>
    decreases n,
{
    if n <= 0 || n > msgs.len() {
        None
    } else if (msgs[n - 1] matches MessageView::ToolCall { tool_name, done, .. } && tool_name
        == tool && !done) {
        Some(n - 1)
    } else {
        last_open_call(msgs, tool, n - 1)
    }
}

/// `msgs` with the newest unfinished call of `tool` marked done.
pub open spec fn mark_call_done(msgs: Seq<MessageView>, tool: Seq<char>) -> Seq<MessageView> {
    match last_open_call(msgs, tool, msgs.len() as int) {
        Some(i) => match msgs[i] {
            MessageView::ToolCall { tool_name, args_preview, .. } => msgs.update(
                i,
                MessageView::ToolCall { tool_name, args_preview, done: true },
            ),
            _ => msgs,
        },
        None => msgs,
    }
}

/// Effect of a progress event.
pub open spec fn progress_applied(m: AppModel, e: ProgressEvent) -> AppModel {
    match e {
        ProgressEvent::LlmThinking { round } => with_state(
            m,
            AppStateView::Thinking { round },
        ),
        ProgressEvent::ToolCallStarted { tool_name, args, .. } => push_message(
            with_state(m, AppStateView::ExecutingTool { tool_name: tool_name@ }),
            MessageView::ToolCall {
                tool_name: tool_name@,
                args_preview: crate::text::byte_preview(args@, 80),
                done: false,
            },
        ),
        ProgressEvent::ToolCallFinished { tool_name, output, is_error, .. } => {
            let marked = AppModel {
                chat: ChatModel {
                    messages: mark_call_done(m.chat.messages, tool_name@),
                    ..m.chat
                },
                ..m
            };
            push_message(
                marked,
                MessageView::ToolResult {
                    tool_name: tool_name@,
                    output_preview: crate::text::byte_preview(output@, 120),
                    is_error,
                },
            )
        },
    }
}

// ─── Operations ─────────────────────────────────────────────────────────────

/// The state of a client just started.
pub open spec fn initial_model(
    model_name: Seq<char>,
    session_id: Seq<char>,
    channel_id: Seq<char>,
    provider_name: Seq<char>,
) -> AppModel {
    AppModel {
        chat: ChatModel {
            messages: Seq::empty(),
            input: Seq::empty(),
            cursor_pos: 0,
            history_scroll: 0,
            text_selection: TextSelection { anchor: None, endpoint: None, dragging: false },
            chat_area: None,
            chat_text_grid: Seq::empty(),
            chat_scroll_clamped: 0,
            pending_approval: None,
        },
        session: SessionModel {
            session_id,
            channel_id,
            session_list: Seq::empty(),
            pending_sidebar_selection: None,
            confirmed_delete: None,
            session_browser_new_requested: false,
        },
        model: ModelInfo {
            model_name,
            model_entries: Seq::empty(),
            model_provider: "openai"@,
            model_refresh_requested: false,
            pending_model_change: None,
            provider_name,
            pending_auth_intent: None,
        },
        sidebar: SidebarState { hover: None, scroll: 0, visible: true, focused: false },
        state: AppStateView::Idle,
        screen: Screen::Home,
        spinner_tick: 0,
        should_quit: false,
        command_palette_cursor: 0,
        workspace_name: "~/openpista"@,
        branch_name: "main"@,
        mcp_count: 0,
        version: VERSION@,
        pending_web_config: None,
    }
}

impl TuiApp {
    /// A client just started, for the given model, session, channel and provider.
    pub fn new(model_name: &str, session_id: String, channel_id: String, provider_name: &str) -> (app:
        TuiApp)
        ensures
            app@ == initial_model(model_name@, session_id@, channel_id@, provider_name@),
            app.wf(),
    {
        let app = TuiApp {
            chat: ChatState {
                messages: Vec::new(),
                input: String::new(),
                cursor_pos: 0,
                history_scroll: 0,
                text_selection: TextSelection::new(),
                chat_area: None,
                chat_text_grid: Vec::new(),
                chat_scroll_clamped: 0,
                pending_approval: None,
            },
            session: SessionState {
                session_id,
                channel_id,
                session_list: Vec::new(),
                pending_sidebar_selection: None,
                confirmed_delete: None,
                session_browser_new_requested: false,
            },
            model: ModelState {
                model_name: copy_str(model_name),
                model_entries: Vec::new(),
                model_provider: copy_str("openai"),
                model_refresh_requested: false,
                pending_model_change: None,
                provider_name: copy_str(provider_name),
                pending_auth_intent: None,
            },
            sidebar: SidebarState { hover: None, scroll: 0, visible: true, focused: false },
            state: AppState::Idle,
            screen: Screen::Home,
            spinner_tick: 0,
            should_quit: false,
            command_palette_cursor: 0,
            workspace_name: copy_str("~/openpista"),
            branch_name: copy_str("main"),
            mcp_count: 0,
            version: copy_str(VERSION),
            pending_web_config: None,
        };
        proof {
            lemma_boundary_ends(app.chat.input@);
            assert(app@.chat.messages =~= Seq::<MessageView>::empty());
            assert(app@.chat.chat_text_grid =~= Seq::<Seq<char>>::empty());
            assert(app@.session.session_list =~= Seq::<SessionView>::empty());
            assert(app@.model.model_entries =~= Seq::<crate::catalog::EntryView>::empty());
        }
        app
    }

    /// Takes the model picked in the model browser, as `(model id, provider)`.
    pub fn take_pending_model_change(&mut self) -> (r: Option<(String, String)>)
        ensures
            r == old(self).model.pending_model_change,
            final(self)@ == (AppModel {
                model: ModelInfo { pending_model_change: None, ..old(self)@.model },
                ..old(self)@
            }),
    {
        self.model.pending_model_change.take()
    }

    /// Whether the command palette is shown.
    pub fn is_palette_active(&self) -> (b: bool)
        ensures
            b == palette_active(self@),
    {
        (match self.state {
            AppState::Idle => true,
            _ => false,
        }) && starts_with(self.chat.input.as_str(), "/")
    }

    /// The palette commands offered for the current input.
    pub fn palette_filtered_commands(&self) -> (r: Vec<SlashCommand>)
        ensures
            command_names(r@) == palette_names(self.chat.input@),
            forall|i: int| 0 <= i < r@.len() ==> is_palette_command(#[trigger] r@[i]),
    {
        let q = ascii_lowercase(self.chat.input.as_str());
        let all = slash_commands();
        let mut out: Vec<SlashCommand> = Vec::new();
        let mut i: usize = 0;
        while i < all.len()
            invariant
                0 <= i <= all.len(),
                command_names(all@) == slash_command_names(),
                command_descriptions(all@) == slash_command_descriptions(),
                all@.len() == slash_command_names().len(),
                q@ == ascii_lower_seq(self.chat.input@),
                command_names(out@) == filter_names(slash_command_names().take(i as int), q@),
                forall|k: int| 0 <= k < out@.len() ==> is_palette_command(#[trigger] out@[k]),
            decreases all.len() - i,
        {
            let ghost before = command_names(out@);
            assert(slash_command_names().take(i + 1).drop_last() =~= slash_command_names().take(
                i as int,
            ));
            assert(slash_command_names().take(i + 1).last() == all@[i as int].name@);
            if starts_with(all[i].name.as_str(), q.as_str()) {
                out.push(
                    SlashCommand {
                        name: copy_str(all[i].name.as_str()),
                        description: copy_str(all[i].description.as_str()),
                    },
                );
                assert(command_names(out@) =~= before.push(all@[i as int].name@));
                assert(slash_command_names()[i as int] == all@[i as int].name@);
                assert(slash_command_descriptions()[i as int] == all@[i as int].description@);
                assert(is_palette_command(out@[out@.len() - 1]));
            }
            i = i + 1;
        }
        assert(slash_command_names().take(all.len() as int) =~= slash_command_names());
        out
    }

    /// Copies the palette's highlighted command into the input box.
    pub fn palette_tab_complete(&mut self)
        requires
            old(self).wf(),
        ensures
            final(self)@ == tab_completed(old(self)@),
            final(self).wf(),
    {
        let cmds = self.palette_filtered_commands();
        if self.command_palette_cursor < cmds.len() {
            let name = copy_str(cmds[self.command_palette_cursor].name.as_str());
            let v = chars_of(name.as_str());
            let n = byte_len(&v);
            self.chat.input = name;
            self.chat.cursor_pos = n;
            self.command_palette_cursor = 0;
            proof { lemma_boundary_ends(self.chat.input@); }
        }
    }

    /// Resolves the palette's highlighted command into the input box and
    /// closes the palette, returning the command's name.
    pub fn take_palette_command(&mut self) -> (r: Option<String>)
        requires
            old(self).wf(),
        ensures
            final(self).wf(),
            final(self)@ == palette_selected(old(self)@),
            ({
                let m = old(self)@;
                let names = palette_names(m.chat.input);
                if palette_active(m) && m.command_palette_cursor < names.len() {
                    r matches Some(s) && s@ == names[m.command_palette_cursor as int]
                } else {
                    r is None
                }
            }),
    {
        if !self.is_palette_active() {
            return None;
        }
        let cmds = self.palette_filtered_commands();
        if self.command_palette_cursor >= cmds.len() {
            return None;
        }
        let name = copy_str(cmds[self.command_palette_cursor].name.as_str());
        let v = chars_of(name.as_str());
        let n = byte_len(&v);
        self.chat.input = copy_str(name.as_str());
        self.chat.cursor_pos = n;
        self.command_palette_cursor = 0;
        self.screen = Screen::Chat;
        proof { lemma_boundary_ends(self.chat.input@); }
        Some(name)
    }

    /// Appends a user message to the history.
    pub fn push_user(&mut self, text: String)
        ensures
            final(self)@ == push_message(old(self)@, MessageView::User(text@)),
    {
        self.chat.messages.push(TuiMessage::User(text));
        proof { self.lemma_messages_pushed(old(self)); }
    }

    /// Appends an assistant message to the history.
    pub fn push_assistant(&mut self, text: String)
        ensures
            final(self)@ == push_message(old(self)@, MessageView::Assistant(text@)),
    {
        self.chat.messages.push(TuiMessage::Assistant(text));
        proof { self.lemma_messages_pushed(old(self)); }
    }

    /// Appends an error message to the history.
    pub fn push_error(&mut self, err: String)
        ensures
            final(self)@ == push_message(old(self)@, MessageView::Error(err@)),
    {
        self.chat.messages.push(TuiMessage::Error(err));
        proof { self.lemma_messages_pushed(old(self)); }
    }

    proof fn lemma_messages_pushed(&self, old: &TuiApp)
        requires
            self.chat.messages@ == old.chat.messages@.push(self.chat.messages@.last()),
            self.chat.messages@.len() > 0,
        ensures
            message_views(self.chat.messages@) == message_views(old.chat.messages@).push(
                self.chat.messages@.last()@,
            ),
    {
        assert(message_views(self.chat.messages@) =~= message_views(old.chat.messages@).push(
            self.chat.messages@.last()@,
        ));
    }

    /// Takes the input text, leaving the input box empty.
    pub fn take_input(&mut self) -> (r: String)
        ensures
            r@ == old(self)@.chat.input,
            final(self)@ == clear_input(old(self)@),
            final(self).wf(),
    {
        self.chat.cursor_pos = 0;
        let mut r = String::new();
        std::mem::swap(&mut r, &mut self.chat.input);
        proof { lemma_boundary_ends(self.chat.input@); }
        r
    }

    /// Sets the history scroll to its maximum; drawing clamps it to the
    /// newest messages.
    pub fn scroll_to_bottom(&mut self)
        ensures
            final(self)@ == scrolled_to_bottom(old(self)@),
    {
        self.chat.history_scroll = 0xFFFF;
    }

    /// Opens the login picker at the provider step, searching `seed`.
    pub fn open_login_browser(&mut self, seed: Option<String>)
        ensures
            final(self)@ == login_opened(old(self)@, opt_view(seed)),
            final(self).wf(),
    {
        self.chat.input = String::new();
        self.chat.cursor_pos = 0;
        let query = match &seed {
            Some(s) => parse_provider_seed(Some(s.as_str())),
            None => parse_provider_seed(None),
        };
        self.state = AppState::LoginBrowsing(
            LoginBrowsingState {
                query,
                cursor: 0,
                scroll: 0,
                step: LoginBrowseStep::SelectProvider,
                selected_provider: None,
                selected_method: None,
                input_buffer: String::new(),
                masked_buffer: String::new(),
                last_error: None,
                endpoint: None,
            },
        );
        proof { lemma_boundary_ends(self.chat.input@); }
    }

    /// Runs a local slash command; returns whether `raw` was one (its
    /// trimmed text starts with `/`).
    pub fn handle_slash_command(&mut self, raw: &str) -> (handled: bool)
        requires
            old(self).wf(),
        ensures
            (final(self)@, handled) == slash_outcome(old(self)@, raw@),
            final(self).wf(),
    {
        let t = trim_str(raw);
        if !starts_with(t.as_str(), "/") {
            return false;
        }
        proof { lemma_first_word_of_slash(t@); }
        let ws = split_words(t.as_str());
        let command = &ws[0];
        assert(command@ == words(t@)[0]);
        let c = command.as_str();
        if crate::text::str_eq(c, "/quit") || crate::text::str_eq(c, "/exit") {
            self.should_quit = true;
        } else if crate::text::str_eq(c, "/clear") {
            self.chat.messages = Vec::new();
            self.chat.history_scroll = 0;
            assert(message_views(self.chat.messages@) =~= Seq::<MessageView>::empty());
        } else if crate::text::str_eq(c, "/help") {
            self.push_assistant(copy_str("TUI commands:\n/help - show this help\n/login - open credential picker\n/connection - open credential picker\n/model - browse model catalog (search with s, refresh with r)\n/model list - print available models to chat\n/session - list sessions\n/session new - start a new session\n/session load <id> - load a session\n/session delete <id> - delete a session\n/web - show web adapter status\n/web setup - configure web adapter\n/whatsapp - configure WhatsApp channel\n/whatsapp status - show WhatsApp config status\n/telegram - Telegram bot setup guide\n/telegram status - show Telegram config status\n/telegram start - start Telegram adapter info\n/qr - show QR code for Web UI URL\n/clear - clear history\n/quit or /exit - leave TUI"));
        } else if crate::text::str_eq(c, "/login") || crate::text::str_eq(c, "/connection") {
            let seed = join_from(&ws, 1, " ");
            if is_blank(seed.as_str()) {
                self.open_login_browser(None);
            } else {
                self.open_login_browser(Some(seed));
            }
        } else if crate::text::str_eq(c, "/model") {
            self.push_assistant(
                copy_str(
                    "Loading model catalog... (inside browser: s or / to search, r to refresh)",
                ),
            );
        } else if crate::text::str_eq(c, "/whatsapp") || crate::text::str_eq(c, "/telegram")
            || crate::text::str_eq(c, "/qr") {
        } else {
            let msg = concat3("Unknown command: ", c, ". Try /help for available commands.");
            self.push_error(msg);
        }
        true
    }

    /// Turns the typed API key into a submission and starts validating it,
    /// when an API key prompt is open and the input is not blank.
    pub fn take_auth_submission(&mut self) -> (r: Option<AuthSubmission>)
        requires
            old(self).wf(),
        ensures
            final(self).wf(),
            ({
                let m = old(self)@;
                match m.state {
                    AppStateView::AuthPrompting { provider, env_name, endpoint, .. } =>
                        if trim(m.chat.input).len() == 0 {
                        r is None && final(self)@ == m
                    } else {
                        &&& r matches Some(sub) && sub.provider@ == provider && sub.env_name@
                            == env_name && opt_view(sub.endpoint) == endpoint && sub.api_key@
                            == trim(m.chat.input)
                        &&& final(self)@ == with_state(
                            clear_input(m),
                            AppStateView::AuthValidating { provider },
                        )
                    },
                    _ => r is None && final(self)@ == m,
                }
            }),
    {
        let (provider, env_name, endpoint) = match &self.state {
            AppState::AuthPrompting { provider, env_name, endpoint, endpoint_env: _ } => (
                copy_str(provider.as_str()),
                copy_str(env_name.as_str()),
                crate::providers::copy_opt(endpoint),
            ),
            _ => return None,
        };
        if is_blank(self.chat.input.as_str()) {
            return None;
        }
        let raw = self.take_input();
        let api_key = trim_str(raw.as_str());
        let p2 = copy_str(provider.as_str());
        self.state = AppState::AuthValidating { provider: p2 };
        Some(AuthSubmission { provider, env_name, endpoint, api_key })
    }

    /// Ends API key validation with a message about the outcome.
    pub fn complete_auth_validation(
        &mut self,
        provider: String,
        env_name: String,
        result: Result<(), String>,
    )
        ensures
            final(self)@ == with_state(
                push_message(
                    old(self)@,
                    match result {
                        Ok(()) => MessageView::Assistant(
                            "Saved API key for '"@ + provider@
                                + "'. It will be used on the next launch (equivalent to setting "@
                                + env_name@ + ")."@,
                        ),
                        Err(e) => MessageView::Error(
                            "Failed to save API key for '"@ + provider@ + "': "@ + e@,
                        ),
                    },
                ),
                AppStateView::Idle,
            ),
    {
        match result {
            Ok(()) => {
                let a = concat3(
                    "Saved API key for '",
                    provider.as_str(),
                    "'. It will be used on the next launch (equivalent to setting ",
                );
                let msg = concat3(a.as_str(), env_name.as_str(), ").");
                self.push_assistant(msg);
            },
            Err(err) => {
                let a = concat3("Failed to save API key for '", provider.as_str(), "': ");
                let msg = concat2(a.as_str(), err.as_str());
                self.push_error(msg);
            },
        }
        self.state = AppState::Idle;
    }

    /// Closes the API key prompt.
    pub fn cancel_auth_prompt(&mut self)
        ensures
            final(self)@ == push_message(
                with_state(clear_input(old(self)@), AppStateView::Idle),
                MessageView::Assistant("Login cancelled."@),
            ),
            final(self).wf(),
    {
        self.chat.input = String::new();
        self.chat.cursor_pos = 0;
        self.state = AppState::Idle;
        self.push_assistant(copy_str("Login cancelled."));
        proof { lemma_boundary_ends(self.chat.input@); }
    }

    /// Starts the web adapter setup wizard with the current settings.
    pub fn start_web_config_wizard(
        &mut self,
        enabled: bool,
        token: String,
        port: u16,
        cors_origins: &str,
        static_dir: &str,
    )
        ensures
            final(self)@ == with_state(
                push_message(
                    AppModel { screen: Screen::Chat, ..clear_input(old(self)@) },
                    MessageView::Assistant(
                        "Web Adapter Setup Wizard\nStep 1/6: Enable web adapter? (y/n)"@,
                    ),
                ),
                AppStateView::WebConfiguring(
                    WebView {
                        step: WebConfigStep::Enable,
                        enabled,
                        token: token@,
                        port: decimal(port as nat),
                        cors_origins: cors_origins@,
                        static_dir: static_dir@,
                        input_buffer: Seq::empty(),
                    },
                ),
            ),
            final(self).wf(),
    {
        self.chat.input = String::new();
        self.chat.cursor_pos = 0;
        self.screen = Screen::Chat;
        self.push_assistant(
            copy_str("Web Adapter Setup Wizard\nStep 1/6: Enable web adapter? (y/n)"),
        );
        self.state = AppState::WebConfiguring(
            WebConfiguringState {
                step: WebConfigStep::Enable,
                enabled,
                token,
                port: u64_to_string(port as u64),
                cors_origins: copy_str(cors_origins),
                static_dir: copy_str(static_dir),
                input_buffer: String::new(),
            },
        );
        proof { lemma_boundary_ends(self.chat.input@); }
    }

    /// Takes the settings of a finished web setup wizard.
    pub fn take_pending_web_config(&mut self) -> (r: Option<WebConfig>)
        ensures
            r == old(self).pending_web_config,
            final(self)@ == (AppModel { pending_web_config: None, ..old(self)@ }),
    {
        self.pending_web_config.take()
    }

    /// Takes the login chosen in the picker.
    pub fn take_pending_auth_intent(&mut self) -> (r: Option<AuthLoginIntent>)
        ensures
            r == old(self).model.pending_auth_intent,
            final(self)@ == (AppModel {
                model: ModelInfo { pending_auth_intent: None, ..old(self)@.model },
                ..old(self)@
            }),
    {
        self.model.pending_auth_intent.take()
    }

    /// Reopens the OpenAI method choice with `message` as the error.
    pub fn reopen_openai_method_with_error(&mut self, message: String)
        ensures
            final(self)@ == with_state(old(self)@, method_step_with_error("openai"@, message@)),
    {
        self.reopen_method_selector_with_error("openai", message);
    }

    /// Reopens the method choice of `provider` with `message` as the error.
    pub fn reopen_method_selector_with_error(&mut self, provider: &str, message: String)
        ensures
            final(self)@ == with_state(old(self)@, method_step_with_error(provider@, message@)),
    {
        self.state = AppState::LoginBrowsing(
            LoginBrowsingState {
                query: copy_str(provider),
                cursor: 0,
                scroll: 0,
                step: LoginBrowseStep::SelectMethod,
                selected_provider: Some(copy_str(provider)),
                selected_method: None,
                input_buffer: String::new(),
                masked_buffer: String::new(),
                last_error: Some(message),
                endpoint: None,
            },
        );
    }

    /// Reopens the provider step of the login picker with `message` as the error.
    pub fn reopen_provider_selection_with_error(&mut self, message: String)
        ensures
            final(self)@ == with_state(
                old(self)@,
                AppStateView::LoginBrowsing(
                    LoginView {
                        query: Seq::empty(),
                        cursor: 0,
                        scroll: 0,
                        step: LoginBrowseStep::SelectProvider,
                        selected_provider: None,
                        selected_method: None,
                        input_buffer: Seq::empty(),
                        masked_buffer: Seq::empty(),
                        last_error: Some(message@),
                        endpoint: None,
                    },
                ),
            ),
    {
        self.state = AppState::LoginBrowsing(
            LoginBrowsingState {
                query: String::new(),
                cursor: 0,
                scroll: 0,
                step: LoginBrowseStep::SelectProvider,
                selected_provider: None,
                selected_method: None,
                input_buffer: String::new(),
                masked_buffer: String::new(),
                last_error: Some(message),
                endpoint: None,
            },
        );
    }

    /// Applies a progress event of the agent runtime.
    pub fn apply_progress(&mut self, event: ProgressEvent)
        requires
            progress_ok(event),
        ensures
            final(self)@ == progress_applied(old(self)@, event),
    {
        match event {
            ProgressEvent::LlmThinking { round } => {
                self.state = AppState::Thinking { round };
            },
            ProgressEvent::ToolCallStarted { call_id: _, tool_name, args } => {
                let preview = crate::text::preview_bytes(args, 80);
                self.state = AppState::ExecutingTool { tool_name: copy_str(tool_name.as_str()) };
                self.chat.messages.push(
                    TuiMessage::ToolCall { tool_name, args_preview: preview, done: false },
                );
                proof { self.lemma_messages_pushed(old(self)); }
            },
            ProgressEvent::ToolCallFinished { call_id: _, tool_name, output, is_error } => {
                self.mark_tool_call_done(tool_name.as_str());
                let preview = crate::text::preview_bytes(output, 120);
                let ghost mid = *self;
                self.chat.messages.push(
                    TuiMessage::ToolResult { tool_name, output_preview: preview, is_error },
                );
                proof { self.lemma_messages_pushed(&mid); }
            },
        }
    }

    /// Marks the newest unfinished call of `tool` as done.
    fn mark_tool_call_done(&mut self, tool: &str)
        ensures
            final(self)@ == (AppModel {
                chat: ChatModel {
                    messages: mark_call_done(old(self)@.chat.messages, tool@),
                    ..old(self)@.chat
                },
                ..old(self)@
            }),
    {
        let ghost msgs = message_views(self.chat.messages@);
        let mut i: usize = self.chat.messages.len();
        while i > 0
            invariant
                0 <= i <= self.chat.messages.len(),
                msgs == message_views(self.chat.messages@),
                *self == *old(self),
                last_open_call(msgs, tool@, msgs.len() as int) == last_open_call(msgs, tool@, i as int),
            decreases i,
        {
            let found = match &self.chat.messages[i - 1] {
                TuiMessage::ToolCall { tool_name, done, .. } => !*done && crate::text::str_eq(
                    tool_name.as_str(),
                    tool,
                ),
                _ => false,
            };
            assert(msgs[i - 1] == self.chat.messages@[i - 1]@);
            if found {
                let (name, args) = match &self.chat.messages[i - 1] {
                    TuiMessage::ToolCall { tool_name, args_preview, .. } => (
                        copy_str(tool_name.as_str()),
                        copy_str(args_preview.as_str()),
                    ),
                    _ => (String::new(), String::new()),
                };
                self.chat.messages.set(
                    i - 1,
                    TuiMessage::ToolCall { tool_name: name, args_preview: args, done: true },
                );
                assert(message_views(self.chat.messages@) =~= mark_call_done(msgs, tool@));
                return;
            }
            i = i - 1;
        }
        assert(mark_call_done(msgs, tool@) == msgs);
    }

    /// Ends an agent run with its answer or its error text.
    pub fn apply_completion(&mut self, result: Result<String, String>)
        ensures
            final(self)@ == with_state(
                push_message(
                    old(self)@,
                    match result {
                        Ok(t) => MessageView::Assistant(t@),
                        Err(e) => MessageView::Error(e@),
                    },
                ),
                AppStateView::Idle,
            ),
    {
        match result {
            Ok(text) => self.push_assistant(text),
            Err(e) => self.push_error(e),
        }
        self.state = AppState::Idle;
    }

    /// Number of user and assistant messages in the history.
    pub fn conversation_count(&self) -> (n: usize)
        ensures
            n == count_dialogue(self@.chat.messages),
    {
        let mut n: usize = 0;
        let mut i: usize = 0;
        let ghost msgs = message_views(self.chat.messages@);
        while i < self.chat.messages.len()
            invariant
                0 <= i <= self.chat.messages.len(),
                msgs == message_views(self.chat.messages@),
                n == count_dialogue(msgs.take(i as int)),
                n <= i,
            decreases self.chat.messages.len() - i,
        {
            assert(msgs.take(i + 1).drop_last() =~= msgs.take(i as int));
            assert(msgs.take(i + 1).last() == self.chat.messages@[i as int]@);
            match &self.chat.messages[i] {
                TuiMessage::User(_) | TuiMessage::Assistant(_) => {
                    n = n + 1;
                },
                _ => {},
            }
            i = i + 1;
        }
        assert(msgs.take(self.chat.messages.len() as int) =~= msgs);
        n
    }
}

/// The login picker at the method step for `provider`, showing `message`.
pub open spec fn method_step_with_error(provider: Seq<char>, message: Seq<char>) -> AppStateView {
    AppStateView::LoginBrowsing(
        LoginView {
            query: provider,
            cursor: 0,
            scroll: 0,
            step: LoginBrowseStep::SelectMethod,
            selected_provider: Some(provider),
            selected_method: None,
            input_buffer: Seq::empty(),
            masked_buffer: Seq::empty(),
            last_error: Some(message),
            endpoint: None,
        },
    )
}

/// Number of user and assistant messages of `msgs`.
pub open spec fn count_dialogue(msgs: Seq<MessageView>) -> nat
    decreases msgs.len(),
{
    if msgs.len() == 0 {
        0
    } else {
        count_dialogue(msgs.drop_last()) + if msgs.last() is User || msgs.last() is Assistant {
            1nat
        } else {
            0nat
        }
    }
}

} // verus!
