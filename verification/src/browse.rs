//! The model browser, the session browser, the sidebar's session list, and
//! the cursor clamping of the three list views.

use vstd::prelude::*;
use crate::app::{with_state, scrolled_to_bottom, push_message};
use crate::catalog::{EntryView, ModelCatalogEntry, browser_rows, copy_entries, entry_views, visible_model_rows};
use crate::keys::Rect;
use crate::providers::{LoginBrowseStep, filtered_providers, filtered_provider_entries};
use crate::state::{
    AppModel, AppState, AppStateView, ChatModel, LoginBrowsingState, LoginView, MessageView,
    ModelInfo, Screen, SessionEntry, SessionModel, SessionView, SidebarState, TuiApp, TuiMessage,
    message_views, session_views,
};
use crate::text::{
    char_preview, contains_seq, contains_str, copy_str, first_line, first_line_of, is_blank,
    lowercase, preview_chars, str_eq, to_lowercase, trim,
};

verus! {

/// Width of the session sidebar, in cells.
pub const SIDEBAR_WIDTH: u16 = 30;

/// Where the sidebar goes when `area` is split into a flexible main part and
/// a fixed-width column of `width` cells on the right.
pub uninterp spec fn sidebar_split(area: Rect, width: u16) -> Rect;

/// The second part of `ratatui::layout::Layout::horizontal([Min(0), Length(width)])`
/// splitting `area`.
///
/// The constraint solving itself is named by [`sidebar_split`], not restated.
#[verifier::external_body]
fn split_for_sidebar(area: Rect, width: u16) -> (r: Rect)
    ensures
        r == sidebar_split(area, width),
{
    let chunks = ratatui::layout::Layout::horizontal(
        [ratatui::layout::Constraint::Min(0), ratatui::layout::Constraint::Length(width)],
    ).split(ratatui::layout::Rect::new(area.x, area.y, area.width, area.height));
    Rect { x: chunks[1].x, y: chunks[1].y, width: chunks[1].width, height: chunks[1].height }
}

// ─── Cursor clamping ────────────────────────────────────────────────────────

/// `a - b`, or 0 when `b > a` (`u16::saturating_sub`).
pub open spec fn sat_sub16(a: u16, b: u16) -> u16 {
    if a >= b {
        (a - b) as u16
    } else {
        0
    }
}

/// The scroll offset that keeps the (already clamped) `cursor` visible: the
/// cursor row when it is above `scroll`, else `back` rows above the cursor.
pub open spec fn follow_scroll(cursor: usize, scroll: u16, back: u16) -> u16 {
    if (cursor as u16) < scroll {
        cursor as u16
    } else {
        sat_sub16(cursor as u16, back)
    }
}

/// `cursor` limited to the last of `n > 0` rows.
pub open spec fn clamp_to(cursor: usize, n: nat) -> usize {
    if cursor < n - 1 {
        cursor
    } else {
        (n - 1) as usize
    }
}

/// `m` with the model browser's cursor limited to its rows.
pub open spec fn model_clamped(m: AppModel) -> AppModel {
    match m.state {
        AppStateView::ModelBrowsing { query, cursor, scroll, last_sync_status, search_active } => {
            let n = browser_rows(m.model.model_entries, query).len();
            let (c, s) = if n == 0 {
                (0usize, 0u16)
            } else {
                let c = clamp_to(cursor, n);
                (c, follow_scroll(c, scroll, 2))
            };
            with_state(
                m,
                AppStateView::ModelBrowsing {
                    query,
                    cursor: c,
                    scroll: s,
                    last_sync_status,
                    search_active,
                },
            )
        },
        _ => m,
    }
}

/// Session `e` matches the lowercased query `q`.
pub open spec fn session_matches(e: SessionView, q: Seq<char>) -> bool {
    contains_seq(lowercase(e.preview), q) || contains_seq(lowercase(e.id), q)
}

/// Sessions of `s` matching `q`, in order.
pub open spec fn filter_sessions(s: Seq<SessionView>, q: Seq<char>) -> Seq<SessionView>
    decreases s.len(),
{
    if s.len() == 0 {
        Seq::empty()
    } else if session_matches(s.last(), q) {
        filter_sessions(s.drop_last(), q).push(s.last())
    } else {
        filter_sessions(s.drop_last(), q)
    }
}

/// Sessions listed for a search query: all for a blank query, else those
/// whose preview or id contains the lowercased query (case-insensitively).
pub open spec fn sessions_for(list: Seq<SessionView>, query: Seq<char>) -> Seq<SessionView> {
    if trim(query).len() == 0 {
        list
    } else {
        filter_sessions(list, lowercase(query))
    }
}

/// `m` with the session browser's cursor limited to its rows.
pub open spec fn session_clamped(m: AppModel) -> AppModel {
    match m.state {
        AppStateView::SessionBrowsing { query, cursor, scroll, search_active } => {
            let n = sessions_for(m.session.session_list, query).len();
            let (c, s) = if n == 0 {
                (0usize, 0u16)
            } else {
                let c = clamp_to(cursor, n);
                (c, follow_scroll(c, scroll, 2))
            };
            with_state(
                m,
                AppStateView::SessionBrowsing { query, cursor: c, scroll: s, search_active },
            )
        },
        _ => m,
    }
}

/// `l` with its cursor limited to the rows of its step.
pub open spec fn login_view_clamped(l: LoginView) -> LoginView {
    match l.step {
        LoginBrowseStep::SelectProvider => {
            let n = filtered_providers(l.query).len();
            if n == 0 {
                LoginView { cursor: 0, scroll: 0, ..l }
            } else {
                let c = clamp_to(l.cursor, n);
                LoginView { cursor: c, scroll: follow_scroll(c, l.scroll, 3), ..l }
            }
        },
        LoginBrowseStep::SelectMethod => {
            let c = if l.cursor < 1 {
                l.cursor
            } else {
                1usize
            };
            LoginView { cursor: c, scroll: follow_scroll(c, l.scroll, 3), ..l }
        },
        _ => LoginView { cursor: 0, scroll: follow_scroll(0, l.scroll, 3), ..l },
    }
}

/// `m` with the login picker's cursor limited to the rows of its step.
pub open spec fn login_clamped(m: AppModel) -> AppModel {
    match m.state {
        AppStateView::LoginBrowsing(l) => with_state(
            m,
            AppStateView::LoginBrowsing(login_view_clamped(l)),
        ),
        _ => m,
    }
}

/// The scroll offset following a clamped cursor.
fn follow(cursor: usize, scroll: u16, back: u16) -> (r: u16)
    ensures
        r == follow_scroll(cursor, scroll, back),
{
    let c: u16 = cursor as u16;
    if c < scroll {
        c
    } else {
        c.saturating_sub(back)
    }
}

// ─── Sidebar and session list ───────────────────────────────────────────────

/// `m` with keyboard focus moved between sidebar and input (nothing when the
/// sidebar is hidden); focusing highlights the first session if none is.
pub open spec fn sidebar_toggled(m: AppModel) -> AppModel {
    if !m.sidebar.visible {
        m
    } else {
        let focused = !m.sidebar.focused;
        let hover = if focused && m.sidebar.hover is None && m.session.session_list.len() > 0 {
            Some(0usize)
        } else {
            m.sidebar.hover
        };
        AppModel { sidebar: SidebarState { focused, hover, ..m.sidebar }, ..m }
    }
}

/// The highlighted sidebar session, if the highlight is on a listed session.
pub open spec fn hovered_session(m: AppModel) -> Option<SessionView> {
    match m.sidebar.hover {
        Some(i) => if i < m.session.session_list.len() {
            Some(m.session.session_list[i as int])
        } else {
            None
        },
        None => None,
    }
}

/// Text shown when asking to delete a session with preview `p`: its first
/// line, cut to 39 characters and `…` when longer than 40.
pub open spec fn delete_preview(p: Seq<char>) -> Seq<char> {
    if p.len() == 0 {
        "(empty session)"@
    } else {
        char_preview(first_line(p), 40, 39)
    }
}

/// `m` asking whether to delete the highlighted session.
pub open spec fn delete_requested(m: AppModel) -> AppModel {
    match hovered_session(m) {
        Some(e) => with_state(
            m,
            AppStateView::ConfirmDelete {
                session_id: e.id,
                session_preview: delete_preview(e.preview),
            },
        ),
        None => m,
    }
}

/// `m` with the highlighted session picked for loading.
pub open spec fn sidebar_selected(m: AppModel) -> AppModel {
    match hovered_session(m) {
        Some(e) => AppModel {
            session: SessionModel { pending_sidebar_selection: Some(e.id), ..m.session },
            sidebar: SidebarState { focused: false, ..m.sidebar },
            ..m
        },
        None => m,
    }
}

/// Sessions of `s` whose id is not `id`.
pub open spec fn without_session(s: Seq<SessionView>, id: Seq<char>) -> Seq<SessionView>
    decreases s.len(),
{
    if s.len() == 0 {
        Seq::empty()
    } else if s.last().id == id {
        without_session(s.drop_last(), id)
    } else {
        without_session(s.drop_last(), id).push(s.last())
    }
}

/// `m` with session `id` removed from the list, and the highlight moved onto
/// the last row if it fell off the end.
pub open spec fn session_removed(m: AppModel, id: Seq<char>) -> AppModel {
    let list = without_session(m.session.session_list, id);
    let hover = match m.sidebar.hover {
        Some(h) => if h >= list.len() {
            if list.len() == 0 {
                None
            } else {
                Some((list.len() - 1) as usize)
            }
        } else {
            Some(h)
        },
        None => None,
    };
    AppModel {
        session: SessionModel { session_list: list, ..m.session },
        sidebar: SidebarState { hover, ..m.sidebar },
        ..m
    }
}

// ─── Stored sessions ────────────────────────────────────────────────────────

/// Who wrote a stored message.
#[derive(Debug, Clone, Copy, PartialEq, Eq, Structural)]
pub enum Role {
    User,
    Assistant,
    Tool,
    System,
}

/// A tool call recorded with an assistant message.
#[derive(Debug, Clone, PartialEq, Eq)]
pub struct ToolCallRecord {
    pub name: String,
    /// JSON text of the call's arguments.
    pub arguments: String,
}

/// A message stored in a session.
#[derive(Debug, Clone, PartialEq, Eq)]
pub struct AgentMessage {
    pub role: Role,
    pub content: String,
    pub tool_calls: Option<Vec<ToolCallRecord>>,
    pub tool_name: Option<String>,
}

/// Items shown for the tool calls recorded with a message.
pub open spec fn calls_of(msg: AgentMessage) -> Seq<MessageView> {
    match msg.tool_calls {
        Some(tc) => Seq::new(
            tc@.len(),
            |i: int|
                MessageView::ToolCall {
                    tool_name: tc@[i].name@,
                    args_preview: tc@[i].arguments@,
                    done: true,
                },
        ),
        None => Seq::empty(),
    }
}

/// History items shown for one stored message.
pub open spec fn items_of(msg: AgentMessage) -> Seq<MessageView> {
    match msg.role {
        Role::User => seq![MessageView::User(msg.content@)],
        Role::Assistant => {
            let calls = calls_of(msg);
            if msg.content@.len() == 0 {
                calls
            } else {
                calls.push(MessageView::Assistant(msg.content@))
            }
        },
        Role::Tool => seq![
            MessageView::ToolResult {
                tool_name: match msg.tool_name {
                    Some(t) => t@,
                    None => Seq::empty(),
                },
                output_preview: msg.content@,
                is_error: false,
            },
        ],
        Role::System => Seq::empty(),
    }
}

/// History items shown for stored messages.
pub open spec fn history_of(msgs: Seq<AgentMessage>) -> Seq<MessageView>
    decreases msgs.len(),
{
    if msgs.len() == 0 {
        Seq::empty()
    } else {
        history_of(msgs.drop_last()) + items_of(msgs.last())
    }
}

/// `m` showing the stored session `id` with messages `msgs`.
pub open spec fn session_loaded(m: AppModel, id: Seq<char>, msgs: Seq<AgentMessage>) -> AppModel {
    AppModel {
        session: SessionModel { session_id: id, ..m.session },
        chat: ChatModel { messages: history_of(msgs), history_scroll: 0xFFFF, ..m.chat },
        screen: Screen::Chat,
        ..m
    }
}

/// `m` with the catalog of `provider` and the model browser opened on it.
pub open spec fn model_browser_opened(
    m: AppModel,
    provider: Seq<char>,
    entries: Seq<EntryView>,
    query: Seq<char>,
    sync_status: Seq<char>,
) -> AppModel {
    with_state(
        AppModel {
            model: ModelInfo { model_provider: provider, model_entries: entries, ..m.model },
            ..m
        },
        AppStateView::ModelBrowsing {
            query,
            cursor: 0,
            scroll: 0,
            last_sync_status: sync_status,
            search_active: false,
        },
    )
}

/// `m` with a new catalog; an open model browser shows its sync status and
/// goes back to the top.
pub open spec fn catalog_updated(
    m: AppModel,
    provider: Seq<char>,
    entries: Seq<EntryView>,
    sync_status: Seq<char>,
) -> AppModel {
    let m1 = AppModel {
        model: ModelInfo { model_provider: provider, model_entries: entries, ..m.model },
        ..m
    };
    match m.state {
        AppStateView::ModelBrowsing { query, search_active, .. } => with_state(
            m1,
            AppStateView::ModelBrowsing {
                query,
                cursor: 0,
                scroll: 0,
                last_sync_status: sync_status,
                search_active,
            },
        ),
        _ => m1,
    }
}

/// `m` with an open model browser showing that the catalog is refreshed.
pub open spec fn refreshing_marked(m: AppModel) -> AppModel {
    match m.state {
        AppStateView::ModelBrowsing { query, cursor, scroll, search_active, .. } => with_state(
            m,
            AppStateView::ModelBrowsing {
                query,
                cursor,
                scroll,
                last_sync_status: "Refreshing model..."@,
                search_active,
            },
        ),
        _ => m,
    }
}

impl TuiApp {
    /// Where the sidebar is drawn within `full_area`, or `None` when it is
    /// hidden or the home screen is shown.
    pub fn compute_sidebar_area(&self, full_area: Rect) -> (r: Option<Rect>)
        ensures
            r == (if !self.sidebar.visible || self.screen != Screen::Chat {
                None
            } else {
                Some(sidebar_split(full_area, SIDEBAR_WIDTH))
            }),
    {
        if !self.sidebar.visible || match self.screen {
            Screen::Chat => false,
            Screen::Home => true,
        } {
            return None;
        }
        Some(split_for_sidebar(full_area, SIDEBAR_WIDTH))
    }

    /// Opens the model browser on `entries`.
    pub fn open_model_browser(
        &mut self,
        provider: String,
        entries: Vec<ModelCatalogEntry>,
        query: String,
        sync_status: String,
    )
        ensures
            final(self)@ == model_browser_opened(
                old(self)@,
                provider@,
                entry_views(entries@),
                query@,
                sync_status@,
            ),
    {
        self.model.model_provider = provider;
        self.model.model_entries = entries;
        self.state = AppState::ModelBrowsing {
            query,
            cursor: 0,
            scroll: 0,
            last_sync_status: sync_status,
            search_active: false,
        };
    }

    /// Replaces the catalog and, when the model browser is open, its sync
    /// status, moving its cursor to the top.
    pub fn update_model_browser_catalog(
        &mut self,
        provider: String,
        entries: Vec<ModelCatalogEntry>,
        sync_status: String,
    )
        ensures
            final(self)@ == catalog_updated(
                old(self)@,
                provider@,
                entry_views(entries@),
                sync_status@,
            ),
    {
        self.model.model_provider = provider;
        self.model.model_entries = entries;
        match &mut self.state {
            AppState::ModelBrowsing { cursor, scroll, last_sync_status, .. } => {
                *last_sync_status = sync_status;
                *cursor = 0;
                *scroll = 0;
            },
            _ => {},
        }
    }

    /// The model browser's search text, when it is open.
    pub fn model_browser_query(&self) -> (r: Option<String>)
        ensures
            match self@.state {
                AppStateView::ModelBrowsing { query, .. } => r matches Some(q) && q@ == query,
                _ => r is None,
            },
    {
        match &self.state {
            AppState::ModelBrowsing { query, .. } => Some(copy_str(query.as_str())),
            _ => None,
        }
    }

    /// Shows that the catalog is being refreshed, when the model browser is open.
    pub fn mark_model_refreshing(&mut self)
        ensures
            final(self)@ == refreshing_marked(old(self)@),
    {
        match &mut self.state {
            AppState::ModelBrowsing { last_sync_status, .. } => {
                *last_sync_status = copy_str("Refreshing model...");
            },
            _ => {},
        }
    }

    /// Whether `r` was pressed in the model browser since the last call.
    pub fn take_model_refresh_request(&mut self) -> (r: bool)
        ensures
            r == old(self).model.model_refresh_requested,
            final(self)@ == (AppModel {
                model: ModelInfo { model_refresh_requested: false, ..old(self)@.model },
                ..old(self)@
            }),
    {
        let requested = self.model.model_refresh_requested;
        self.model.model_refresh_requested = false;
        requested
    }

    /// Rows of the model browser for `query`.
    pub fn visible_model_entries(&self, query: &str) -> (r: Vec<ModelCatalogEntry>)
        ensures
            entry_views(r@) == browser_rows(self@.model.model_entries, query@),
    {
        visible_model_rows(&self.model.model_entries, query)
    }

    /// Limits the model browser's cursor to its rows.
    pub fn clamp_model_cursor(&mut self)
        ensures
            final(self)@ == model_clamped(old(self)@),
    {
        let query = match &self.state {
            AppState::ModelBrowsing { query, .. } => copy_str(query.as_str()),
            _ => return,
        };
        let n = self.visible_model_entries(query.as_str()).len();
        match &mut self.state {
            AppState::ModelBrowsing { cursor, scroll, .. } => {
                if n == 0 {
                    *cursor = 0;
                    *scroll = 0;
                    return;
                }
                if *cursor >= n - 1 {
                    *cursor = n - 1;
                }
                *scroll = follow(*cursor, *scroll, 2);
            },
            _ => {},
        }
    }

    /// Opens the session browser.
    pub fn open_session_browser(&mut self)
        ensures
            final(self)@ == with_state(
                old(self)@,
                AppStateView::SessionBrowsing {
                    query: Seq::empty(),
                    cursor: 0,
                    scroll: 0,
                    search_active: false,
                },
            ),
    {
        self.state = AppState::SessionBrowsing {
            query: String::new(),
            cursor: 0,
            scroll: 0,
            search_active: false,
        };
    }

    /// Sessions listed for `query` (see [`sessions_for`]).
    pub fn visible_sessions(&self, query: &str) -> (r: Vec<SessionEntry>)
        ensures
            session_views(r@) == sessions_for(self@.session.session_list, query@),
    {
        let list = &self.session.session_list;
        let ghost all = session_views(list@);
        if is_blank(query) {
            let mut out: Vec<SessionEntry> = Vec::new();
            let mut i: usize = 0;
            while i < list.len()
                invariant
                    0 <= i <= list.len(),
                    all == session_views(list@),
                    session_views(out@) == all.take(i as int),
                decreases list.len() - i,
            {
                let ghost before = session_views(out@);
                out.push(list[i].copy());
                assert(session_views(out@) =~= before.push(list@[i as int]@));
                assert(all.take(i + 1) =~= all.take(i as int).push(list@[i as int]@));
                i = i + 1;
            }
            assert(all.take(list.len() as int) =~= all);
            return out;
        }
        let q = to_lowercase(query);
        let mut out: Vec<SessionEntry> = Vec::new();
        let mut i: usize = 0;
        while i < list.len()
            invariant
                0 <= i <= list.len(),
                all == session_views(list@),
                q@ == lowercase(query@),
                session_views(out@) == filter_sessions(all.take(i as int), q@),
            decreases list.len() - i,
        {
            let ghost before = session_views(out@);
            assert(all.take(i + 1).drop_last() =~= all.take(i as int));
            assert(all.take(i + 1).last() == list@[i as int]@);
            let p = to_lowercase(list[i].preview.as_str());
            let d = to_lowercase(list[i].id.as_str());
            if contains_str(p.as_str(), q.as_str()) || contains_str(d.as_str(), q.as_str()) {
                out.push(list[i].copy());
                assert(session_views(out@) =~= before.push(list@[i as int]@));
            }
            i = i + 1;
        }
        assert(all.take(list.len() as int) =~= all);
        out
    }

    /// Limits the session browser's cursor to its rows.
    pub fn clamp_session_cursor(&mut self)
        ensures
            final(self)@ == session_clamped(old(self)@),
    {
        let query = match &self.state {
            AppState::SessionBrowsing { query, .. } => copy_str(query.as_str()),
            _ => return,
        };
        let n = self.visible_sessions(query.as_str()).len();
        match &mut self.state {
            AppState::SessionBrowsing { cursor, scroll, .. } => {
                if n == 0 {
                    *cursor = 0;
                    *scroll = 0;
                    return;
                }
                if *cursor >= n - 1 {
                    *cursor = n - 1;
                }
                *scroll = follow(*cursor, *scroll, 2);
            },
            _ => {},
        }
    }

    /// Limits the login picker's cursor to the rows of its step.
    pub fn clamp_login_cursor(&mut self)
        ensures
            final(self)@ == login_clamped(old(self)@),
    {
        match &mut self.state {
            AppState::LoginBrowsing(l) => {
                match l.step {
                    LoginBrowseStep::SelectProvider => {
                        let n = filtered_provider_entries(l.query.as_str()).len();
                        if n == 0 {
                            l.cursor = 0;
                            l.scroll = 0;
                            return;
                        }
                        if l.cursor >= n - 1 {
                            l.cursor = n - 1;
                        }
                    },
                    LoginBrowseStep::SelectMethod => {
                        if l.cursor >= 1 {
                            l.cursor = 1;
                        }
                    },
                    _ => {
                        l.cursor = 0;
                    },
                }
                l.scroll = follow(l.cursor, l.scroll, 3);
            },
            _ => {},
        }
    }

    /// Moves keyboard focus between sidebar and input.
    pub fn toggle_sidebar_focus(&mut self)
        ensures
            final(self)@ == sidebar_toggled(old(self)@),
    {
        if !self.sidebar.visible {
            return;
        }
        self.sidebar.focused = !self.sidebar.focused;
        if self.sidebar.focused && self.sidebar.hover.is_none()
            && self.session.session_list.len() > 0 {
            self.sidebar.hover = Some(0);
        }
    }

    /// Picks the highlighted sidebar session for loading and returns its id.
    pub fn select_sidebar_session(&mut self) -> (r: Option<String>)
        ensures
            final(self)@ == sidebar_selected(old(self)@),
            match hovered_session(old(self)@) {
                Some(e) => r matches Some(id) && id@ == e.id,
                None => r is None,
            },
    {
        let idx = match self.sidebar.hover {
            Some(i) => i,
            None => return None,
        };
        if idx >= self.session.session_list.len() {
            return None;
        }
        let id = copy_str(self.session.session_list[idx].id.as_str());
        self.session.pending_sidebar_selection = Some(copy_str(id.as_str()));
        self.sidebar.focused = false;
        Some(id)
    }

    /// Takes the session picked for loading.
    pub fn take_pending_sidebar_selection(&mut self) -> (r: Option<String>)
        ensures
            r == old(self).session.pending_sidebar_selection,
            final(self)@ == (AppModel {
                session: SessionModel { pending_sidebar_selection: None, ..old(self)@.session },
                ..old(self)@
            }),
    {
        self.session.pending_sidebar_selection.take()
    }

    /// Picks session `id` for loading (a click in the sidebar).
    pub fn set_pending_sidebar_selection(&mut self, id: String)
        ensures
            final(self)@ == (AppModel {
                session: SessionModel { pending_sidebar_selection: Some(id@), ..old(self)@.session },
                ..old(self)@
            }),
    {
        self.session.pending_sidebar_selection = Some(id);
    }

    /// Asks whether to delete the highlighted session and returns its id.
    pub fn request_delete_session(&mut self) -> (r: Option<String>)
        ensures
            final(self)@ == delete_requested(old(self)@),
            match hovered_session(old(self)@) {
                Some(e) => r matches Some(id) && id@ == e.id,
                None => r is None,
            },
    {
        let idx = match self.sidebar.hover {
            Some(i) => i,
            None => return None,
        };
        if idx >= self.session.session_list.len() {
            return None;
        }
        let entry = &self.session.session_list[idx];
        let id = copy_str(entry.id.as_str());
        let preview = if entry.preview.as_str().is_empty() {
            copy_str("(empty session)")
        } else {
            let first = first_line_of(entry.preview.as_str());
            preview_chars(first.as_str(), 40, 39)
        };
        self.state = AppState::ConfirmDelete {
            session_id: copy_str(id.as_str()),
            session_preview: preview,
        };
        Some(id)
    }

    /// Removes session `id` from the sidebar list.
    pub fn remove_session_from_list(&mut self, id: &str)
        ensures
            final(self)@ == session_removed(old(self)@, id@),
    {
        let ghost all = session_views(self.session.session_list@);
        let mut kept: Vec<SessionEntry> = Vec::new();
        let mut i: usize = 0;
        while i < self.session.session_list.len()
            invariant
                0 <= i <= self.session.session_list.len(),
                all == session_views(self.session.session_list@),
                session_views(kept@) == without_session(all.take(i as int), id@),
            decreases self.session.session_list.len() - i,
        {
            let ghost before = session_views(kept@);
            assert(all.take(i + 1).drop_last() =~= all.take(i as int));
            assert(all.take(i + 1).last() == self.session.session_list@[i as int]@);
            if !str_eq(self.session.session_list[i].id.as_str(), id) {
                kept.push(self.session.session_list[i].copy());
                assert(session_views(kept@) =~= before.push(self.session.session_list@[i as int]@));
            }
            i = i + 1;
        }
        assert(all.take(self.session.session_list.len() as int) =~= all);
        self.session.session_list = kept;
        match self.sidebar.hover {
            Some(h) => {
                if h >= self.session.session_list.len() {
                    self.sidebar.hover = if self.session.session_list.len() == 0 {
                        None
                    } else {
                        Some(self.session.session_list.len() - 1)
                    };
                }
            },
            None => {},
        }
    }

    /// Replaces the sidebar's session list.
    pub fn refresh_session_list(&mut self, sessions: Vec<SessionEntry>)
        ensures
            final(self)@ == (AppModel {
                session: SessionModel { session_list: session_views(sessions@), ..old(self)@.session },
                ..old(self)@
            }),
    {
        self.session.session_list = sessions;
    }

    /// Takes the session confirmed for deletion.
    pub fn take_confirmed_delete(&mut self) -> (r: Option<String>)
        ensures
            r == old(self).session.confirmed_delete,
            final(self)@ == (AppModel {
                session: SessionModel { confirmed_delete: None, ..old(self)@.session },
                ..old(self)@
            }),
    {
        self.session.confirmed_delete.take()
    }

    /// Shows stored session `id`: its messages replace the history, and the
    /// view switches to the conversation scrolled to the end.
    pub fn load_session_messages(&mut self, id: String, messages: Vec<AgentMessage>)
        ensures
            final(self)@ == session_loaded(old(self)@, id@, messages@),
    {
        self.session.session_id = id;
        let mut out: Vec<TuiMessage> = Vec::new();
        let mut i: usize = 0;
        while i < messages.len()
            invariant
                0 <= i <= messages.len(),
                message_views(out@) == history_of(messages@.take(i as int)),
            decreases messages.len() - i,
        {
            assert(messages@.take(i + 1).drop_last() =~= messages@.take(i as int));
            assert(messages@.take(i + 1).last() == messages@[i as int]);
            append_items(&mut out, &messages[i]);
            i = i + 1;
        }
        assert(messages@.take(messages.len() as int) =~= messages@);
        self.chat.messages = out;
        self.chat.history_scroll = 0xFFFF;
        self.screen = Screen::Chat;
    }
}

/// Appends the history items of stored message `msg` to `out`.
fn append_items(out: &mut Vec<TuiMessage>, msg: &AgentMessage)
    ensures
        message_views(final(out)@) == message_views(old(out)@) + items_of(*msg),
{
    let ghost start = message_views(out@);
    match msg.role {
        Role::User => {
            out.push(TuiMessage::User(copy_str(msg.content.as_str())));
            assert(message_views(out@) =~= start + items_of(*msg));
        },
        Role::Assistant => {
            let ghost calls = calls_of(*msg);
            match &msg.tool_calls {
                Some(tc) => {
                    let mut j: usize = 0;
                    while j < tc.len()
                        invariant
                            0 <= j <= tc.len(),
                            msg.tool_calls == Some(*tc),
                            calls.len() == tc.len(),
                            forall|k: int| 0 <= k < tc.len() ==> #[trigger] calls[k] == (MessageView::ToolCall {
                                tool_name: tc@[k].name@,
                                args_preview: tc@[k].arguments@,
                                done: true,
                            }),
                            message_views(out@) == start + calls.take(j as int),
                        decreases tc.len() - j,
                    {
                        let ghost before = message_views(out@);
                        out.push(
                            TuiMessage::ToolCall {
                                tool_name: copy_str(tc[j].name.as_str()),
                                args_preview: copy_str(tc[j].arguments.as_str()),
                                done: true,
                            },
                        );
                        assert(message_views(out@) =~= before.push(calls[j as int]));
                        assert(start + calls.take(j + 1) =~= (start + calls.take(j as int)).push(
                            calls[j as int],
                        ));
                        j = j + 1;
                    }
                    assert(calls.take(tc.len() as int) =~= calls);
                },
                None => {
                    assert(start + calls =~= start);
                },
            }
            if !msg.content.as_str().is_empty() {
                let ghost before = message_views(out@);
                out.push(TuiMessage::Assistant(copy_str(msg.content.as_str())));
                assert(message_views(out@) =~= before.push(MessageView::Assistant(msg.content@)));
                assert(start + calls.push(MessageView::Assistant(msg.content@)) =~= (start + calls).push(MessageView::Assistant(msg.content@)));
            }
        },
        Role::Tool => {
            let name = match &msg.tool_name {
                Some(t) => copy_str(t.as_str()),
                None => String::new(),
            };
            out.push(
                TuiMessage::ToolResult {
                    tool_name: name,
                    output_preview: copy_str(msg.content.as_str()),
                    is_error: false,
                },
            );
            assert(message_views(out@) =~= start + items_of(*msg));
        },
        Role::System => {
            assert(message_views(out@) =~= start + items_of(*msg));
        },
    }
}

} // verus!
