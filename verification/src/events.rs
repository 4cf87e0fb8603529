//! Turning key presses and mouse events into actions, for the event loop to
//! apply with [`TuiApp::update`].

use vstd::prelude::*;
use crate::action::Action;
use crate::app::palette_active;
use crate::browse::{SIDEBAR_WIDTH, sat_sub16, sidebar_split};
use crate::editing::input_active;
use crate::input::{sat_add16, sidebar_down_hover, sidebar_up_hover};
use crate::keys::{KeyCode, KeyEvent, MouseButton, MouseEvent, MouseEventKind, Rect, is_ctrl_c, key_is_ctrl_c, rect_contains};
use crate::state::{AppModel, AppState, AppStateView, Screen, TuiApp, selection_active};

verus! {

// ─── Keys ───────────────────────────────────────────────────────────────────

/// The actions of a key press in the general input mode.
pub open spec fn input_key_actions(m: AppModel, key: KeyEvent) -> Seq<Action> {
    let active = input_active(m);
    let pal = palette_active(m);
    if is_ctrl_c(key) || key.code == KeyCode::Esc {
        if selection_active(m.chat.text_selection) {
            seq![Action::TextSelectionCopy]
        } else if pal {
            seq![Action::PaletteClose]
        } else if m.state is Idle {
            seq![Action::Quit]
        } else if m.state is AuthPrompting {
            seq![Action::CancelAuth]
        } else {
            Seq::empty()
        }
    } else if key.code == KeyCode::Tab && pal {
        seq![Action::PaletteTabComplete]
    } else if key.code == KeyCode::Tab && m.state is Idle && m.sidebar.visible {
        seq![Action::ToggleSidebarFocus]
    } else if key.code == KeyCode::Enter && m.state is Idle {
        seq![Action::SubmitInput]
    } else if key.code is Char && active {
        seq![Action::InsertChar(key.code->Char_0)]
    } else if key.code == KeyCode::Backspace && active {
        seq![Action::DeleteChar]
    } else if key.code == KeyCode::Left && active {
        seq![Action::MoveCursorLeft]
    } else if key.code == KeyCode::Right && active {
        seq![Action::MoveCursorRight]
    } else if key.code == KeyCode::Up && pal {
        seq![Action::PaletteMoveUp]
    } else if key.code == KeyCode::Down && pal {
        seq![Action::PaletteMoveDown]
    } else if key.code == KeyCode::Up {
        seq![Action::ScrollUp(1)]
    } else if key.code == KeyCode::Down {
        seq![Action::ScrollDown(1)]
    } else if key.code == KeyCode::PageUp {
        seq![Action::ScrollUp(10)]
    } else if key.code == KeyCode::PageDown {
        seq![Action::ScrollDown(10)]
    } else {
        Seq::empty()
    }
}

/// The actions of a key press while the sidebar has the focus.
pub open spec fn sidebar_key_actions(m: AppModel, key: KeyEvent) -> Seq<Action> {
    if key.code == KeyCode::Char('j') || key.code == KeyCode::Down {
        seq![Action::SidebarHover(Some(sidebar_down_hover(m)))]
    } else if key.code == KeyCode::Char('k') || key.code == KeyCode::Up {
        seq![Action::SidebarHover(Some(sidebar_up_hover(m)))]
    } else if key.code == KeyCode::Enter {
        seq![Action::SelectSidebarSession]
    } else if key.code == KeyCode::Char('d') || key.code == KeyCode::Delete {
        seq![Action::RequestDeleteSession]
    } else if key.code == KeyCode::Esc || key.code == KeyCode::Tab {
        seq![Action::SidebarHover(m.sidebar.hover), Action::ToggleSidebarFocus]
    } else {
        Seq::empty()
    }
}

/// The actions of a key press, by mode.
pub open spec fn key_actions(m: AppModel, key: KeyEvent) -> Seq<Action> {
    if m.state is QrCodeDisplay {
        if key.code == KeyCode::Esc || key.code == KeyCode::Enter || key.code == KeyCode::Char('q') {
            seq![Action::CloseQrCode]
        } else {
            Seq::empty()
        }
    } else if m.state is ConfirmDelete {
        if key.code == KeyCode::Char('y') || key.code == KeyCode::Enter {
            seq![Action::ConfirmDelete]
        } else if key.code == KeyCode::Char('n') || key.code == KeyCode::Esc {
            seq![Action::CancelDelete]
        } else {
            Seq::empty()
        }
    } else if m.sidebar.focused && m.state is Idle {
        sidebar_key_actions(m, key)
    } else if m.state is LoginBrowsing {
        seq![Action::LoginBrowserKey(key)]
    } else if m.state is ModelBrowsing {
        seq![Action::ModelBrowserKey(key)]
    } else if m.state is SessionBrowsing {
        seq![Action::SessionBrowserKey(key)]
    } else if m.state is WebConfiguring {
        seq![Action::WebConfigKey(key)]
    } else if m.state is WhatsAppSetup {
        if key.code == KeyCode::Esc {
            seq![Action::WhatsAppSetupCancel]
        } else {
            Seq::empty()
        }
    } else {
        input_key_actions(m, key)
    }
}

/// Actions `[a]`.
fn one(a: Action) -> (v: Vec<Action>)
    ensures
        v@ == seq![a],
{
    let mut v: Vec<Action> = Vec::new();
    v.push(a);
    v
}

/// Actions `[a, b]`.
fn two(a: Action, b: Action) -> (v: Vec<Action>)
    ensures
        v@ == seq![a, b],
{
    let mut v: Vec<Action> = Vec::new();
    v.push(a);
    v.push(b);
    v
}

/// No action.
fn no_actions() -> (v: Vec<Action>)
    ensures
        v@ == Seq::<Action>::empty(),
{
    Vec::new()
}

impl TuiApp {
    /// The actions of a key press in the general input mode.
    fn map_input_key(&self, key: KeyEvent) -> (r: Vec<Action>)
        ensures
            r@ == input_key_actions(self@, key),
    {
        let active = match self.state {
            AppState::Idle | AppState::AuthPrompting { .. } => true,
            _ => false,
        };
        let idle = match self.state {
            AppState::Idle => true,
            _ => false,
        };
        let prompting = match self.state {
            AppState::AuthPrompting { .. } => true,
            _ => false,
        };
        let pal = self.is_palette_active();
        if key_is_ctrl_c(key) || key.code == KeyCode::Esc {
            if self.chat.text_selection.is_active() {
                one(Action::TextSelectionCopy)
            } else if pal {
                one(Action::PaletteClose)
            } else if idle {
                one(Action::Quit)
            } else if prompting {
                one(Action::CancelAuth)
            } else {
                no_actions()
            }
        } else if key.code == KeyCode::Tab && pal {
            one(Action::PaletteTabComplete)
        } else if key.code == KeyCode::Tab && idle && self.sidebar.visible {
            one(Action::ToggleSidebarFocus)
        } else if key.code == KeyCode::Enter && idle {
            one(Action::SubmitInput)
        } else if key.code == KeyCode::Backspace && active {
            one(Action::DeleteChar)
        } else if key.code == KeyCode::Left && active {
            one(Action::MoveCursorLeft)
        } else if key.code == KeyCode::Right && active {
            one(Action::MoveCursorRight)
        } else if key.code == KeyCode::Up && pal {
            one(Action::PaletteMoveUp)
        } else if key.code == KeyCode::Down && pal {
            one(Action::PaletteMoveDown)
        } else if key.code == KeyCode::Up {
            one(Action::ScrollUp(1))
        } else if key.code == KeyCode::Down {
            one(Action::ScrollDown(1))
        } else if key.code == KeyCode::PageUp {
            one(Action::ScrollUp(10))
        } else if key.code == KeyCode::PageDown {
            one(Action::ScrollDown(10))
        } else {
            match key.code {
                KeyCode::Char(c) => if active {
                    one(Action::InsertChar(c))
                } else {
                    no_actions()
                },
                _ => no_actions(),
            }
        }
    }

    /// The actions of a key press while the sidebar has the focus.
    fn map_sidebar_key(&self, key: KeyEvent) -> (r: Vec<Action>)
        requires
            self.sidebar.hover != Some(usize::MAX),
        ensures
            r@ == sidebar_key_actions(self@, key),
    {
        if key.code == KeyCode::Char('j') || key.code == KeyCode::Down {
            let max = self.session.session_list.len().saturating_sub(1);
            let current = match self.sidebar.hover {
                Some(h) => h,
                None => 0,
            };
            one(
                Action::SidebarHover(
                    Some(
                        if current + 1 < max {
                            current + 1
                        } else {
                            max
                        },
                    ),
                ),
            )
        } else if key.code == KeyCode::Char('k') || key.code == KeyCode::Up {
            let current = match self.sidebar.hover {
                Some(h) => h,
                None => 0,
            };
            one(Action::SidebarHover(Some(current.saturating_sub(1))))
        } else if key.code == KeyCode::Enter {
            one(Action::SelectSidebarSession)
        } else if key.code == KeyCode::Char('d') || key.code == KeyCode::Delete {
            one(Action::RequestDeleteSession)
        } else if key.code == KeyCode::Esc || key.code == KeyCode::Tab {
            two(Action::SidebarHover(self.sidebar.hover), Action::ToggleSidebarFocus)
        } else {
            no_actions()
        }
    }

    /// The actions of a key press (see [`key_actions`]).
    pub fn map_key_event(&self, key: KeyEvent) -> (r: Vec<Action>)
        requires
            self.sidebar.hover != Some(usize::MAX),
        ensures
            r@ == key_actions(self@, key),
    {
        match self.state {
            AppState::QrCodeDisplay { .. } => {
                return if key.code == KeyCode::Esc || key.code == KeyCode::Enter || key.code
                    == KeyCode::Char('q') {
                    one(Action::CloseQrCode)
                } else {
                    no_actions()
                };
            },
            AppState::ConfirmDelete { .. } => {
                return if key.code == KeyCode::Char('y') || key.code == KeyCode::Enter {
                    one(Action::ConfirmDelete)
                } else if key.code == KeyCode::Char('n') || key.code == KeyCode::Esc {
                    one(Action::CancelDelete)
                } else {
                    no_actions()
                };
            },
            _ => {},
        }
        let idle = match self.state {
            AppState::Idle => true,
            _ => false,
        };
        if self.sidebar.focused && idle {
            return self.map_sidebar_key(key);
        }
        match self.state {
            AppState::LoginBrowsing(_) => one(Action::LoginBrowserKey(key)),
            AppState::ModelBrowsing { .. } => one(Action::ModelBrowserKey(key)),
            AppState::SessionBrowsing { .. } => one(Action::SessionBrowserKey(key)),
            AppState::WebConfiguring(_) => one(Action::WebConfigKey(key)),
            AppState::WhatsAppSetup { .. } => if key.code == KeyCode::Esc {
                one(Action::WhatsAppSetupCancel)
            } else {
                no_actions()
            },
            _ => self.map_input_key(key),
        }
    }
}

// ─── Mouse ──────────────────────────────────────────────────────────────────

/// Height of one session entry in the sidebar, in rows.
pub const SIDEBAR_ENTRY_HEIGHT: u16 = 3;

/// Where the sidebar is drawn within `frame`, if it is shown.
pub open spec fn sidebar_area(m: AppModel, frame: Rect) -> Option<Rect> {
    if !m.sidebar.visible || m.screen != Screen::Chat {
        None
    } else {
        Some(sidebar_split(frame, SIDEBAR_WIDTH))
    }
}

/// The session row of the sidebar `a` under screen row `row`: rows inside the
/// top border, counted from the sidebar's scroll offset, three per entry.
pub open spec fn sidebar_row_index(m: AppModel, a: Rect, row: u16) -> int {
    let inner_y: int = if row >= a.y + 1 {
        row - a.y - 1
    } else {
        0
    };
    (inner_y + m.sidebar.scroll * 3) / 3
}

/// The sidebar's answer to a mouse event, if the sidebar takes it.
pub open spec fn sidebar_mouse(m: AppModel, mouse: MouseEvent, a: Rect) -> Option<Seq<Action>> {
    let inside = rect_contains(a, mouse.column, mouse.row);
    let idx = sidebar_row_index(m, a, mouse.row);
    let listed = idx < m.session.session_list.len();
    match mouse.kind {
        MouseEventKind::Down(MouseButton::Left) => if inside {
            Some(
                if listed {
                    seq![Action::SidebarHover(Some(idx as usize)), Action::SelectSidebarSession]
                } else {
                    Seq::empty()
                },
            )
        } else {
            None
        },
        MouseEventKind::Moved => Some(
            if inside && listed {
                seq![Action::SidebarHover(Some(idx as usize))]
            } else {
                seq![Action::SidebarHover(None)]
            },
        ),
        MouseEventKind::ScrollDown => if inside {
            Some(seq![Action::SidebarScroll(1)])
        } else {
            None
        },
        MouseEventKind::ScrollUp => if inside {
            Some(seq![Action::SidebarScroll(-1i16)])
        } else {
            None
        },
        _ => None,
    }
}

/// The conversation panel's inside: `a` without its one-cell border.
pub open spec fn panel_inner(a: Rect) -> Rect {
    Rect { x: (a.x + 1) as u16, y: (a.y + 1) as u16, width: sat_sub16(a.width, 2), height: sat_sub16(a.height, 2) }
}

/// `v` limited to `hi`.
pub open spec fn min16(v: u16, hi: u16) -> u16 {
    if v < hi {
        v
    } else {
        hi
    }
}

/// The conversation panel's answer to a mouse event.
pub open spec fn panel_mouse(m: AppModel, mouse: MouseEvent) -> Seq<Action> {
    match m.chat.chat_area {
        Some(ca) => {
            let inner = panel_inner(ca);
            let col = min16(sat_sub16(mouse.column, inner.x), sat_sub16(inner.width, 1));
            let row = min16(sat_sub16(mouse.row, inner.y), sat_sub16(inner.height, 1));
            match mouse.kind {
                MouseEventKind::Down(MouseButton::Left) => if rect_contains(
                    inner,
                    mouse.column,
                    mouse.row,
                ) {
                    seq![
                        Action::TextSelectionStart {
                            row: (mouse.row - inner.y) as u16,
                            col: (mouse.column - inner.x) as u16,
                        },
                    ]
                } else {
                    seq![Action::TextSelectionClear]
                },
                MouseEventKind::Drag(MouseButton::Left) => if m.chat.text_selection.dragging {
                    seq![Action::TextSelectionDrag { row, col }]
                } else {
                    Seq::empty()
                },
                MouseEventKind::Up(MouseButton::Left) => if m.chat.text_selection.dragging {
                    seq![Action::TextSelectionEnd { row, col }]
                } else {
                    Seq::empty()
                },
                MouseEventKind::ScrollDown => if rect_contains(ca, mouse.column, mouse.row) {
                    seq![Action::ScrollDown(3), Action::TextSelectionClear]
                } else {
                    Seq::empty()
                },
                MouseEventKind::ScrollUp => if rect_contains(ca, mouse.column, mouse.row) {
                    seq![Action::ScrollUp(3), Action::TextSelectionClear]
                } else {
                    Seq::empty()
                },
                _ => Seq::empty(),
            }
        },
        None => Seq::empty(),
    }
}

/// The actions of a mouse event: the sidebar's when it takes the event,
/// else the conversation panel's.
pub open spec fn mouse_actions(m: AppModel, mouse: MouseEvent, frame: Rect) -> Seq<Action> {
    match sidebar_area(m, frame) {
        Some(a) => match sidebar_mouse(m, mouse, a) {
            Some(v) => v,
            None => panel_mouse(m, mouse),
        },
        None => panel_mouse(m, mouse),
    }
}

/// The mouse event is mapped without a 16-bit overflow: the sidebar's row
/// arithmetic fits when the sidebar takes a click or a move, and the panel
/// has room for its border when the panel is asked.
pub open spec fn mouse_in_range(m: AppModel, mouse: MouseEvent, frame: Rect) -> bool {
    let taken = match sidebar_area(m, frame) {
        Some(a) => sidebar_mouse(m, mouse, a) is Some,
        None => false,
    };
    &&& (match sidebar_area(m, frame) {
        Some(a) => rect_contains(a, mouse.column, mouse.row) && (mouse.kind == MouseEventKind::Down(
            MouseButton::Left,
        ) || mouse.kind == MouseEventKind::Moved) ==> a.y < 0xFFFF && (if mouse.row >= a.y + 1 {
            mouse.row - a.y - 1
        } else {
            0
        }) + m.sidebar.scroll * 3 <= 0xFFFF,
        None => true,
    })
    &&& (!taken ==> match m.chat.chat_area {
        Some(ca) => ca.x < 0xFFFF && ca.y < 0xFFFF,
        None => true,
    })
}

impl TuiApp {
    /// The sidebar's answer to a mouse event, if the sidebar takes it.
    fn sidebar_mouse_actions(&self, mouse: MouseEvent, a: Rect) -> (r: Option<Vec<Action>>)
        requires
            rect_contains(a, mouse.column, mouse.row) && (mouse.kind == MouseEventKind::Down(
                MouseButton::Left,
            ) || mouse.kind == MouseEventKind::Moved) ==> a.y < 0xFFFF && (if mouse.row >= a.y
                + 1 {
                mouse.row - a.y - 1
            } else {
                0
            }) + self.sidebar.scroll * 3 <= 0xFFFF,
        ensures
            match r {
                Some(v) => sidebar_mouse(self@, mouse, a) == Some(v@),
                None => sidebar_mouse(self@, mouse, a) is None,
            },
    {
        let inside = a.contains(mouse.column, mouse.row);
        match mouse.kind {
            MouseEventKind::Down(MouseButton::Left) => {
                if !inside {
                    return None;
                }
                let inner_y = mouse.row.saturating_sub(a.y + 1);
                let scrolled_y = inner_y + self.sidebar.scroll * SIDEBAR_ENTRY_HEIGHT;
                let idx = (scrolled_y / SIDEBAR_ENTRY_HEIGHT) as usize;
                if idx < self.session.session_list.len() {
                    Some(two(Action::SidebarHover(Some(idx)), Action::SelectSidebarSession))
                } else {
                    Some(no_actions())
                }
            },
            MouseEventKind::Moved => {
                if inside {
                    let inner_y = mouse.row.saturating_sub(a.y + 1);
                    let scrolled_y = inner_y + self.sidebar.scroll * SIDEBAR_ENTRY_HEIGHT;
                    let idx = (scrolled_y / SIDEBAR_ENTRY_HEIGHT) as usize;
                    if idx < self.session.session_list.len() {
                        return Some(one(Action::SidebarHover(Some(idx))));
                    }
                }
                Some(one(Action::SidebarHover(None)))
            },
            MouseEventKind::ScrollDown => if inside {
                Some(one(Action::SidebarScroll(1)))
            } else {
                None
            },
            MouseEventKind::ScrollUp => if inside {
                Some(one(Action::SidebarScroll(-1)))
            } else {
                None
            },
            _ => None,
        }
    }

    /// The conversation panel's answer to a mouse event.
    fn panel_mouse_actions(&self, mouse: MouseEvent) -> (r: Vec<Action>)
        requires
            match self.chat.chat_area {
                Some(ca) => ca.x < 0xFFFF && ca.y < 0xFFFF,
                None => true,
            },
        ensures
            r@ == panel_mouse(self@, mouse),
    {
        let ca = match self.chat.chat_area {
            Some(ca) => ca,
            None => {
                return no_actions();
            },
        };
        let inner = Rect {
            x: ca.x + 1,
            y: ca.y + 1,
            width: ca.width.saturating_sub(2),
            height: ca.height.saturating_sub(2),
        };
        let col0 = mouse.column.saturating_sub(inner.x);
        let colmax = inner.width.saturating_sub(1);
        let col = if col0 < colmax {
            col0
        } else {
            colmax
        };
        let row0 = mouse.row.saturating_sub(inner.y);
        let rowmax = inner.height.saturating_sub(1);
        let row = if row0 < rowmax {
            row0
        } else {
            rowmax
        };
        match mouse.kind {
            MouseEventKind::Down(MouseButton::Left) => if inner.contains(mouse.column, mouse.row) {
                one(Action::TextSelectionStart { row: mouse.row - inner.y, col: mouse.column - inner.x })
            } else {
                one(Action::TextSelectionClear)
            },
            MouseEventKind::Drag(MouseButton::Left) => if self.chat.text_selection.dragging {
                one(Action::TextSelectionDrag { row, col })
            } else {
                no_actions()
            },
            MouseEventKind::Up(MouseButton::Left) => if self.chat.text_selection.dragging {
                one(Action::TextSelectionEnd { row, col })
            } else {
                no_actions()
            },
            MouseEventKind::ScrollDown => if ca.contains(mouse.column, mouse.row) {
                two(Action::ScrollDown(3), Action::TextSelectionClear)
            } else {
                no_actions()
            },
            MouseEventKind::ScrollUp => if ca.contains(mouse.column, mouse.row) {
                two(Action::ScrollUp(3), Action::TextSelectionClear)
            } else {
                no_actions()
            },
            _ => no_actions(),
        }
    }

    /// The actions of a mouse event in a frame of size `frame_area` (see
    /// [`mouse_actions`]).
    pub fn map_mouse_event(&self, mouse: MouseEvent, frame_area: Rect) -> (r: Vec<Action>)
        requires
            mouse_in_range(self@, mouse, frame_area),
        ensures
            r@ == mouse_actions(self@, mouse, frame_area),
    {
        match self.compute_sidebar_area(frame_area) {
            Some(a) => match self.sidebar_mouse_actions(mouse, a) {
                Some(v) => v,
                None => self.panel_mouse_actions(mouse),
            },
            None => self.panel_mouse_actions(mouse),
        }
    }

    /// Whether [`map_mouse_event`](TuiApp::map_mouse_event) can take the
    /// event without a 16-bit overflow (see [`mouse_in_range`]).
    pub fn mouse_event_in_range(&self, mouse: MouseEvent, frame_area: Rect) -> (b: bool)
        ensures
            b == mouse_in_range(self@, mouse, frame_area),
    {
        let (first, taken) = match self.compute_sidebar_area(frame_area) {
            Some(a) => {
                let inside = a.contains(mouse.column, mouse.row);
                let click_or_move = match mouse.kind {
                    MouseEventKind::Down(MouseButton::Left) | MouseEventKind::Moved => true,
                    _ => false,
                };
                let fits = if inside && click_or_move {
                    if a.y < 0xFFFF {
                        let inner_y: u32 = if mouse.row >= a.y + 1 {
                            (mouse.row - a.y - 1) as u32
                        } else {
                            0
                        };
                        inner_y + (self.sidebar.scroll as u32) * 3 <= 0xFFFF
                    } else {
                        false
                    }
                } else {
                    true
                };
                let taken = match mouse.kind {
                    MouseEventKind::Down(MouseButton::Left) => inside,
                    MouseEventKind::Moved => true,
                    MouseEventKind::ScrollDown | MouseEventKind::ScrollUp => inside,
                    _ => false,
                };
                (fits, taken)
            },
            None => (true, false),
        };
        let second = if taken {
            true
        } else {
            match self.chat.chat_area {
                Some(ca) => ca.x < 0xFFFF && ca.y < 0xFFFF,
                None => true,
            }
        };
        first && second
    }
}

} // verus!
