//! Properties of the client that span several operations or hold of every
//! input.

use vstd::prelude::*;
use crate::action::{
    Action, backspaced, delete_confirmed, deletion_asked, key_forwarded, moved_left, moved_right,
    palette_completed, palette_lowered, selection_copied, sidebar_picked, typed, update_model,
};
use crate::events::{input_key_actions, key_actions};
use crate::app::{palette_closed, palette_up, push_message, with_state};
use crate::browse::sat_sub16;
use crate::input::{
    key_approval, key_copy, login_key, auth_cancelled, history_scrolled, key_state, sat_add16, sidebar_down_hover, sidebar_up_hover,
};
use crate::keys::{KeyCode, KeyEvent, is_ctrl_c};
use crate::wizard::web_key;
use crate::view::input_box;
use crate::app::{filter_names, palette_names, slash_command_names, slash_outcome};
use crate::browse::{
    clamp_to, filter_sessions, model_clamped, session_clamped, session_removed, sessions_for,
    sidebar_toggled, without_session,
};
use crate::catalog::browser_rows;
use crate::commands::{CredentialView, api_key_check};
use crate::editing::{char_deleted, char_inserted, cursor_index, cursor_moved_left, cursor_moved_right};
use crate::qr::qr_text_lines;
use crate::state::{AppModel, AppStateView, ChatModel, MessageView, Screen, SessionView, SidebarState, app_wf};
use crate::text::{
    ascii_lower_seq, char_index_of, char_width, has_prefix, has_ws, is_boundary, is_ws,
    lemma_boundary_index_unique, lemma_utf8_len_concat, lemma_utf8_len_push,
    lemma_utf8_len_take_le, lemma_utf8_len_take_strict, skip_ws_from, trim, trim_end_from,
    utf8_len,
};

verus! {

/// A text is handled as a local slash command exactly when, trimmed, it
/// starts with `/`.
pub proof fn law_slash_command_iff_slash_prefix(m: AppModel, raw: Seq<char>)
    ensures
        slash_outcome(m, raw).1 == has_prefix(trim(raw), "/"@),
{
}

/// An accepted API key is the trimmed input, not empty and without
/// whitespace, and checking it again accepts it unchanged.
pub proof fn law_api_key_accepted_is_clean(raw: Seq<char>)
    ensures
        api_key_check(raw) matches Ok(k) ==> {
            &&& k == trim(raw)
            &&& k.len() > 0
            &&& !has_ws(k)
            &&& api_key_check(k) == Ok::<Seq<char>, Seq<char>>(k)
        },
{
    if let Ok(k) = api_key_check(raw) {
        assert(!is_ws(k[0]));
        assert(skip_ws_from(k, 0) == 0);
        assert(k.skip(0) =~= k);
        assert(!is_ws(k[k.len() - 1]));
        assert(trim_end_from(k, k.len() as int) == k.len());
        assert(k.take(k.len() as int) =~= k);
        assert(trim(k) == k);
    }
}

/// A credential read back after it is stored is the one stored, and the
/// credentials of the other providers are unchanged.
pub proof fn law_credential_read_after_write(
    stored: Map<Seq<char>, CredentialView>,
    provider: Seq<char>,
    credential: CredentialView,
    other: Seq<char>,
)
    ensures
        stored.insert(provider, credential).contains_key(provider),
        stored.insert(provider, credential)[provider] == credential,
        other != provider ==> stored.insert(provider, credential).contains_key(other)
            == stored.contains_key(other),
        other != provider && stored.contains_key(other) ==> stored.insert(provider, credential)[other]
            == stored[other],
{
}

/// Moving the keyboard focus to the sidebar and back (or back and forth)
/// restores the focus; only the highlight may have been set.
pub proof fn law_sidebar_focus_toggle_twice(m: AppModel)
    requires
        m.sidebar.visible,
    ensures
        sidebar_toggled(sidebar_toggled(m)).sidebar.focused == m.sidebar.focused,
        sidebar_toggled(sidebar_toggled(m)).sidebar.visible,
        sidebar_toggled(sidebar_toggled(m)).sidebar.scroll == m.sidebar.scroll,
        sidebar_toggled(sidebar_toggled(m)).state == m.state,
        sidebar_toggled(sidebar_toggled(m)).chat == m.chat,
{
}

/// After clamping, the model browser's cursor is on one of its rows (or at
/// the top when it has none).
pub proof fn law_model_cursor_on_a_row(m: AppModel)
    requires
        m.state is ModelBrowsing,
    ensures
        model_clamped(m).state matches AppStateView::ModelBrowsing { query, cursor, .. } && ({
            let n = browser_rows(m.model.model_entries, query).len();
            &&& n == 0 ==> cursor == 0
            &&& n > 0 ==> cursor < n
        }),
{
}

/// After clamping, the session browser's cursor is on one of its rows (or
/// at the top when it has none).
pub proof fn law_session_cursor_on_a_row(m: AppModel)
    requires
        m.state is SessionBrowsing,
    ensures
        session_clamped(m).state matches AppStateView::SessionBrowsing { query, cursor, .. } && ({
            let n = sessions_for(m.session.session_list, query).len();
            &&& n == 0 ==> cursor == 0
            &&& n > 0 ==> cursor < n
        }),
{
}

/// A blank search lists every session, in order.
pub proof fn law_blank_search_lists_all_sessions(list: Seq<SessionView>, query: Seq<char>)
    requires
        trim(query).len() == 0,
    ensures
        sessions_for(list, query) == list,
{
}

/// Every name kept by a prefix filter starts with the prefix and is one of
/// the names filtered.
proof fn lemma_filter_names(s: Seq<Seq<char>>, q: Seq<char>)
    ensures
        forall|i: int| 0 <= i < filter_names(s, q).len() ==> has_prefix(
            #[trigger] filter_names(s, q)[i],
            q,
        ) && s.contains(filter_names(s, q)[i]),
    decreases s.len(),
{
    if s.len() > 0 {
        lemma_filter_names(s.drop_last(), q);
        assert forall|i: int| 0 <= i < filter_names(s, q).len() implies has_prefix(
            #[trigger] filter_names(s, q)[i],
            q,
        ) && s.contains(filter_names(s, q)[i]) by {
            let f = filter_names(s.drop_last(), q);
            if i < f.len() {
                assert(filter_names(s, q)[i] == f[i]);
                let j = choose|j: int| 0 <= j < s.drop_last().len() && s.drop_last()[j] == f[i];
                assert(s[j] == f[i]);
            } else {
                assert(filter_names(s, q)[i] == s.last());
                assert(s[s.len() - 1] == s.last());
            }
        }
    }
}

/// The command palette offers only commands whose names start with the
/// (ASCII-lowercased) input.
pub proof fn law_palette_offers_matching_commands(input: Seq<char>)
    ensures
        forall|i: int| 0 <= i < palette_names(input).len() ==> has_prefix(
            #[trigger] palette_names(input)[i],
            ascii_lower_seq(input),
        ) && slash_command_names().contains(palette_names(input)[i]),
{
    lemma_filter_names(slash_command_names(), ascii_lower_seq(input));
}

/// After a session is removed from the list, no listed session has its id.
pub proof fn law_removed_session_is_gone(list: Seq<SessionView>, id: Seq<char>)
    ensures
        forall|i: int| 0 <= i < without_session(list, id).len() ==> (#[trigger] without_session(
            list,
            id,
        )[i]).id != id,
    decreases list.len(),
{
    if list.len() > 0 {
        law_removed_session_is_gone(list.drop_last(), id);
        let w = without_session(list.drop_last(), id);
        assert forall|i: int| 0 <= i < without_session(list, id).len() implies (
        #[trigger] without_session(list, id)[i]).id != id by {
            if list.last().id != id && i == w.len() {
                assert(without_session(list, id)[i] == list.last());
            } else {
                assert(without_session(list, id)[i] == w[i]);
            }
        }
    }
}

/// After a session is removed from the list, the sidebar highlight, if
/// any, is on a listed session.
pub proof fn law_removal_keeps_hover_on_a_row(m: AppModel, id: Seq<char>)
    ensures
        session_removed(m, id).sidebar.hover matches Some(h) ==> h < session_removed(
            m,
            id,
        ).session.session_list.len(),
{
}

/// While an API key is typed, the input box shows one `*` per typed
/// character and none of the key.
pub proof fn law_typed_key_is_masked(m: AppModel)
    requires
        m.state is AuthPrompting,
        m.chat.input.len() > 0,
    ensures
        input_box(m).text.len() == m.chat.input.len(),
        forall|i: int| 0 <= i < input_box(m).text.len() ==> #[trigger] input_box(m).text[i] == '*',
{
}

/// A QR code `w` modules wide is drawn as `(w + 1) / 2` lines of `w`
/// characters.
pub proof fn law_qr_lines_shape(w: nat, dark: Seq<bool>)
    ensures
        qr_text_lines(w, dark).len() == (w + 1) / 2,
        forall|k: int| 0 <= k < (w + 1) / 2 ==> (#[trigger] qr_text_lines(w, dark)[k]).len() == w,
{
}

/// The character index of a boundary of the input, with its byte offset.
proof fn lemma_cursor(s: Seq<char>, n: int)
    requires
        is_boundary(s, n),
    ensures
        0 <= char_index_of(s, n) <= s.len(),
        utf8_len(s.take(char_index_of(s, n))) == n,
{
}

/// Moving the input cursor left and then right puts it back, when it was
/// not at the start.
pub proof fn law_cursor_left_then_right(m: AppModel)
    requires
        app_wf(m),
        m.chat.cursor_pos > 0,
    ensures
        cursor_moved_right(cursor_moved_left(m)) == m,
{
    let s = m.chat.input;
    lemma_cursor(s, m.chat.cursor_pos as int);
    let k = cursor_index(m);
    if k == 0 {
        assert(s.take(0) =~= Seq::<char>::empty());
        assert(utf8_len(s.take(0)) == 0);
    }
    assert(k > 0);
    let m1 = cursor_moved_left(m);
    let p = utf8_len(s.take(k - 1));
    lemma_utf8_len_take_strict(s, k - 1, k);
    assert(m1.chat.cursor_pos == p);
    assert(is_boundary(s, p as int));
    lemma_cursor(s, p as int);
    lemma_boundary_index_unique(s, cursor_index(m1), k - 1);
    assert(cursor_index(m1) == k - 1);
    lemma_utf8_len_take_le(s, k);
    assert(m1.chat.cursor_pos < utf8_len(s));
    assert(cursor_moved_right(m1).chat.cursor_pos == m.chat.cursor_pos);
    assert(cursor_moved_right(m1).chat =~= m.chat);
}

/// Moving the input cursor right and then left puts it back, when it was
/// not at the end.
pub proof fn law_cursor_right_then_left(m: AppModel)
    requires
        app_wf(m),
        m.chat.cursor_pos < utf8_len(m.chat.input),
    ensures
        cursor_moved_left(cursor_moved_right(m)) == m,
{
    let s = m.chat.input;
    lemma_cursor(s, m.chat.cursor_pos as int);
    let k = cursor_index(m);
    if k == s.len() {
        assert(s.take(k) =~= s);
    }
    assert(k < s.len());
    let m1 = cursor_moved_right(m);
    let p = utf8_len(s.take(k + 1));
    lemma_utf8_len_take_strict(s, k, k + 1);
    assert(m1.chat.cursor_pos == p);
    assert(is_boundary(s, p as int));
    lemma_cursor(s, p as int);
    lemma_boundary_index_unique(s, cursor_index(m1), k + 1);
    assert(cursor_index(m1) == k + 1);
    assert(cursor_moved_left(m1).chat.cursor_pos == m.chat.cursor_pos);
    assert(cursor_moved_left(m1).chat =~= m.chat);
}

/// Typing a character and deleting it with Backspace gives back the input
/// and the cursor (the palette highlight goes back to the top).
pub proof fn law_type_then_backspace(m: AppModel, c: char)
    requires
        app_wf(m),
    ensures
        char_deleted(char_inserted(m, c)) == (AppModel { command_palette_cursor: 0, ..m }),
{
    let s = m.chat.input;
    lemma_cursor(s, m.chat.cursor_pos as int);
    let k = cursor_index(m);
    let m1 = char_inserted(m, c);
    let t = s.take(k) + seq![c] + s.skip(k);
    assert(m1.chat.input == t);
    assert(t.take(k + 1) =~= s.take(k).push(c));
    assert(t.take(k) =~= s.take(k));
    lemma_utf8_len_push(s.take(k), c);
    lemma_utf8_len_take_le(s, k);
    assert(m.chat.cursor_pos + char_width(c) <= usize::MAX);
    assert(m1.chat.cursor_pos == utf8_len(t.take(k + 1)));
    assert(is_boundary(t, m1.chat.cursor_pos as int));
    lemma_cursor(t, m1.chat.cursor_pos as int);
    lemma_boundary_index_unique(t, cursor_index(m1), k + 1);
    assert(cursor_index(m1) == k + 1);
    assert(m1.chat.cursor_pos > 0);
    let m2 = char_deleted(m1);
    assert(t.take(k) + t.skip(k + 1) =~= s);
    assert(m2.chat =~= m.chat);
}

// ─── Keys through actions ───────────────────────────────────────────────────

/// The state after applying `acts` to `m`, in order.
pub open spec fn apply_actions(m: AppModel, acts: Seq<Action>) -> AppModel
    decreases acts.len(),
{
    if acts.len() == 0 {
        m
    } else {
        apply_actions(update_model(m, acts[0]).0, acts.drop_first())
    }
}

proof fn lemma_apply_none(m: AppModel)
    ensures
        apply_actions(m, Seq::empty()) == m,
{
}

proof fn lemma_apply_one(m: AppModel, a: Action)
    ensures
        apply_actions(m, seq![a]) == update_model(m, a).0,
{
    assert(seq![a].drop_first() =~= Seq::<Action>::empty());
    lemma_apply_none(update_model(m, a).0);
}

/// The state change of each action a key press maps to.
proof fn lemma_update_state(m: AppModel, a: Action)
    ensures
        ({
            let r = update_model(m, a).0;
            &&& a is CloseQrCode || a is CancelDelete ==> r == with_state(m, AppStateView::Idle)
            &&& a is ConfirmDelete ==> r == delete_confirmed(m).0
            &&& a matches Action::SidebarHover(h) ==> r == (AppModel {
                sidebar: SidebarState { hover: h, ..m.sidebar },
                ..m
            })
            &&& a is SelectSidebarSession ==> r == sidebar_picked(m).0
            &&& a is RequestDeleteSession ==> r == deletion_asked(m)
            &&& a is ToggleSidebarFocus ==> r == sidebar_toggled(m)
            &&& a is WhatsAppSetupCancel ==> r == push_message(
                with_state(m, AppStateView::Idle),
                MessageView::Assistant("WhatsApp pairing cancelled."@),
            )
            &&& a matches Action::LoginBrowserKey(k) ==> r == key_forwarded(m, k).0
            &&& a matches Action::ModelBrowserKey(k) ==> r == key_forwarded(m, k).0
            &&& a matches Action::SessionBrowserKey(k) ==> r == key_forwarded(m, k).0
            &&& a is TextSelectionCopy ==> r == selection_copied(m).0
            &&& a is PaletteClose ==> r == palette_closed(m)
            &&& a is Quit ==> r == (AppModel { should_quit: true, ..m })
            &&& a is CancelAuth ==> r == auth_cancelled(m)
            &&& a is PaletteTabComplete ==> r == palette_completed(m)
            &&& a is SubmitInput ==> r == (AppModel { screen: Screen::Chat, ..m })
            &&& a matches Action::InsertChar(c) ==> r == typed(m, c)
            &&& a is DeleteChar ==> r == backspaced(m)
            &&& a is MoveCursorLeft ==> r == moved_left(m)
            &&& a is MoveCursorRight ==> r == moved_right(m)
            &&& a is PaletteMoveUp ==> r == palette_up(m)
            &&& a is PaletteMoveDown ==> r == palette_lowered(m)
            &&& a matches Action::ScrollUp(n) ==> r == history_scrolled(
                m,
                sat_sub16(m.chat.history_scroll, n),
            )
            &&& a matches Action::ScrollDown(n) ==> r == history_scrolled(
                m,
                sat_add16(m.chat.history_scroll, n),
            )
        }),
{
    reveal(update_model);
}

proof fn lemma_apply_two(m: AppModel, a: Action, b: Action)
    ensures
        apply_actions(m, seq![a, b]) == update_model(update_model(m, a).0, b).0,
{
    assert(seq![a, b].drop_first() =~= seq![b]);
    lemma_apply_one(update_model(m, a).0, b);
}

/// The mode of a key press outside the input box and the sidebar.
proof fn lemma_keys_modal(m: AppModel, key: KeyEvent)
    requires
        m.chat.pending_approval is None,
        !(m.state is QrCodeDisplay || m.state is ConfirmDelete),
        !(m.sidebar.focused && m.state is Idle),
        m.state is LoginBrowsing || m.state is ModelBrowsing || m.state is SessionBrowsing
            || m.state is WhatsAppSetup,
    ensures
        apply_actions(m, key_actions(m, key)) == key_state(m, key),
{
    reveal(key_forwarded);
    if m.state is WhatsAppSetup {
        if key.code == KeyCode::Esc {
            lemma_apply_one(m, Action::WhatsAppSetupCancel);
            lemma_update_state(m, Action::WhatsAppSetupCancel);
        } else {
            lemma_apply_none(m);
        }
    } else if m.state is LoginBrowsing {
        lemma_apply_one(m, Action::LoginBrowserKey(key));
        lemma_update_state(m, Action::LoginBrowserKey(key));
    } else if m.state is ModelBrowsing {
        lemma_apply_one(m, Action::ModelBrowserKey(key));
        lemma_update_state(m, Action::ModelBrowserKey(key));
    } else {
        lemma_apply_one(m, Action::SessionBrowserKey(key));
        lemma_update_state(m, Action::SessionBrowserKey(key));
    }
}

/// The QR code overlay and the delete confirmation.
proof fn lemma_keys_overlays(m: AppModel, key: KeyEvent)
    requires
        m.chat.pending_approval is None,
        m.state is QrCodeDisplay || m.state is ConfirmDelete,
    ensures
        apply_actions(m, key_actions(m, key)) == key_state(m, key),
{
    reveal(delete_confirmed);
    if m.state is QrCodeDisplay {
        if key.code == KeyCode::Esc || key.code == KeyCode::Enter || key.code == KeyCode::Char('q') {
            lemma_apply_one(m, Action::CloseQrCode);
            lemma_update_state(m, Action::CloseQrCode);
        } else {
            lemma_apply_none(m);
        }
    } else {
        if key.code == KeyCode::Char('y') || key.code == KeyCode::Enter {
            lemma_apply_one(m, Action::ConfirmDelete);
            lemma_update_state(m, Action::ConfirmDelete);
        } else if key.code == KeyCode::Char('n') || key.code == KeyCode::Esc {
            lemma_apply_one(m, Action::CancelDelete);
            lemma_update_state(m, Action::CancelDelete);
        } else {
            lemma_apply_none(m);
        }
    }
}

/// Keys while the sidebar has the focus.
proof fn lemma_keys_sidebar(m: AppModel, key: KeyEvent)
    requires
        m.chat.pending_approval is None,
        !(m.state is QrCodeDisplay || m.state is ConfirmDelete),
        m.sidebar.focused && m.state is Idle,
        m.sidebar.visible,
    ensures
        apply_actions(m, key_actions(m, key)) == key_state(m, key),
{
    reveal(sidebar_picked);
    reveal(deletion_asked);
    if key.code == KeyCode::Char('j') || key.code == KeyCode::Down {
        lemma_apply_one(m, Action::SidebarHover(Some(sidebar_down_hover(m))));
        lemma_update_state(m, Action::SidebarHover(Some(sidebar_down_hover(m))));
    } else if key.code == KeyCode::Char('k') || key.code == KeyCode::Up {
        lemma_apply_one(m, Action::SidebarHover(Some(sidebar_up_hover(m))));
        lemma_update_state(m, Action::SidebarHover(Some(sidebar_up_hover(m))));
    } else if key.code == KeyCode::Enter {
        lemma_apply_one(m, Action::SelectSidebarSession);
        lemma_update_state(m, Action::SelectSidebarSession);
    } else if key.code == KeyCode::Char('d') || key.code == KeyCode::Delete {
        lemma_apply_one(m, Action::RequestDeleteSession);
        lemma_update_state(m, Action::RequestDeleteSession);
    } else if key.code == KeyCode::Esc || key.code == KeyCode::Tab {
        lemma_apply_two(m, Action::SidebarHover(m.sidebar.hover), Action::ToggleSidebarFocus);
        lemma_update_state(m, Action::SidebarHover(m.sidebar.hover));
        let m1 = update_model(m, Action::SidebarHover(m.sidebar.hover)).0;
        assert(m1 == m);
        lemma_update_state(m1, Action::ToggleSidebarFocus);
    } else {
        lemma_apply_none(m);
    }
}

/// Keys in the general input mode.
proof fn lemma_keys_input(m: AppModel, key: KeyEvent)
    requires
        m.chat.pending_approval is None,
        !(m.state is QrCodeDisplay || m.state is ConfirmDelete),
        !(m.sidebar.focused && m.state is Idle),
        !(m.state is LoginBrowsing || m.state is ModelBrowsing || m.state is SessionBrowsing
            || m.state is WhatsAppSetup || m.state is WebConfiguring),
    ensures
        apply_actions(m, key_actions(m, key)) == key_state(m, key),
{
    reveal(typed);
    reveal(backspaced);
    reveal(moved_left);
    reveal(moved_right);
    reveal(palette_lowered);
    reveal(palette_completed);
    reveal(selection_copied);
    let acts = input_key_actions(m, key);
    assert(key_actions(m, key) == acts);
    if acts.len() == 0 {
        lemma_apply_none(m);
    } else {
        assert(acts.len() == 1);
        lemma_apply_one(m, acts[0]);
        lemma_update_state(m, acts[0]);
        assert(acts =~= seq![acts[0]]);
    }
}

/// Mapping a key press to actions and applying them with
/// [`update_model`](crate::action::update_model) changes the state as
/// handling the key press directly does — when no tool call waits for
/// approval (the approval prompt takes keys outside the actions), the web
/// setup wizard is not open (its keys go to the wizard only as actions),
/// and the sidebar has the focus only while it is shown.
pub proof fn law_keys_through_actions(m: AppModel, key: KeyEvent)
    requires
        m.chat.pending_approval is None,
        !(m.state is WebConfiguring),
        m.sidebar.focused ==> m.sidebar.visible,
    ensures
        apply_actions(m, key_actions(m, key)) == key_state(m, key),
{
    if m.state is QrCodeDisplay || m.state is ConfirmDelete {
        lemma_keys_overlays(m, key);
    } else if m.sidebar.focused && m.state is Idle {
        lemma_keys_sidebar(m, key);
    } else if m.state is LoginBrowsing || m.state is ModelBrowsing || m.state is SessionBrowsing
        || m.state is WhatsAppSetup {
        lemma_keys_modal(m, key);
    } else {
        lemma_keys_input(m, key);
    }
}

// ─── Leaving modes ──────────────────────────────────────────────────────────

/// Ctrl+C closes the login picker at every step, saying so.
pub proof fn law_ctrl_c_cancels_login(m: AppModel, key: KeyEvent)
    requires
        m.state is LoginBrowsing,
        is_ctrl_c(key),
    ensures
        login_key(m, key) == push_message(
            with_state(m, AppStateView::Idle),
            MessageView::Assistant("Login cancelled."@),
        ),
{
}

/// Esc (or Ctrl+C) closes the web setup wizard at every step without
/// saving settings.
pub proof fn law_escape_cancels_web_setup(m: AppModel, key: KeyEvent)
    requires
        m.state is WebConfiguring,
        key.code == KeyCode::Esc || is_ctrl_c(key),
    ensures
        web_key(m, key) == push_message(
            with_state(m, AppStateView::Idle),
            MessageView::Assistant("Web setup cancelled."@),
        ),
        web_key(m, key).pending_web_config == m.pending_web_config,
{
}

/// While a tool call waits for approval, a key either decides (and the
/// request is answered and dropped) or changes nothing.
pub proof fn law_approval_keys(m: AppModel, key: KeyEvent)
    requires
        !(m.state is QrCodeDisplay),
        m.chat.pending_approval is Some,
    ensures
        key_approval(m, key) is Some ==> key_state(m, key) == (AppModel {
            chat: ChatModel { pending_approval: None, ..m.chat },
            ..m
        }),
        key_approval(m, key) is None ==> key_state(m, key) == m,
        key_copy(m, key) is None,
{
}

} // verus!
