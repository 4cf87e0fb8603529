//! The web adapter setup wizard: six steps asking whether to enable the
//! adapter, its token, port, CORS origins and static directory, then a
//! confirmation that hands the settings to the event loop.

use vstd::prelude::*;
use crate::app::{push_message, with_state};
use crate::input::popped;
use crate::keys::{KeyCode, KeyEvent, is_ctrl_c, key_is_ctrl_c};
use crate::state::{
    AppModel, AppState, AppStateView, MessageView, TuiApp, WebConfig, WebConfigStep, WebConfigView,
    WebConfiguringState, WebView,
};
use crate::text::{concat3, copy_str, parse_u16, parse_u16_str, pop_char, push_char};

verus! {

/// One step of the wizard: its new state, the message it prints, whether it
/// closes, and the settings it saves.
pub struct WebStep {
    pub view: WebView,
    pub message: Option<Seq<char>>,
    pub close: bool,
    pub config: Option<WebConfigView>,
}

/// A step that stays open, printing `message`.
pub open spec fn web_stay(view: WebView, message: Option<Seq<char>>) -> WebStep {
    WebStep { view, message, close: false, config: None }
}

/// Port used when the typed port is not a number.
pub const DEFAULT_WEB_PORT: u16 = 3210;

/// The summary shown at the confirmation step.
pub open spec fn web_summary(w: WebView) -> Seq<char> {
    "Step 6/6: Confirm settings?\nenabled: "@ + (if w.enabled {
        "true"@
    } else {
        "false"@
    }) + "\ntoken: "@ + (if w.token.len() == 0 {
        "(none)"@
    } else {
        w.token
    }) + "\nport: "@ + w.port + "\ncors_origins: "@ + w.cors_origins + "\nstatic_dir: "@
        + w.static_dir + "\nSave? (y/n)"@
}

/// The settings the wizard saves.
pub open spec fn web_settings(w: WebView) -> WebConfigView {
    WebConfigView {
        enabled: w.enabled,
        token: w.token,
        port: match parse_u16(w.port) {
            Some(p) => p,
            None => DEFAULT_WEB_PORT,
        },
        cors_origins: w.cors_origins,
        static_dir: w.static_dir,
    }
}

/// Editing the text of a step: characters are typed, Backspace deletes.
pub open spec fn web_edit(w: WebView, key: KeyEvent) -> WebStep {
    match key.code {
        KeyCode::Char(c) => web_stay(WebView { input_buffer: w.input_buffer.push(c), ..w }, None),
        KeyCode::Backspace => web_stay(WebView { input_buffer: popped(w.input_buffer), ..w }, None),
        _ => web_stay(w, None),
    }
}

/// One key in the wizard.
pub open spec fn web_transition(w: WebView, key: KeyEvent) -> WebStep {
    if key.code == KeyCode::Esc || is_ctrl_c(key) {
        WebStep { view: w, message: Some("Web setup cancelled."@), close: true, config: None }
    } else {
        match w.step {
            WebConfigStep::Enable => if key.code == KeyCode::Char('y') || key.code == KeyCode::Char(
                'Y',
            ) || key.code == KeyCode::Char('n') || key.code == KeyCode::Char('N') {
                web_stay(
                    WebView {
                        enabled: key.code == KeyCode::Char('y') || key.code == KeyCode::Char('Y'),
                        step: WebConfigStep::Token,
                        input_buffer: w.token,
                        ..w
                    },
                    Some("Step 2/6: Auth token (leave empty for none):"@),
                )
            } else {
                web_stay(w, None)
            },
            WebConfigStep::Token => if key.code == KeyCode::Enter {
                web_stay(
                    WebView {
                        token: w.input_buffer,
                        step: WebConfigStep::Port,
                        input_buffer: w.port,
                        ..w
                    },
                    Some("Step 3/6: HTTP/WS port (default 3210):"@),
                )
            } else {
                web_edit(w, key)
            },
            WebConfigStep::Port => if key.code == KeyCode::Enter {
                web_stay(
                    WebView {
                        port: w.input_buffer,
                        step: WebConfigStep::CorsOrigins,
                        input_buffer: w.cors_origins,
                        ..w
                    },
                    Some("Step 4/6: CORS origins (comma-separated, or \"*\"):"@),
                )
            } else {
                web_edit(w, key)
            },
            WebConfigStep::CorsOrigins => if key.code == KeyCode::Enter {
                web_stay(
                    WebView {
                        cors_origins: w.input_buffer,
                        step: WebConfigStep::StaticDir,
                        input_buffer: w.static_dir,
                        ..w
                    },
                    Some("Step 5/6: Static file directory:"@),
                )
            } else {
                web_edit(w, key)
            },
            WebConfigStep::StaticDir => if key.code == KeyCode::Enter {
                let w2 = WebView { static_dir: w.input_buffer, ..w };
                web_stay(
                    WebView { step: WebConfigStep::Confirm, input_buffer: Seq::empty(), ..w2 },
                    Some(web_summary(w2)),
                )
            } else {
                web_edit(w, key)
            },
            WebConfigStep::Confirm => if key.code == KeyCode::Char('y') || key.code
                == KeyCode::Char('Y') || key.code == KeyCode::Enter {
                WebStep {
                    view: w,
                    message: Some("Web config saved."@),
                    close: true,
                    config: Some(web_settings(w)),
                }
            } else if key.code == KeyCode::Char('n') || key.code == KeyCode::Char('N') {
                WebStep { view: w, message: Some("Web setup cancelled."@), close: true, config: None }
            } else {
                web_stay(w, None)
            },
        }
    }
}

/// A key forwarded to the wizard: nothing outside the wizard.
pub open spec fn web_key(m: AppModel, key: KeyEvent) -> AppModel {
    match m.state {
        AppStateView::WebConfiguring(w) => {
            let st = web_transition(w, key);
            let m1 = if st.close {
                with_state(m, AppStateView::Idle)
            } else {
                with_state(m, AppStateView::WebConfiguring(st.view))
            };
            let m2 = match st.config {
                Some(c) => AppModel { pending_web_config: Some(c), ..m1 },
                None => m1,
            };
            match st.message {
                Some(t) => push_message(m2, MessageView::Assistant(t)),
                None => m2,
            }
        },
        _ => m,
    }
}

/// The summary of the confirmation step.
fn summary_text(w: &WebConfiguringState) -> (r: String)
    ensures
        r@ == web_summary(w@),
{
    let enabled = if w.enabled {
        "true"
    } else {
        "false"
    };
    let token = if w.token.as_str().is_empty() {
        "(none)"
    } else {
        w.token.as_str()
    };
    let a = concat3("Step 6/6: Confirm settings?\nenabled: ", enabled, "\ntoken: ");
    let b = concat3(a.as_str(), token, "\nport: ");
    let c = concat3(b.as_str(), w.port.as_str(), "\ncors_origins: ");
    let d = concat3(c.as_str(), w.cors_origins.as_str(), "\nstatic_dir: ");
    let r = concat3(d.as_str(), w.static_dir.as_str(), "\nSave? (y/n)");
    proof {
        if w.enabled {
            assert(enabled@ == "true"@);
        } else {
            assert(enabled@ == "false"@);
        }
        if w.token@.len() == 0 {
            assert(token@ == "(none)"@);
        } else {
            assert(token@ == w.token@);
        }
    }
    r
}

/// Edits the text of a step.
fn edit_step(w: &mut WebConfiguringState, key: KeyEvent)
    ensures
        final(w)@ == web_edit(old(w)@, key).view,
{
    match key.code {
        KeyCode::Char(c) => {
            push_char(&mut w.input_buffer, c);
        },
        KeyCode::Backspace => {
            pop_char(&mut w.input_buffer);
        },
        _ => {},
    }
}

/// One key in the wizard: updates `w` and returns the message to print,
/// whether the wizard closes, and the settings it saves.
fn web_step(w: &mut WebConfiguringState, key: KeyEvent) -> (r: (
    Option<String>,
    bool,
    Option<WebConfig>,
))
    ensures
        ({
            let st = web_transition(old(w)@, key);
            &&& !st.close ==> final(w)@ == st.view
            &&& r.1 == st.close
            &&& match r.0 {
                Some(t) => st.message == Some(t@),
                None => st.message is None,
            }
            &&& match r.2 {
                Some(c) => st.config == Some(c@),
                None => st.config is None,
            }
        }),
{
    if key.code == KeyCode::Esc || key_is_ctrl_c(key) {
        return (Some(copy_str("Web setup cancelled.")), true, None);
    }
    match w.step {
        WebConfigStep::Enable => {
            if key.code == KeyCode::Char('y') || key.code == KeyCode::Char('Y') || key.code
                == KeyCode::Char('n') || key.code == KeyCode::Char('N') {
                w.enabled = key.code == KeyCode::Char('y') || key.code == KeyCode::Char('Y');
                w.step = WebConfigStep::Token;
                w.input_buffer = copy_str(w.token.as_str());
                return (Some(copy_str("Step 2/6: Auth token (leave empty for none):")), false, None);
            }
            (None, false, None)
        },
        WebConfigStep::Token => {
            if key.code == KeyCode::Enter {
                w.token = copy_str(w.input_buffer.as_str());
                w.step = WebConfigStep::Port;
                w.input_buffer = copy_str(w.port.as_str());
                return (Some(copy_str("Step 3/6: HTTP/WS port (default 3210):")), false, None);
            }
            edit_step(w, key);
            (None, false, None)
        },
        WebConfigStep::Port => {
            if key.code == KeyCode::Enter {
                w.port = copy_str(w.input_buffer.as_str());
                w.step = WebConfigStep::CorsOrigins;
                w.input_buffer = copy_str(w.cors_origins.as_str());
                return (
                    Some(copy_str("Step 4/6: CORS origins (comma-separated, or \"*\"):")),
                    false,
                    None,
                );
            }
            edit_step(w, key);
            (None, false, None)
        },
        WebConfigStep::CorsOrigins => {
            if key.code == KeyCode::Enter {
                w.cors_origins = copy_str(w.input_buffer.as_str());
                w.step = WebConfigStep::StaticDir;
                w.input_buffer = copy_str(w.static_dir.as_str());
                return (Some(copy_str("Step 5/6: Static file directory:")), false, None);
            }
            edit_step(w, key);
            (None, false, None)
        },
        WebConfigStep::StaticDir => {
            if key.code == KeyCode::Enter {
                w.static_dir = copy_str(w.input_buffer.as_str());
                let summary = summary_text(w);
                w.step = WebConfigStep::Confirm;
                w.input_buffer = String::new();
                return (Some(summary), false, None);
            }
            edit_step(w, key);
            (None, false, None)
        },
        WebConfigStep::Confirm => {
            if key.code == KeyCode::Char('y') || key.code == KeyCode::Char('Y') || key.code
                == KeyCode::Enter {
                let port = match parse_u16_str(w.port.as_str()) {
                    Some(p) => p,
                    None => DEFAULT_WEB_PORT,
                };
                let cfg = WebConfig {
                    enabled: w.enabled,
                    token: copy_str(w.token.as_str()),
                    port,
                    cors_origins: copy_str(w.cors_origins.as_str()),
                    static_dir: copy_str(w.static_dir.as_str()),
                };
                return (Some(copy_str("Web config saved.")), true, Some(cfg));
            }
            if key.code == KeyCode::Char('n') || key.code == KeyCode::Char('N') {
                return (Some(copy_str("Web setup cancelled.")), true, None);
            }
            (None, false, None)
        },
    }
}

impl TuiApp {
    /// A key forwarded to the web setup wizard (see [`web_key`]); nothing
    /// happens outside the wizard.
    pub fn handle_web_config_key(&mut self, key: KeyEvent)
        ensures
            final(self)@ == web_key(old(self)@, key),
    {
        let (message, close, config) = match &mut self.state {
            AppState::WebConfiguring(w) => web_step(w, key),
            _ => {
                return;
            },
        };
        if close {
            self.state = AppState::Idle;
        }
        match config {
            Some(c) => {
                self.pending_web_config = Some(c);
            },
            None => {},
        }
        match message {
            Some(t) => {
                self.push_assistant(t);
            },
            None => {},
        }
    }
}

} // verus!
