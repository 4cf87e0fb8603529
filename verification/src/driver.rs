//! The event loop's decisions: what submitting the input starts, when the
//! model catalog is reloaded, and how a loaded catalog or a finished login
//! is shown. The loop itself performs what these functions ask for.

use vstd::prelude::*;
use crate::app::{clear_input, push_message, scrolled_to_bottom, slash_outcome, with_state};
use crate::browse::{model_browser_opened, refreshing_marked};
use crate::catalog::{EntryView, ModelCatalogEntry, entry_views};
use crate::commands::{ModelsCommand, ModelsCommandView, format_model_list, model_list_text, models_command, parse_models_command};
use crate::state::{AppModel, AppState, AppStateView, MessageView, ModelInfo, TuiApp, app_wf};
use crate::text::{concat2, concat3, copy_str, join, string_views};

verus! {

/// How a loaded model catalog is shown.
#[derive(Debug, Clone, PartialEq, Eq)]
pub enum CatalogRequest {
    /// In the model browser, searching the given text.
    Browse(String),
    /// As a list printed to the conversation.
    List,
}

/// The mathematical content of a [`CatalogRequest`].
pub enum CatalogRequestView {
    Browse(Seq<char>),
    List,
}

impl View for CatalogRequest {
    type V = CatalogRequestView;

    open spec fn view(&self) -> CatalogRequestView {
        match self {
            CatalogRequest::Browse(q) => CatalogRequestView::Browse(q@),
            CatalogRequest::List => CatalogRequestView::List,
        }
    }
}

/// What submitting the input starts.
#[derive(Debug, Clone, PartialEq, Eq)]
pub enum Submission {
    /// Load the model catalog, to be shown as requested.
    LoadCatalog(CatalogRequest),
    /// Run the agent on the message.
    RunAgent(String),
    /// Nothing more: the input was a command handled here.
    Handled,
}

/// The mathematical content of a [`Submission`].
pub enum SubmissionView {
    LoadCatalog(CatalogRequestView),
    RunAgent(Seq<char>),
    Handled,
}

impl View for Submission {
    type V = SubmissionView;

    open spec fn view(&self) -> SubmissionView {
        match self {
            Submission::LoadCatalog(r) => SubmissionView::LoadCatalog(r@),
            Submission::RunAgent(t) => SubmissionView::RunAgent(t@),
            Submission::Handled => SubmissionView::Handled,
        }
    }
}

/// The error shown when the catalog is asked for while it is loading.
pub open spec fn catalog_busy() -> Seq<char> {
    "Model sync is already in progress. Please wait."@
}

/// Submitting a `/model` command `c` with the input box already emptied.
#[verifier::opaque]
pub open spec fn model_submitted(m: AppModel, c: ModelsCommandView, provider: Seq<char>, loading: bool) -> (
    AppModel,
    Option<SubmissionView>,
) {
    if loading {
        (
            scrolled_to_bottom(push_message(m, MessageView::Error(catalog_busy()))),
            Some(SubmissionView::Handled),
        )
    } else {
        match c {
            ModelsCommandView::Browse => (
                scrolled_to_bottom(
                    model_browser_opened(m, provider, Seq::empty(), Seq::empty(), "Loading models..."@),
                ),
                Some(SubmissionView::LoadCatalog(CatalogRequestView::Browse(Seq::empty()))),
            ),
            ModelsCommandView::List => (
                scrolled_to_bottom(
                    push_message(m, MessageView::Assistant("Fetching model list\u{2026}"@)),
                ),
                Some(SubmissionView::LoadCatalog(CatalogRequestView::List)),
            ),
            ModelsCommandView::Invalid(t) => (
                scrolled_to_bottom(push_message(m, MessageView::Error(t))),
                Some(SubmissionView::Handled),
            ),
        }
    }
}

/// Submitting `msg`, not a `/model` command, with the input box already
/// emptied: a slash command is run here, anything else goes to the agent.
#[verifier::opaque]
pub open spec fn text_submitted(m: AppModel, msg: Seq<char>) -> (AppModel, Option<SubmissionView>) {
    let (m2, slash) = slash_outcome(m, msg);
    if slash {
        (scrolled_to_bottom(m2), Some(SubmissionView::Handled))
    } else {
        (
            scrolled_to_bottom(
                with_state(
                    push_message(m, MessageView::User(msg)),
                    AppStateView::Thinking { round: 0 },
                ),
            ),
            Some(SubmissionView::RunAgent(msg)),
        )
    }
}

/// Submitting the input of `m`, with `provider` in use and the catalog
/// loading or not: nothing unless nothing runs and the input is not empty;
/// else the input is taken and is a `/model` command, another slash
/// command, or a message for the agent.
pub open spec fn submitted(m: AppModel, provider: Seq<char>, loading: bool) -> (
    AppModel,
    Option<SubmissionView>,
) {
    if !(m.state is Idle && m.chat.input.len() > 0) {
        (m, None)
    } else {
        match models_command(m.chat.input) {
            Some(c) => model_submitted(clear_input(m), c, provider, loading),
            None => text_submitted(clear_input(m), m.chat.input),
        }
    }
}

/// The provider named by the sync statuses of a loaded catalog: the text
/// before the first `:` of the only status, or `multi`.
pub open spec fn catalog_label(statuses: Seq<Seq<char>>) -> Seq<char> {
    if statuses.len() == 1 {
        let s = statuses[0];
        match first_colon(s) {
            Some(k) => s.take(k),
            None => s,
        }
    } else {
        "multi"@
    }
}

/// Index of the first `:` of `s`.
pub open spec fn first_colon(s: Seq<char>) -> Option<int>
    decreases s.len(),
{
    if s.len() == 0 {
        None
    } else if s[0] == ':' {
        Some(0)
    } else {
        match first_colon(s.drop_first()) {
            Some(k) => Some(k + 1),
            None => None,
        }
    }
}

/// Showing a loaded catalog of `entries` with sync statuses `statuses`, as
/// `request` asks, scrolled to the newest message.
pub open spec fn catalog_shown(
    m: AppModel,
    request: Option<CatalogRequestView>,
    entries: Seq<EntryView>,
    statuses: Seq<Seq<char>>,
) -> AppModel {
    let m1 = match request {
        Some(CatalogRequestView::Browse(q)) => model_browser_opened(
            m,
            catalog_label(statuses),
            entries,
            q,
            join(statuses, " | "@),
        ),
        Some(CatalogRequestView::List) => push_message(
            m,
            MessageView::Assistant(model_list_text(entries, statuses)),
        ),
        None => m,
    };
    scrolled_to_bottom(m1)
}

/// The end of a login task: its message or its error, back to idle.
pub open spec fn auth_finished(m: AppModel, result: Result<Seq<char>, Seq<char>>) -> AppModel {
    let msg = match result {
        Ok(t) => MessageView::Assistant(t),
        Err(e) => MessageView::Error("Authentication failed: "@ + e),
    };
    scrolled_to_bottom(with_state(push_message(m, msg), AppStateView::Idle))
}

/// The text before the first `:` of `s`.
fn before_colon(s: &str) -> (r: String)
    ensures
        r@ == match first_colon(s@) {
            Some(k) => s@.take(k),
            None => s@,
        },
{
    let v = crate::text::chars_of(s);
    let mut i: usize = 0;
    assert(s@.skip(0) =~= s@);
    while i < v.len()
        invariant
            0 <= i <= v.len(),
            v@ == s@,
            first_colon(s@) == match first_colon(s@.skip(i as int)) {
                Some(k) => Some(k + i),
                None => None,
            },
            forall|j: int| 0 <= j < i ==> v@[j] != ':',
        decreases v.len() - i,
    {
        assert(s@.skip(i as int).drop_first() =~= s@.skip(i + 1));
        assert(s@.skip(i as int)[0] == v@[i as int]);
        if v[i] == ':' {
            let r = crate::text::string_from_range(&v, 0, i);
            assert(v@.subrange(0, i as int) =~= s@.take(i as int));
            return r;
        }
        i = i + 1;
    }
    assert(s@.skip(i as int) =~= Seq::<char>::empty());
    copy_str(s)
}

/// `items` joined with `sep`.
fn join_texts(items: &Vec<String>, sep: &str) -> (r: String)
    ensures
        r@ == join(string_views(items@), sep@),
{
    let r = crate::text::join_from(items, 0, sep);
    assert(string_views(items@).skip(0) =~= string_views(items@));
    r
}

impl TuiApp {
    /// Submits a `/model` command with the input box already emptied.
    fn submit_model_command(&mut self, c: ModelsCommand, provider: &str, loading: bool) -> (r: Submission)
        requires
            old(self).wf(),
        ensures
            (final(self)@, Some(r@)) == model_submitted(old(self)@, c@, provider@, loading),
            final(self).wf(),
    {
        proof {
            reveal(model_submitted);
        }
        if loading {
            self.push_error(copy_str("Model sync is already in progress. Please wait."));
            self.scroll_to_bottom();
            return Submission::Handled;
        }
        let r = match c {
            ModelsCommand::Browse => {
                self.open_model_browser(
                    copy_str(provider),
                    Vec::new(),
                    String::new(),
                    copy_str("Loading models..."),
                );
                proof {
                    assert(entry_views(Seq::<ModelCatalogEntry>::empty()) =~= Seq::<EntryView>::empty());
                }
                Submission::LoadCatalog(CatalogRequest::Browse(String::new()))
            },
            ModelsCommand::List => {
                self.push_assistant(copy_str("Fetching model list\u{2026}"));
                Submission::LoadCatalog(CatalogRequest::List)
            },
            ModelsCommand::Invalid(t) => {
                self.push_error(t);
                Submission::Handled
            },
        };
        self.scroll_to_bottom();
        r
    }

    /// Submits a text that is not a `/model` command, with the input box
    /// already emptied.
    fn submit_text(&mut self, message: String) -> (r: Submission)
        requires
            old(self).wf(),
        ensures
            (final(self)@, Some(r@)) == text_submitted(old(self)@, message@),
            final(self).wf(),
    {
        proof {
            reveal(text_submitted);
        }
        if self.handle_slash_command(message.as_str()) {
            self.scroll_to_bottom();
            return Submission::Handled;
        }
        self.push_user(copy_str(message.as_str()));
        self.state = AppState::Thinking { round: 0 };
        self.scroll_to_bottom();
        Submission::RunAgent(message)
    }

    /// Submits the input (Enter), with `provider` in use and the catalog
    /// `loading` or not (see [`submitted`]); returns what the event loop
    /// starts, or `None` when nothing was submitted.
    pub fn submit_input(&mut self, provider: &str, loading: bool) -> (r: Option<Submission>)
        requires
            old(self).wf(),
        ensures
            ({
                let (m, s) = submitted(old(self)@, provider@, loading);
                &&& final(self)@ == m
                &&& match r {
                    Some(x) => s == Some(x@),
                    None => s is None,
                }
            }),
            final(self).wf(),
    {
        let idle = match self.state {
            AppState::Idle => true,
            _ => false,
        };
        if !idle || self.chat.input.as_str().is_empty() {
            return None;
        }
        let message = self.take_input();
        match parse_models_command(message.as_str()) {
            Some(c) => Some(self.submit_model_command(c, provider, loading)),
            None => Some(self.submit_text(message)),
        }
    }

    /// Handles `r` pressed in the model browser: when asked for, reloads the
    /// catalog for the browser's search text unless it is loading already.
    pub fn request_catalog_refresh(&mut self, loading: bool) -> (r: Option<CatalogRequest>)
        ensures
            ({
                let m = old(self)@;
                let m0 = AppModel {
                    model: ModelInfo { model_refresh_requested: false, ..m.model },
                    ..m
                };
                if !m.model.model_refresh_requested {
                    r is None && final(self)@ == m0
                } else if loading {
                    r is None && final(self)@ == push_message(
                        m0,
                        MessageView::Error(catalog_busy()),
                    )
                } else {
                    match m.state {
                        AppStateView::ModelBrowsing { query, .. } => r matches Some(
                            CatalogRequest::Browse(q),
                        ) && q@ == query && final(self)@ == refreshing_marked(m0),
                        _ => r is None && final(self)@ == m0,
                    }
                }
            }),
    {
        if !self.take_model_refresh_request() {
            return None;
        }
        if loading {
            self.push_error(copy_str("Model sync is already in progress. Please wait."));
            return None;
        }
        match self.model_browser_query() {
            Some(q) => {
                self.mark_model_refreshing();
                Some(CatalogRequest::Browse(q))
            },
            None => None,
        }
    }

    /// Shows a loaded catalog as `request` asks (see [`catalog_shown`]).
    pub fn apply_catalog(
        &mut self,
        request: Option<CatalogRequest>,
        entries: Vec<ModelCatalogEntry>,
        sync_statuses: Vec<String>,
    )
        ensures
            final(self)@ == catalog_shown(
                old(self)@,
                match request {
                    Some(q) => Some(q@),
                    None => None,
                },
                entry_views(entries@),
                string_views(sync_statuses@),
            ),
    {
        let label = if sync_statuses.len() == 1 {
            before_colon(sync_statuses[0].as_str())
        } else {
            copy_str("multi")
        };
        proof {
            if sync_statuses.len() == 1 {
                assert(string_views(sync_statuses@)[0] == sync_statuses@[0]@);
            }
        }
        match request {
            Some(CatalogRequest::Browse(q)) => {
                let combined = join_texts(&sync_statuses, " | ");
                self.open_model_browser(label, entries, q, combined);
            },
            Some(CatalogRequest::List) => {
                let text = format_model_list(entries.as_slice(), sync_statuses.as_slice());
                self.push_assistant(text);
            },
            None => {},
        }
        self.scroll_to_bottom();
    }

    /// Ends a login task with its message or error (see [`auth_finished`]).
    pub fn finish_auth(&mut self, result: Result<String, String>)
        ensures
            final(self)@ == auth_finished(
                old(self)@,
                match result {
                    Ok(t) => Ok::<Seq<char>, Seq<char>>(t@),
                    Err(e) => Err::<Seq<char>, Seq<char>>(e@),
                },
            ),
    {
        match result {
            Ok(t) => self.push_assistant(t),
            Err(e) => self.push_error(concat2("Authentication failed: ", e.as_str())),
        }
        self.state = AppState::Idle;
        self.scroll_to_bottom();
    }
}

} // verus!
