//! What the screens show: lines of text pieces, each with the colour role it
//! is drawn in. The terminal front end only lays these out and paints them.
use vstd::prelude::*;
use crate::app::SlashCommand;
use crate::browse::sat_sub16;
use crate::keys::Rect;
use crate::catalog::{EntryView, ModelCatalogEntry, entry_views};
use crate::commands::{CredentialView, Credentials};
use crate::providers::{
    AuthMethodChoice, LoginBrowseStep, ProviderRegistryEntry, ProviderView, filtered_provider_entries,
    filtered_providers, opt_view, provider_views,
};
use crate::state::{
    MessageView, TuiMessage, AppModel, AppState, AppStateView, LoginBrowsingState, LoginView, SessionEntry, SessionView, TuiApp,
    WhatsAppSetupStep, WhatsAppView, session_views,
};
use crate::text::{
    char_index_at, char_index_of, chars_of, first_line, lemma_newline_from_bounds, newline_from, concat2, concat3, copy_str, decimal, has_prefix, is_blank,
    is_boundary, longer_than_bytes, push_char, starts_with, str_byte_len, str_eq, string_from_range,
    string_views, trim, u64_to_string, utf8_len,
};

verus! {

/// The colour role a piece of text is drawn in.
#[derive(Debug, Clone, Copy, PartialEq, Eq, Structural)]
pub enum Tone {
    /// The terminal's own colours.
    Plain,
    /// Ordinary foreground text.
    Fg,
    Muted,
    Dim,
    Accent,
    Warning,
    Error,
    Success,
    Info,
    /// Title of a browser screen.
    BrowserTitle,
    /// Search line of a browser screen.
    BrowserSearch,
    /// Marker of the highlighted row.
    Marker,
    /// Key help under a browser.
    Footer,
    UserLabel,
    AssistantLabel,
    ToolCall,
    ToolResult,
    /// Command names in the palette.
    PaletteCmd,
    /// Command descriptions in the palette.
    PaletteDesc,
    /// Description of the highlighted palette command.
    PaletteSelected,
    /// Dot marking a provider or command with a working credential.
    AuthDot,
}

/// A piece of text of one colour role, bold or not.
#[derive(Debug, Clone, PartialEq, Eq)]
pub struct Span {
    pub text: String,
    pub tone: Tone,
    pub bold: bool,
}

/// The mathematical content of a [`Span`].
pub struct SpanView {
    pub text: Seq<char>,
    pub tone: Tone,
    pub bold: bool,
}

impl View for Span {
    type V = SpanView;

    open spec fn view(&self) -> SpanView {
        SpanView { text: self.text@, tone: self.tone, bold: self.bold }
    }
}

/// A piece of text.
pub open spec fn sv(text: Seq<char>, tone: Tone, bold: bool) -> SpanView {
    SpanView { text, tone, bold }
}

/// The content of a line.
pub open spec fn line_view(l: Seq<Span>) -> Seq<SpanView> {
    Seq::new(l.len(), |i: int| l[i]@)
}

/// The content of a list of lines.
pub open spec fn lines_view(v: Seq<Vec<Span>>) -> Seq<Seq<SpanView>> {
    Seq::new(v.len(), |i: int| line_view(v[i]@))
}

/// A line of one piece.
pub open spec fn one(text: Seq<char>, tone: Tone, bold: bool) -> Seq<SpanView> {
    seq![sv(text, tone, bold)]
}

/// An empty line.
pub open spec fn blank() -> Seq<SpanView> {
    Seq::empty()
}

/// Makes a piece from a text.
pub fn span(text: &str, tone: Tone, bold: bool) -> (s: Span)
    ensures
        s@ == sv(text@, tone, bold),
{
    Span { text: copy_str(text), tone, bold }
}

/// A line of one piece.
pub fn line1(a: Span) -> (l: Vec<Span>)
    ensures
        line_view(l@) == seq![a@],
{
    let mut l: Vec<Span> = Vec::new();
    l.push(a);
    assert(line_view(l@) =~= seq![l@[0]@]);
    l
}

/// A line of two pieces.
pub fn line2(a: Span, b: Span) -> (l: Vec<Span>)
    ensures
        line_view(l@) == seq![a@, b@],
{
    let mut l: Vec<Span> = Vec::new();
    l.push(a);
    l.push(b);
    assert(line_view(l@) =~= seq![l@[0]@, l@[1]@]);
    l
}

/// A line of three pieces.
pub fn line3(a: Span, b: Span, c: Span) -> (l: Vec<Span>)
    ensures
        line_view(l@) == seq![a@, b@, c@],
{
    let mut l: Vec<Span> = Vec::new();
    l.push(a);
    l.push(b);
    l.push(c);
    assert(line_view(l@) =~= seq![l@[0]@, l@[1]@, l@[2]@]);
    l
}

/// An empty line.
pub fn empty_line() -> (l: Vec<Span>)
    ensures
        line_view(l@) == blank(),
{
    let l: Vec<Span> = Vec::new();
    assert(line_view(l@) =~= blank());
    l
}

/// Adds a piece at the end of a line.
pub fn push_span(l: &mut Vec<Span>, s: Span)
    ensures
        line_view(final(l)@) == line_view(old(l)@).push(s@),
{
    let ghost before = line_view(l@);
    l.push(s);
    assert(line_view(l@) =~= before.push(s@));
}

/// Adds a line at the end of `out`.
pub fn push_line(out: &mut Vec<Vec<Span>>, l: Vec<Span>)
    ensures
        lines_view(final(out)@) == lines_view(old(out)@).push(line_view(l@)),
{
    let ghost before = lines_view(out@);
    let ghost lv = line_view(l@);
    out.push(l);
    assert(lines_view(out@) =~= before.push(lv));
}

// ─── Chat screen: title and input box ───────────────────────────────────────

/// The title line of the chat screen.
pub open spec fn title_spans(m: AppModel) -> Seq<SpanView> {
    seq![
        sv(" Chat "@, Tone::Accent, true),
        sv(" model:"@ + m.model.model_name + " "@, Tone::Fg, false),
        sv(" session:"@ + m.session.session_id + " "@, Tone::Muted, false),
    ]
}

/// How the input box is drawn.
#[derive(Debug, Clone, PartialEq, Eq)]
pub struct InputBox {
    /// Text shown in the box.
    pub text: String,
    /// The text is a hint, drawn muted.
    pub hint: bool,
    /// Title on the border.
    pub title: String,
    /// The box takes typing: accent border and a cursor.
    pub active: bool,
}

/// The mathematical content of an [`InputBox`].
pub struct InputBoxView {
    pub text: Seq<char>,
    pub hint: bool,
    pub title: Seq<char>,
    pub active: bool,
}

impl View for InputBox {
    type V = InputBoxView;

    open spec fn view(&self) -> InputBoxView {
        InputBoxView { text: self.text@, hint: self.hint, title: self.title@, active: self.active }
    }
}

/// One `*` per character of `s`.
pub open spec fn masked(s: Seq<char>) -> Seq<char> {
    Seq::new(s.len(), |i: int| '*')
}

/// The input box: a hint when empty and taking typing, stars for an API
/// key being typed, else the input.
pub open spec fn input_box(m: AppModel) -> InputBoxView {
    let active = m.state is Idle || m.state is AuthPrompting;
    let auth = m.state is AuthPrompting;
    let empty = m.chat.input.len() == 0;
    InputBoxView {
        text: if empty && active {
            if auth {
                "Paste your API key here..."@
            } else {
                "Type a message..."@
            }
        } else if auth {
            masked(m.chat.input)
        } else {
            m.chat.input
        },
        hint: empty && active,
        title: if auth {
            " Auth "@
        } else {
            " Input "@
        },
        active,
    }
}

/// `n` stars.
fn stars(n: usize) -> (r: String)
    ensures
        r@ == Seq::new(n as nat, |i: int| '*'),
{
    let mut r = String::new();
    let mut i: usize = 0;
    while i < n
        invariant
            0 <= i <= n,
            r@ == Seq::new(i as nat, |k: int| '*'),
        decreases n - i,
    {
        crate::text::push_char(&mut r, '*');
        i = i + 1;
        assert(r@ =~= Seq::new(i as nat, |k: int| '*'));
    }
    r
}

impl TuiApp {
    /// The title line of the chat screen.
    pub fn title_line(&self) -> (l: Vec<Span>)
        ensures
            line_view(l@) == title_spans(self@),
    {
        let a = span(" Chat ", Tone::Accent, true);
        let b = concat3(" model:", self.model.model_name.as_str(), " ");
        let c = concat3(" session:", self.session.session_id.as_str(), " ");
        line3(a, Span { text: b, tone: Tone::Fg, bold: false }, Span { text: c, tone: Tone::Muted, bold: false })
    }

    /// How the input box is drawn.
    pub fn input_box(&self) -> (b: InputBox)
        ensures
            b@ == input_box(self@),
    {
        let (active, auth) = match self.state {
            AppState::Idle => (true, false),
            AppState::AuthPrompting { .. } => (true, true),
            _ => (false, false),
        };
        let empty = self.chat.input.as_str().is_empty();
        let text = if empty && active {
            if auth {
                copy_str("Paste your API key here...")
            } else {
                copy_str("Type a message...")
            }
        } else if auth {
            let v = crate::text::chars_of(self.chat.input.as_str());
            stars(v.len())
        } else {
            copy_str(self.chat.input.as_str())
        };
        let title = if auth {
            copy_str(" Auth ")
        } else {
            copy_str(" Input ")
        };
        InputBox { text, hint: empty && active, title, active }
    }
}

// ─── Overlays ───────────────────────────────────────────────────────────────

/// The delete confirmation dialog for a session whose preview is `preview`.
pub open spec fn confirm_delete_body(preview: Seq<char>) -> Seq<Seq<SpanView>> {
    seq![
        one(" Delete session? "@, Tone::Error, true),
        one(" "@ + preview, Tone::Dim, false),
        blank(),
        seq![
            sv(" y"@, Tone::Error, true),
            sv("/Enter: delete  "@, Tone::Muted, false),
            sv("n"@, Tone::Success, true),
            sv("/Esc: cancel"@, Tone::Muted, false),
        ],
    ]
}

/// The lines of the delete confirmation dialog.
pub fn confirm_delete_lines(preview: &str) -> (r: Vec<Vec<Span>>)
    ensures
        lines_view(r@) == confirm_delete_body(preview@),
{
    let mut out: Vec<Vec<Span>> = Vec::new();
    push_line(&mut out, line1(span(" Delete session? ", Tone::Error, true)));
    push_line(&mut out, line1(Span { text: concat2(" ", preview), tone: Tone::Dim, bold: false }));
    push_line(&mut out, empty_line());
    let mut last = line2(span(" y", Tone::Error, true), span("/Enter: delete  ", Tone::Muted, false));
    push_span(&mut last, span("n", Tone::Success, true));
    push_span(&mut last, span("/Esc: cancel", Tone::Muted, false));
    assert(line_view(last@) =~= confirm_delete_body(preview@)[3]);
    push_line(&mut out, last);
    assert(lines_view(out@) =~= confirm_delete_body(preview@));
    out
}

/// The QR code overlay: the code, the URL it encodes and the key help.
pub open spec fn qr_overlay_body(url: Seq<char>, qr: Seq<Seq<char>>) -> Seq<Seq<SpanView>> {
    Seq::new(qr.len(), |i: int| one(" "@ + qr[i] + " "@, Tone::Plain, false)).push(blank()).push(
        one(" "@ + url + " "@, Tone::Info, false),
    ).push(one(" Esc/Enter: close "@, Tone::Muted, false))
}

/// The lines of the QR code overlay.
pub fn qr_overlay_lines(url: &str, qr_lines: &Vec<String>) -> (r: Vec<Vec<Span>>)
    ensures
        lines_view(r@) == qr_overlay_body(url@, string_views(qr_lines@)),
{
    let ghost qr = string_views(qr_lines@);
    let mut out: Vec<Vec<Span>> = Vec::new();
    let mut i: usize = 0;
    while i < qr_lines.len()
        invariant
            0 <= i <= qr_lines.len(),
            qr == string_views(qr_lines@),
            lines_view(out@) == Seq::new(i as nat, |k: int| one(" "@ + qr[k] + " "@, Tone::Plain, false)),
        decreases qr_lines.len() - i,
    {
        let ghost before = lines_view(out@);
        let t = concat3(" ", qr_lines[i].as_str(), " ");
        push_line(&mut out, line1(Span { text: t, tone: Tone::Plain, bold: false }));
        i = i + 1;
        assert(lines_view(out@) =~= Seq::new(i as nat, |k: int| one(" "@ + qr[k] + " "@, Tone::Plain, false)));
    }
    push_line(&mut out, empty_line());
    push_line(&mut out, line1(Span { text: concat3(" ", url, " "), tone: Tone::Info, bold: false }));
    push_line(&mut out, line1(span(" Esc/Enter: close ", Tone::Muted, false)));
    out
}

// ─── WhatsApp pairing screen ────────────────────────────────────────────────

/// The phase named in the title of the pairing screen, and its colour.
pub open spec fn whatsapp_phase(step: WhatsAppView) -> (Seq<char>, Tone) {
    match step {
        WhatsAppView::CheckingPrereqs => ("Checking prerequisites\u{2026}"@, Tone::Dim),
        WhatsAppView::InstallingBridge => ("Installing bridge\u{2026}"@, Tone::Dim),
        WhatsAppView::WaitingForQr => ("Waiting for QR\u{2026}"@, Tone::Dim),
        WhatsAppView::DisplayQr { .. } => ("Scan QR code"@, Tone::Accent),
        WhatsAppView::Connected { .. } => ("Connected \u{2713}"@, Tone::Success),
    }
}

/// The title line of the pairing screen.
pub open spec fn whatsapp_title(step: WhatsAppView) -> Seq<SpanView> {
    let (phase, tone) = whatsapp_phase(step);
    seq![sv(" WhatsApp Pairing "@, Tone::Accent, true), sv("("@ + phase + ")"@, tone, false)]
}

/// A waiting step: what runs and what it is for, then the key help.
pub open spec fn waiting_body(what: Seq<char>, detail: Seq<char>) -> Seq<Seq<SpanView>> {
    seq![
        blank(),
        one(what, Tone::Fg, true),
        one(detail, Tone::Dim, false),
        blank(),
        one(" Esc: cancel"@, Tone::Error, false),
    ]
}

/// The body of the pairing screen.
pub open spec fn whatsapp_body(step: WhatsAppView) -> Seq<Seq<SpanView>> {
    match step {
        WhatsAppView::CheckingPrereqs => waiting_body(
            " Checking prerequisites\u{2026}"@,
            " Verifying Node.js and bridge dependencies."@,
        ),
        WhatsAppView::InstallingBridge => waiting_body(
            " Installing bridge dependencies\u{2026}"@,
            " Running npm install in whatsapp-bridge/"@,
        ),
        WhatsAppView::WaitingForQr => waiting_body(
            " Starting WhatsApp bridge\u{2026}"@,
            " A QR code will appear here shortly."@,
        ),
        WhatsAppView::DisplayQr { qr_lines, .. } => seq![
            blank(),
            one(
                " Open WhatsApp on your phone \u{2192} Linked Devices \u{2192} Link a Device"@,
                Tone::Fg,
                true,
            ),
            blank(),
        ] + Seq::new(qr_lines.len(), |i: int| one("  "@ + qr_lines[i], Tone::Plain, false)) + seq![
            blank(),
            one(" Esc: cancel"@, Tone::Error, false),
        ],
        WhatsAppView::Connected { phone, name } => seq![
            blank(),
            one(" \u{2713} WhatsApp paired successfully!"@, Tone::Success, true),
            blank(),
            seq![sv("   Phone:  "@, Tone::Dim, false), sv(phone, Tone::Fg, false)],
            seq![sv("   Name:   "@, Tone::Dim, false), sv(name, Tone::Fg, false)],
            blank(),
            one(" Esc: close"@, Tone::Muted, false),
        ],
    }
}

/// The lines of a waiting step.
fn waiting_lines(what: &str, detail: &str) -> (r: Vec<Vec<Span>>)
    ensures
        lines_view(r@) == waiting_body(what@, detail@),
{
    let mut out: Vec<Vec<Span>> = Vec::new();
    push_line(&mut out, empty_line());
    push_line(&mut out, line1(span(what, Tone::Fg, true)));
    push_line(&mut out, line1(span(detail, Tone::Dim, false)));
    push_line(&mut out, empty_line());
    push_line(&mut out, line1(span(" Esc: cancel", Tone::Error, false)));
    assert(lines_view(out@) =~= waiting_body(what@, detail@));
    out
}

/// The title line of the pairing screen at `step`.
pub fn whatsapp_title_line(step: &WhatsAppSetupStep) -> (l: Vec<Span>)
    ensures
        line_view(l@) == whatsapp_title(step@),
{
    let (phase, tone) = match step {
        WhatsAppSetupStep::CheckingPrereqs => ("Checking prerequisites\u{2026}", Tone::Dim),
        WhatsAppSetupStep::InstallingBridge => ("Installing bridge\u{2026}", Tone::Dim),
        WhatsAppSetupStep::WaitingForQr => ("Waiting for QR\u{2026}", Tone::Dim),
        WhatsAppSetupStep::DisplayQr { .. } => ("Scan QR code", Tone::Accent),
        WhatsAppSetupStep::Connected { .. } => ("Connected \u{2713}", Tone::Success),
    };
    line2(
        span(" WhatsApp Pairing ", Tone::Accent, true),
        Span { text: concat3("(", phase, ")"), tone, bold: false },
    )
}

/// The body lines of the pairing screen at `step`.
pub fn whatsapp_lines(step: &WhatsAppSetupStep) -> (r: Vec<Vec<Span>>)
    ensures
        lines_view(r@) == whatsapp_body(step@),
{
    match step {
        WhatsAppSetupStep::CheckingPrereqs => waiting_lines(
            " Checking prerequisites\u{2026}",
            " Verifying Node.js and bridge dependencies.",
        ),
        WhatsAppSetupStep::InstallingBridge => waiting_lines(
            " Installing bridge dependencies\u{2026}",
            " Running npm install in whatsapp-bridge/",
        ),
        WhatsAppSetupStep::WaitingForQr => waiting_lines(
            " Starting WhatsApp bridge\u{2026}",
            " A QR code will appear here shortly.",
        ),
        WhatsAppSetupStep::DisplayQr { qr_lines, .. } => {
            let ghost qr = string_views(qr_lines@);
            let mut out: Vec<Vec<Span>> = Vec::new();
            push_line(&mut out, empty_line());
            push_line(
                &mut out,
                line1(
                    span(
                        " Open WhatsApp on your phone \u{2192} Linked Devices \u{2192} Link a Device",
                        Tone::Fg,
                        true,
                    ),
                ),
            );
            push_line(&mut out, empty_line());
            let ghost head = lines_view(out@);
            let mut i: usize = 0;
            while i < qr_lines.len()
                invariant
                    0 <= i <= qr_lines.len(),
                    qr == string_views(qr_lines@),
                    head.len() == 3,
                    lines_view(out@) == head + Seq::new(
                        i as nat,
                        |k: int| one("  "@ + qr[k], Tone::Plain, false),
                    ),
                decreases qr_lines.len() - i,
            {
                push_line(
                    &mut out,
                    line1(Span { text: concat2("  ", qr_lines[i].as_str()), tone: Tone::Plain, bold: false }),
                );
                i = i + 1;
                assert(lines_view(out@) =~= head + Seq::new(
                    i as nat,
                    |k: int| one("  "@ + qr[k], Tone::Plain, false),
                ));
            }
            push_line(&mut out, empty_line());
            push_line(&mut out, line1(span(" Esc: cancel", Tone::Error, false)));
            assert(lines_view(out@) =~= whatsapp_body(step@));
            out
        },
        WhatsAppSetupStep::Connected { phone, name } => {
            let mut out: Vec<Vec<Span>> = Vec::new();
            push_line(&mut out, empty_line());
            push_line(&mut out, line1(span(" \u{2713} WhatsApp paired successfully!", Tone::Success, true)));
            push_line(&mut out, empty_line());
            push_line(
                &mut out,
                line2(span("   Phone:  ", Tone::Dim, false), span(phone.as_str(), Tone::Fg, false)),
            );
            push_line(
                &mut out,
                line2(span("   Name:   ", Tone::Dim, false), span(name.as_str(), Tone::Fg, false)),
            );
            push_line(&mut out, empty_line());
            push_line(&mut out, line1(span(" Esc: close", Tone::Muted, false)));
            assert(lines_view(out@) =~= whatsapp_body(step@));
            out
        },
    }
}


// ─── Command palette ────────────────────────────────────────────────────────

/// `n` spaces.
pub open spec fn spaces(n: nat) -> Seq<char> {
    Seq::new(n, |i: int| ' ')
}

/// Appends `n` spaces.
fn push_spaces(s: &mut String, n: usize)
    ensures
        final(s)@ == old(s)@ + spaces(n as nat),
{
    let ghost start = s@;
    let mut i: usize = 0;
    assert(start + spaces(0) =~= start);
    while i < n
        invariant
            0 <= i <= n,
            s@ == start + spaces(i as nat),
        decreases n - i,
    {
        push_char(s, ' ');
        i = i + 1;
        assert(s@ =~= start + spaces(i as nat));
    }
}

/// Byte length of the longest command name.
pub open spec fn name_width(cmds: Seq<SlashCommand>) -> nat
    decreases cmds.len(),
{
    if cmds.len() == 0 {
        0
    } else {
        let r = name_width(cmds.drop_last());
        let n = utf8_len(cmds.last().name@);
        if n > r {
            n
        } else {
            r
        }
    }
}

proof fn lemma_name_width_bound(cmds: Seq<SlashCommand>, i: int)
    requires
        0 <= i < cmds.len(),
    ensures
        utf8_len(cmds[i].name@) <= name_width(cmds),
    decreases cmds.len(),
{
    if i < cmds.len() - 1 {
        lemma_name_width_bound(cmds.drop_last(), i);
    }
}

/// The command opens the login picker.
pub open spec fn is_login_command(name: Seq<char>) -> bool {
    name == "/login"@ || name == "/connection"@
}

/// One row of the command palette: the highlight arrow, the name padded to
/// the widest name, a dot for the login commands while the provider in use
/// has a working credential, and the description.
pub open spec fn palette_row(c: SlashCommand, sel: bool, w: nat, authenticated: bool) -> Seq<SpanView> {
    seq![
        sv(
            if sel {
                "\u{203a} "@
            } else {
                "  "@
            },
            if sel {
                Tone::PaletteCmd
            } else {
                Tone::Muted
            },
            false,
        ),
        sv(c.name@, Tone::PaletteCmd, sel),
        sv(spaces((w - utf8_len(c.name@)) as nat + 2), Tone::Plain, false),
    ] + (if is_login_command(c.name@) && authenticated {
        seq![sv("\u{25cf} "@, Tone::AuthDot, false)]
    } else {
        Seq::empty()
    }) + seq![
        sv(
            c.description@,
            if sel {
                Tone::PaletteSelected
            } else {
                Tone::PaletteDesc
            },
            sel,
        ),
    ]
}

/// The rows of the command palette for `cmds`, row `cursor` highlighted.
pub open spec fn palette_body(cmds: Seq<SlashCommand>, cursor: usize, authenticated: bool) -> Seq<
    Seq<SpanView>,
> {
    Seq::new(cmds.len(), |i: int| palette_row(cmds[i], i == cursor, name_width(cmds), authenticated))
}

/// The rows of the command palette (see [`palette_body`]).
pub fn palette_lines(cmds: &Vec<SlashCommand>, cursor: usize, authenticated: bool) -> (r: Vec<
    Vec<Span>,
>)
    requires
        forall|i: int| 0 <= i < cmds.len() ==> utf8_len(#[trigger] cmds@[i].name@) <= usize::MAX,
    ensures
        lines_view(r@) == palette_body(cmds@, cursor, authenticated),
{
    let mut w: usize = 0;
    let mut i: usize = 0;
    while i < cmds.len()
        invariant
            0 <= i <= cmds.len(),
            forall|j: int| 0 <= j < cmds.len() ==> utf8_len(#[trigger] cmds@[j].name@) <= usize::MAX,
            w == name_width(cmds@.take(i as int)),
        decreases cmds.len() - i,
    {
        assert(cmds@.take(i + 1).drop_last() =~= cmds@.take(i as int));
        let n = str_byte_len(&cmds[i].name);
        if n > w {
            w = n;
        }
        i = i + 1;
    }
    assert(cmds@.take(cmds.len() as int) =~= cmds@);
    let ghost body = palette_body(cmds@, cursor, authenticated);
    let mut out: Vec<Vec<Span>> = Vec::new();
    let mut k: usize = 0;
    while k < cmds.len()
        invariant
            0 <= k <= cmds.len(),
            forall|j: int| 0 <= j < cmds.len() ==> utf8_len(#[trigger] cmds@[j].name@) <= usize::MAX,
            w == name_width(cmds@),
            body == palette_body(cmds@, cursor, authenticated),
            lines_view(out@) == body.take(k as int),
        decreases cmds.len() - k,
    {
        let c = &cmds[k];
        let sel = k == cursor;
        let n = str_byte_len(&c.name);
        proof {
            lemma_name_width_bound(cmds@, k as int);
        }
        let mut pad = String::new();
        push_spaces(&mut pad, w - n);
        push_spaces(&mut pad, 2);
        assert(pad@ =~= spaces((w - n) as nat + 2));
        let mut row = line3(
            span(
                if sel {
                    "\u{203a} "
                } else {
                    "  "
                },
                if sel {
                    Tone::PaletteCmd
                } else {
                    Tone::Muted
                },
                false,
            ),
            span(c.name.as_str(), Tone::PaletteCmd, sel),
            Span { text: pad, tone: Tone::Plain, bold: false },
        );
        if (str_eq(c.name.as_str(), "/login") || str_eq(c.name.as_str(), "/connection"))
            && authenticated {
            push_span(&mut row, span("\u{25cf} ", Tone::AuthDot, false));
        }
        push_span(
            &mut row,
            span(
                c.description.as_str(),
                if sel {
                    Tone::PaletteSelected
                } else {
                    Tone::PaletteDesc
                },
                sel,
            ),
        );
        assert(line_view(row@) =~= body[k as int]);
        push_line(&mut out, row);
        k = k + 1;
        assert(lines_view(out@) =~= body.take(k as int));
    }
    assert(body.take(cmds.len() as int) =~= body);
    out
}

// ─── Login picker ───────────────────────────────────────────────────────────

/// The stored credential of `name` exists and has not expired at `now`.
pub open spec fn has_working_credential(creds: Map<Seq<char>, CredentialView>, name: Seq<char>, now: i64) -> bool {
    creds.contains_key(name) && !(creds[name].expires_at matches Some(t) && now >= t)
}

/// How a credential kind is named in the picker.
pub open spec fn method_label(m: AuthMethodChoice) -> Seq<char> {
    match m {
        AuthMethodChoice::OAuth => "Browser login (OAuth)"@,
        AuthMethodChoice::ApiKey => "API key"@,
    }
}

/// The selection marker of a picker row.
pub open spec fn marker(sel: bool) -> SpanView {
    sv(
        if sel {
            " \u{25cf} "@
        } else {
            " \u{25cb} "@
        },
        if sel {
            Tone::Marker
        } else {
            Tone::Muted
        },
        sel,
    )
}

/// A provider row: marker, display name, and a dot when it has a working
/// credential.
pub open spec fn provider_row(p: ProviderView, sel: bool, authed: bool) -> Seq<SpanView> {
    seq![marker(sel), sv(p.display_name, Tone::Fg, sel)] + (if authed {
        seq![sv(" \u{25cf}"@, Tone::AuthDot, false)]
    } else {
        Seq::empty()
    })
}

/// A credential kind row.
pub open spec fn method_row(m: AuthMethodChoice, sel: bool) -> Seq<SpanView> {
    seq![marker(sel), sv(method_label(m), Tone::Plain, sel)]
}

/// The text of `o`, or `d`.
pub open spec fn or_text(o: Option<Seq<char>>, d: Seq<char>) -> Seq<char> {
    match o {
        Some(t) => t,
        None => d,
    }
}

/// The provider rows of the first step.
pub open spec fn provider_rows(l: LoginView, creds: Map<Seq<char>, CredentialView>, now: i64) -> Seq<
    Seq<SpanView>,
> {
    let ps = filtered_providers(l.query);
    if ps.len() == 0 {
        seq![one(" No matches for '"@ + l.query + "'."@, Tone::Warning, false)]
    } else {
        Seq::new(
            ps.len(),
            |i: int| provider_row(ps[i], i == l.cursor, has_working_credential(creds, ps[i].name, now)),
        )
    }
}

/// The lines of the current step of the login picker.
pub open spec fn login_step_body(l: LoginView, creds: Map<Seq<char>, CredentialView>, now: i64) -> Seq<
    Seq<SpanView>,
> {
    match l.step {
        LoginBrowseStep::SelectProvider => seq![
            one(" Select provider "@, Tone::Plain, true),
            blank(),
            one(" Search: "@ + l.query, Tone::BrowserSearch, false),
        ] + provider_rows(l, creds, now),
        LoginBrowseStep::SelectMethod => seq![
            one(" Select auth method "@, Tone::Plain, true),
            blank(),
            one(" Provider: "@ + or_text(l.selected_provider, "openai"@), Tone::Muted, false),
            method_row(AuthMethodChoice::OAuth, l.cursor == 0),
            method_row(AuthMethodChoice::ApiKey, l.cursor == 1),
        ],
        LoginBrowseStep::InputEndpoint => seq![
            one(" Enter endpoint "@, Tone::Plain, true),
            blank(),
            one(" Provider: "@ + or_text(l.selected_provider, "provider"@), Tone::Muted, false),
            one(" Endpoint: "@ + l.input_buffer, Tone::Plain, false),
        ],
        LoginBrowseStep::InputApiKey => {
            let code = l.selected_method == Some(AuthMethodChoice::OAuth);
            seq![
                one(
                    if code {
                        " Enter authorization code "@
                    } else {
                        " Enter API key "@
                    },
                    Tone::Plain,
                    true,
                ),
                blank(),
                one(" Provider: "@ + or_text(l.selected_provider, "provider"@), Tone::Muted, false),
            ] + (if code {
                seq![one(" Paste the code shown in your browser after authorizing."@, Tone::Warning, false)]
            } else {
                Seq::empty()
            }) + (match l.endpoint {
                Some(e) => seq![one(" Endpoint: "@ + e, Tone::Muted, false)],
                None => Seq::empty(),
            }) + seq![
                one(
                    if code {
                        " Code: "@ + l.input_buffer
                    } else {
                        " API key: "@ + l.masked_buffer
                    },
                    Tone::Plain,
                    false,
                ),
            ]
        },
    }
}

/// The body of the login picker: the current step, then the last error.
pub open spec fn login_body(l: LoginView, creds: Map<Seq<char>, CredentialView>, now: i64) -> Seq<
    Seq<SpanView>,
> {
    let main = login_step_body(l, creds, now);
    match l.last_error {
        Some(e) => main + seq![blank(), one("Error: "@ + e, Tone::Error, true)],
        None => main,
    }
}

/// The selection marker of a picker row.
fn marker_span(sel: bool) -> (s: Span)
    ensures
        s@ == marker(sel),
{
    if sel {
        span(" \u{25cf} ", Tone::Marker, true)
    } else {
        span(" \u{25cb} ", Tone::Muted, false)
    }
}

/// A credential kind row.
fn method_line(m: AuthMethodChoice, sel: bool) -> (l: Vec<Span>)
    ensures
        line_view(l@) == method_row(m, sel),
{
    let label = match m {
        AuthMethodChoice::OAuth => "Browser login (OAuth)",
        AuthMethodChoice::ApiKey => "API key",
    };
    line2(marker_span(sel), span(label, Tone::Plain, sel))
}

/// The text of `o`, or `d`.
fn or_str(o: &Option<String>, d: &str) -> (r: String)
    ensures
        r@ == or_text(opt_view(*o), d@),
{
    match o {
        Some(t) => copy_str(t.as_str()),
        None => copy_str(d),
    }
}

/// The provider rows of the first step.
fn provider_lines(l: &LoginBrowsingState, creds: &Credentials, now: i64) -> (r: Vec<Vec<Span>>)
    ensures
        lines_view(r@) == provider_rows(l@, creds@, now),
{
    let ps = filtered_provider_entries(l.query.as_str());
    let ghost pv = provider_views(ps@);
    let mut out: Vec<Vec<Span>> = Vec::new();
    if ps.len() == 0 {
        push_line(
            &mut out,
            line1(Span { text: concat3(" No matches for '", l.query.as_str(), "'."), tone: Tone::Warning, bold: false }),
        );
        assert(lines_view(out@) =~= provider_rows(l@, creds@, now));
        return out;
    }
    let ghost body = provider_rows(l@, creds@, now);
    let mut i: usize = 0;
    while i < ps.len()
        invariant
            0 <= i <= ps.len(),
            pv == provider_views(ps@),
            pv == filtered_providers(l@.query),
            pv.len() > 0,
            body == provider_rows(l@, creds@, now),
            lines_view(out@) == body.take(i as int),
        decreases ps.len() - i,
    {
        let e: &ProviderRegistryEntry = &ps[i];
        let sel = i == l.cursor;
        let authed = match creds.get(e.name.as_str()) {
            Some(c) => !c.is_expired(now),
            None => false,
        };
        let mut row = line2(marker_span(sel), span(e.display_name.as_str(), Tone::Fg, sel));
        if authed {
            push_span(&mut row, span(" \u{25cf}", Tone::AuthDot, false));
        }
        assert(pv[i as int] == e@);
        assert(line_view(row@) =~= body[i as int]);
        push_line(&mut out, row);
        i = i + 1;
        assert(lines_view(out@) =~= body.take(i as int));
    }
    assert(body.take(ps.len() as int) =~= body);
    out
}

/// Appends the lines of `more` to `out`.
fn append_lines(out: &mut Vec<Vec<Span>>, more: Vec<Vec<Span>>)
    ensures
        lines_view(final(out)@) == lines_view(old(out)@) + lines_view(more@),
{
    let ghost start = lines_view(out@);
    let ghost add = lines_view(more@);
    let mut more = more;
    out.append(&mut more);
    assert(lines_view(out@) =~= start + add);
}

/// The lines of the current step of the login picker.
fn login_step_lines(l: &LoginBrowsingState, creds: &Credentials, now: i64) -> (r: Vec<Vec<Span>>)
    ensures
        lines_view(r@) == login_step_body(l@, creds@, now),
{
    let mut out: Vec<Vec<Span>> = Vec::new();
    match l.step {
        LoginBrowseStep::SelectProvider => {
            push_line(&mut out, line1(span(" Select provider ", Tone::Plain, true)));
            push_line(&mut out, empty_line());
            push_line(
                &mut out,
                line1(Span { text: concat2(" Search: ", l.query.as_str()), tone: Tone::BrowserSearch, bold: false }),
            );
            let rows = provider_lines(l, creds, now);
            append_lines(&mut out, rows);
        },
        LoginBrowseStep::SelectMethod => {
            push_line(&mut out, line1(span(" Select auth method ", Tone::Plain, true)));
            push_line(&mut out, empty_line());
            let p = or_str(&l.selected_provider, "openai");
            push_line(&mut out, line1(Span { text: concat2(" Provider: ", p.as_str()), tone: Tone::Muted, bold: false }));
            push_line(&mut out, method_line(AuthMethodChoice::OAuth, l.cursor == 0));
            push_line(&mut out, method_line(AuthMethodChoice::ApiKey, l.cursor == 1));
        },
        LoginBrowseStep::InputEndpoint => {
            push_line(&mut out, line1(span(" Enter endpoint ", Tone::Plain, true)));
            push_line(&mut out, empty_line());
            let p = or_str(&l.selected_provider, "provider");
            push_line(&mut out, line1(Span { text: concat2(" Provider: ", p.as_str()), tone: Tone::Muted, bold: false }));
            push_line(
                &mut out,
                line1(Span { text: concat2(" Endpoint: ", l.input_buffer.as_str()), tone: Tone::Plain, bold: false }),
            );
        },
        LoginBrowseStep::InputApiKey => {
            let code = match l.selected_method {
                Some(AuthMethodChoice::OAuth) => true,
                _ => false,
            };
            push_line(
                &mut out,
                line1(
                    span(
                        if code {
                            " Enter authorization code "
                        } else {
                            " Enter API key "
                        },
                        Tone::Plain,
                        true,
                    ),
                ),
            );
            push_line(&mut out, empty_line());
            let p = or_str(&l.selected_provider, "provider");
            push_line(&mut out, line1(Span { text: concat2(" Provider: ", p.as_str()), tone: Tone::Muted, bold: false }));
            if code {
                push_line(
                    &mut out,
                    line1(span(" Paste the code shown in your browser after authorizing.", Tone::Warning, false)),
                );
            }
            match &l.endpoint {
                Some(e) => {
                    push_line(
                        &mut out,
                        line1(Span { text: concat2(" Endpoint: ", e.as_str()), tone: Tone::Muted, bold: false }),
                    );
                },
                None => {},
            }
            let last = if code {
                concat2(" Code: ", l.input_buffer.as_str())
            } else {
                concat2(" API key: ", l.masked_buffer.as_str())
            };
            push_line(&mut out, line1(Span { text: last, tone: Tone::Plain, bold: false }));
        },
    }
    assert(lines_view(out@) =~= login_step_body(l@, creds@, now));
    out
}

impl TuiApp {
    /// The body of the login picker, with the credentials stored at `now`
    /// (seconds since the Unix epoch); nothing outside the picker.
    pub fn login_lines(&self, credentials: &Credentials, now: i64) -> (r: Vec<Vec<Span>>)
        ensures
            match self@.state {
                AppStateView::LoginBrowsing(l) => lines_view(r@) == login_body(l, credentials@, now),
                _ => r@.len() == 0,
            },
    {
        match &self.state {
            AppState::LoginBrowsing(l) => {
                let mut out = login_step_lines(l, credentials, now);
                match &l.last_error {
                    Some(e) => {
                        push_line(&mut out, empty_line());
                        push_line(
                            &mut out,
                            line1(Span { text: concat2("Error: ", e.as_str()), tone: Tone::Error, bold: true }),
                        );
                    },
                    None => {},
                }
                assert(lines_view(out@) =~= login_body(l@, credentials@, now));
                out
            },
            _ => Vec::new(),
        }
    }
}


// ─── Model and session browsers ─────────────────────────────────────────────

/// The arrow marking the highlighted row of a browser.
pub open spec fn arrow(sel: bool) -> SpanView {
    sv(
        if sel {
            "\u{203a} "@
        } else {
            "  "@
        },
        if sel {
            Tone::Marker
        } else {
            Tone::Muted
        },
        sel,
    )
}

fn arrow_span(sel: bool) -> (s: Span)
    ensures
        s@ == arrow(sel),
{
    if sel {
        span("\u{203a} ", Tone::Marker, true)
    } else {
        span("  ", Tone::Muted, false)
    }
}

/// The line under a browser naming its search text, while typed or not.
pub open spec fn search_label(query: Seq<char>, typing: bool) -> Seq<char> {
    if typing {
        " Search (typing): "@ + query
    } else {
        " Search: "@ + query
    }
}

/// The search line under a browser.
pub fn search_line(query: &str, typing: bool) -> (r: String)
    ensures
        r@ == search_label(query@, typing),
{
    if typing {
        concat2(" Search (typing): ", query)
    } else {
        concat2(" Search: ", query)
    }
}

/// The header of the model browser: the provider and the sync status,
/// drawn as a warning while offline.
pub open spec fn model_header(provider: Seq<char>, status: Seq<char>) -> Seq<SpanView> {
    seq![
        sv(" Models "@, Tone::BrowserTitle, true),
        sv("("@ + provider + ") "@, Tone::Muted, false),
        sv(
            " "@ + status + " "@,
            if has_prefix(status, "Offline"@) {
                Tone::Warning
            } else {
                Tone::Muted
            },
            false,
        ),
    ]
}

/// The rows of the model browser: a note when there are none, else each
/// model with its provider, ids drawn as matches while searching.
pub open spec fn model_body(rows: Seq<EntryView>, query: Seq<char>, cursor: usize) -> Seq<Seq<SpanView>> {
    let searching = trim(query).len() != 0;
    if rows.len() == 0 {
        seq![
            one(
                if searching {
                    "  No matches for '"@ + query + "'."@
                } else {
                    "  No models available."@
                },
                Tone::Warning,
                false,
            ),
        ]
    } else {
        Seq::new(
            rows.len(),
            |i: int|
                seq![
                    arrow(i == cursor),
                    sv(
                        rows[i].id,
                        if searching {
                            Tone::Warning
                        } else {
                            Tone::Fg
                        },
                        i == cursor,
                    ),
                    sv("  ["@ + rows[i].provider + "]"@, Tone::Muted, false),
                ],
        )
    }
}

/// The rows of the model browser for `rows` (see [`model_body`]).
pub fn model_rows_lines(rows: &Vec<ModelCatalogEntry>, query: &str, cursor: usize) -> (r: Vec<Vec<Span>>)
    ensures
        lines_view(r@) == model_body(entry_views(rows@), query@, cursor),
{
    let searching = !is_blank(query);
    let mut out: Vec<Vec<Span>> = Vec::new();
    if rows.len() == 0 {
        let t = if searching {
            concat3("  No matches for '", query, "'.")
        } else {
            copy_str("  No models available.")
        };
        push_line(&mut out, line1(Span { text: t, tone: Tone::Warning, bold: false }));
        assert(lines_view(out@) =~= model_body(entry_views(rows@), query@, cursor));
        return out;
    }
    let ghost body = model_body(entry_views(rows@), query@, cursor);
    let mut i: usize = 0;
    while i < rows.len()
        invariant
            0 <= i <= rows.len(),
            rows.len() > 0,
            searching == (trim(query@).len() != 0),
            body == model_body(entry_views(rows@), query@, cursor),
            lines_view(out@) == body.take(i as int),
        decreases rows.len() - i,
    {
        let sel = i == cursor;
        let e = &rows[i];
        let row = line3(
            arrow_span(sel),
            span(
                e.id.as_str(),
                if searching {
                    Tone::Warning
                } else {
                    Tone::Fg
                },
                sel,
            ),
            Span { text: concat3("  [", e.provider.as_str(), "]"), tone: Tone::Muted, bold: false },
        );
        assert(entry_views(rows@)[i as int] == e@);
        assert(line_view(row@) =~= body[i as int]);
        push_line(&mut out, row);
        i = i + 1;
        assert(lines_view(out@) =~= body.take(i as int));
    }
    assert(body.take(rows.len() as int) =~= body);
    out
}

impl TuiApp {
    /// The header of the model browser; nothing outside it.
    pub fn model_browser_header(&self) -> (l: Vec<Span>)
        ensures
            match self@.state {
                AppStateView::ModelBrowsing { last_sync_status, .. } => line_view(l@) == model_header(
                    self@.model.model_provider,
                    last_sync_status,
                ),
                _ => l@.len() == 0,
            },
    {
        match &self.state {
            AppState::ModelBrowsing { last_sync_status, .. } => {
                let offline = starts_with(last_sync_status.as_str(), "Offline");
                line3(
                    span(" Models ", Tone::BrowserTitle, true),
                    Span {
                        text: concat3("(", self.model.model_provider.as_str(), ") "),
                        tone: Tone::Muted,
                        bold: false,
                    },
                    Span {
                        text: concat3(" ", last_sync_status.as_str(), " "),
                        tone: if offline {
                            Tone::Warning
                        } else {
                            Tone::Muted
                        },
                        bold: false,
                    },
                )
            },
            _ => Vec::new(),
        }
    }

    /// The rows of the model browser; nothing outside it.
    pub fn model_browser_lines(&self) -> (r: Vec<Vec<Span>>)
        ensures
            match self@.state {
                AppStateView::ModelBrowsing { query, cursor, .. } => lines_view(r@) == model_body(
                    crate::catalog::browser_rows(self@.model.model_entries, query),
                    query,
                    cursor,
                ),
                _ => r@.len() == 0,
            },
    {
        match &self.state {
            AppState::ModelBrowsing { query, cursor, .. } => {
                let rows = self.visible_model_entries(query.as_str());
                model_rows_lines(&rows, query.as_str(), *cursor)
            },
            _ => Vec::new(),
        }
    }
}

/// The header of the session browser listing `count` sessions.
pub open spec fn session_header(count: nat) -> Seq<SpanView> {
    seq![sv(" Sessions "@, Tone::BrowserTitle, true), sv("("@ + decimal(count) + ") "@, Tone::Muted, false)]
}

/// The header of the session browser.
pub fn session_header_line(count: usize) -> (l: Vec<Span>)
    ensures
        line_view(l@) == session_header(count as nat),
{
    let n = u64_to_string(count as u64);
    line2(
        span(" Sessions ", Tone::BrowserTitle, true),
        Span { text: concat3("(", n.as_str(), ") "), tone: Tone::Muted, bold: false },
    )
}

/// A session id cut to its first 8 bytes.
pub open spec fn short_id(id: Seq<char>) -> Seq<char> {
    if utf8_len(id) > 8 {
        id.take(char_index_of(id, 8))
    } else {
        id
    }
}

/// The id can be cut to 8 bytes (its 8th byte ends a character).
pub open spec fn id_cuttable(id: Seq<char>) -> bool {
    utf8_len(id) > 8 ==> is_boundary(id, 8)
}

/// A session row: arrow, short id (accented for the session in use), the
/// preview text, the time text and a mark for the session in use.
pub open spec fn session_row(
    s: SessionView,
    sel: bool,
    active: Seq<char>,
    preview: Seq<char>,
    time: Seq<char>,
) -> Seq<SpanView> {
    let is_active = s.id == active;
    seq![
        arrow(sel),
        sv(
            short_id(s.id),
            if is_active {
                Tone::Accent
            } else {
                Tone::Fg
            },
            sel,
        ),
        sv("  "@ + preview, Tone::Muted, false),
        sv("  "@ + time, Tone::Dim, false),
        sv(
            if is_active {
                " \u{2190} active"@
            } else {
                Seq::empty()
            },
            Tone::Accent,
            false,
        ),
    ]
}

/// The rows of the session browser: a note when there are none, else one
/// row per session with its shown preview and time.
pub open spec fn session_body(
    rows: Seq<SessionView>,
    active: Seq<char>,
    cursor: usize,
    query: Seq<char>,
    previews: Seq<Seq<char>>,
    times: Seq<Seq<char>>,
) -> Seq<Seq<SpanView>> {
    if rows.len() == 0 {
        seq![
            one(
                if trim(query).len() != 0 {
                    "  No matches for '"@ + query + "'."@
                } else {
                    "  No sessions available."@
                },
                Tone::Warning,
                false,
            ),
        ]
    } else {
        Seq::new(
            rows.len(),
            |i: int| session_row(rows[i], i == cursor, active, previews[i], times[i]),
        )
    }
}

/// A session id cut to its first 8 bytes.
fn short_id_text(id: &str) -> (r: String)
    requires
        id_cuttable(id@),
    ensures
        r@ == short_id(id@),
{
    let v = chars_of(id);
    if longer_than_bytes(&v, 8) {
        match char_index_at(&v, 8) {
            Some(k) => {
                let r = string_from_range(&v, 0, k);
                assert(v@.subrange(0, k as int) =~= v@.take(k as int));
                r
            },
            None => copy_str(id),
        }
    } else {
        copy_str(id)
    }
}

/// The rows of the session browser for `rows`, with the preview and time
/// texts shown for each (see [`session_body`]).
pub fn session_rows_lines(
    rows: &Vec<SessionEntry>,
    active: &str,
    cursor: usize,
    query: &str,
    previews: &Vec<String>,
    times: &Vec<String>,
) -> (r: Vec<Vec<Span>>)
    requires
        previews.len() == rows.len(),
        times.len() == rows.len(),
        forall|i: int| 0 <= i < rows.len() ==> id_cuttable(#[trigger] rows@[i].id@),
    ensures
        lines_view(r@) == session_body(
            session_views(rows@),
            active@,
            cursor,
            query@,
            string_views(previews@),
            string_views(times@),
        ),
{
    let ghost body = session_body(
        session_views(rows@),
        active@,
        cursor,
        query@,
        string_views(previews@),
        string_views(times@),
    );
    let mut out: Vec<Vec<Span>> = Vec::new();
    if rows.len() == 0 {
        let t = if !is_blank(query) {
            concat3("  No matches for '", query, "'.")
        } else {
            copy_str("  No sessions available.")
        };
        push_line(&mut out, line1(Span { text: t, tone: Tone::Warning, bold: false }));
        assert(lines_view(out@) =~= body);
        return out;
    }
    let mut i: usize = 0;
    while i < rows.len()
        invariant
            0 <= i <= rows.len(),
            rows.len() > 0,
            previews.len() == rows.len(),
            times.len() == rows.len(),
            forall|j: int| 0 <= j < rows.len() ==> id_cuttable(#[trigger] rows@[j].id@),
            body == session_body(
                session_views(rows@),
                active@,
                cursor,
                query@,
                string_views(previews@),
                string_views(times@),
            ),
            lines_view(out@) == body.take(i as int),
        decreases rows.len() - i,
    {
        let e = &rows[i];
        let sel = i == cursor;
        let is_active = str_eq(e.id.as_str(), active);
        let id = short_id_text(e.id.as_str());
        let mut row = line3(
            arrow_span(sel),
            Span {
                text: id,
                tone: if is_active {
                    Tone::Accent
                } else {
                    Tone::Fg
                },
                bold: sel,
            },
            Span { text: concat2("  ", previews[i].as_str()), tone: Tone::Muted, bold: false },
        );
        push_span(&mut row, Span { text: concat2("  ", times[i].as_str()), tone: Tone::Dim, bold: false });
        push_span(
            &mut row,
            span(
                if is_active {
                    " \u{2190} active"
                } else {
                    ""
                },
                Tone::Accent,
                false,
            ),
        );
        proof {
            reveal_strlit("");
            assert(""@ =~= Seq::<char>::empty());
        }
        assert(session_views(rows@)[i as int] == e@);
        assert(string_views(previews@)[i as int] == previews@[i as int]@);
        assert(string_views(times@)[i as int] == times@[i as int]@);
        assert(body[i as int] == session_row(e@, sel, active@, previews@[i as int]@, times@[i as int]@));
        assert(line_view(row@) =~= body[i as int]);
        push_line(&mut out, row);
        i = i + 1;
        assert(lines_view(out@) =~= body.take(i as int));
    }
    assert(body.take(rows.len() as int) =~= body);
    out
}


// ─── Conversation history ───────────────────────────────────────────────────

/// The lines of `s` as `str::lines` yields them: split at each `'\n'`, a
/// `'\r'` right before it dropped, no empty line after a final `'\n'`.
pub open spec fn text_lines(s: Seq<char>) -> Seq<Seq<char>>
    decreases s.len(),
{
    if s.len() == 0 {
        Seq::empty()
    } else {
        let n = newline_from(s, 0);
        if n >= s.len() {
            seq![s]
        } else {
            proof {
                lemma_newline_from_bounds(s, 0);
            }
            seq![first_line(s)] + text_lines(s.skip(n + 1))
        }
    }
}

/// The lines of `s` (see [`text_lines`]).
pub fn split_lines(s: &str) -> (r: Vec<String>)
    ensures
        string_views(r@) == text_lines(s@),
{
    let v = chars_of(s);
    let mut out: Vec<String> = Vec::new();
    let mut i: usize = 0;
    assert(v@.skip(0) =~= v@);
    while i < v.len()
        invariant
            0 <= i <= v.len(),
            v@ == s@,
            text_lines(s@) == string_views(out@) + text_lines(s@.skip(i as int)),
        decreases v.len() - i,
    {
        let ghost rest = s@.skip(i as int);
        let mut j: usize = i;
        while j < v.len() && v[j] != '\n'
            invariant
                i <= j <= v.len(),
                v@ == s@,
                rest == s@.skip(i as int),
                forall|k: int| i <= k < j ==> v@[k] != '\n',
            decreases v.len() - j,
        {
            j = j + 1;
        }
        proof {
            lemma_newline_from_bounds(rest, 0);
            let n = newline_from(rest, 0);
            if n < j - i {
                assert(rest[n] == v@[i + n]);
            }
            if n > j - i {
                assert(rest[j - i] == v@[j as int]);
            }
            assert(n == j - i);
        }
        let ghost before = string_views(out@);
        if j < v.len() {
            let end = if j > i && v[j - 1] == '\r' {
                j - 1
            } else {
                j
            };
            let piece = string_from_range(&v, i, end);
            assert(piece@ =~= first_line(rest));
            out.push(piece);
            assert(rest.skip((j - i) + 1) =~= s@.skip(j + 1));
            assert(string_views(out@) =~= before.push(first_line(rest)));
            assert(text_lines(rest) == seq![first_line(rest)] + text_lines(s@.skip(j + 1)));
            assert(string_views(out@) + text_lines(s@.skip(j + 1)) =~= before + text_lines(rest));
            i = j + 1;
        } else {
            let piece = string_from_range(&v, i, j);
            assert(piece@ =~= rest);
            out.push(piece);
            assert(string_views(out@) =~= before.push(rest));
            assert(s@.skip(j as int) =~= Seq::<char>::empty());
            assert(text_lines(rest) == seq![rest]);
            assert(string_views(out@) + text_lines(s@.skip(j as int)) =~= before + text_lines(rest));
            i = j;
        }
    }
    assert(s@.skip(i as int) =~= Seq::<char>::empty());
    assert(string_views(out@) + text_lines(s@.skip(i as int)) =~= string_views(out@));
    out
}

/// The lines of an answer: the first after the `Agent:` label, the others
/// indented under it.
pub open spec fn answer_lines(ls: Seq<Seq<char>>) -> Seq<Seq<SpanView>> {
    Seq::new(
        ls.len(),
        |i: int|
            if i == 0 {
                seq![sv("Agent: "@, Tone::AssistantLabel, true), sv(ls[0], Tone::Plain, false)]
            } else {
                one("       "@ + ls[i], Tone::Plain, false)
            },
    )
}

/// The lines of one message of the history.
pub open spec fn message_lines(msg: MessageView) -> Seq<Seq<SpanView>> {
    match msg {
        MessageView::User(t) => seq![
            blank(),
            seq![sv("You: "@, Tone::UserLabel, true), sv(t, Tone::Plain, false)],
        ],
        MessageView::Assistant(t) => seq![blank()] + answer_lines(text_lines(t)),
        MessageView::ToolCall { tool_name, args_preview, done } => seq![
            seq![
                sv(
                    "  ["@ + (if done {
                        "\u{2713}"@
                    } else {
                        "\u{27f3}"@
                    }) + " "@ + tool_name + "] "@,
                    Tone::ToolCall,
                    false,
                ),
                sv(args_preview, Tone::Muted, false),
            ],
        ],
        MessageView::ToolResult { tool_name, output_preview, is_error } => seq![
            one(
                "    ["@ + tool_name + "] \u{2192} "@ + output_preview,
                if is_error {
                    Tone::Error
                } else {
                    Tone::ToolResult
                },
                false,
            ),
        ],
        MessageView::Error(t) => seq![blank(), one("Error: "@ + t, Tone::Error, true)],
    }
}

/// The lines of the history, oldest message first.
pub open spec fn chat_body(msgs: Seq<MessageView>) -> Seq<Seq<SpanView>>
    decreases msgs.len(),
{
    if msgs.len() == 0 {
        Seq::empty()
    } else {
        chat_body(msgs.drop_last()) + message_lines(msgs.last())
    }
}

/// The lines of one message.
fn message_line_list(msg: &TuiMessage) -> (r: Vec<Vec<Span>>)
    ensures
        lines_view(r@) == message_lines(msg@),
{
    let mut out: Vec<Vec<Span>> = Vec::new();
    match msg {
        TuiMessage::User(t) => {
            push_line(&mut out, empty_line());
            push_line(&mut out, line2(span("You: ", Tone::UserLabel, true), span(t.as_str(), Tone::Plain, false)));
        },
        TuiMessage::Assistant(t) => {
            push_line(&mut out, empty_line());
            let ls = split_lines(t.as_str());
            let ghost tl = text_lines(t@);
            let mut i: usize = 0;
            while i < ls.len()
                invariant
                    0 <= i <= ls.len(),
                    string_views(ls@) == tl,
                    lines_view(out@) == seq![blank()] + answer_lines(tl).take(i as int),
                decreases ls.len() - i,
            {
                let l = if i == 0 {
                    line2(span("Agent: ", Tone::AssistantLabel, true), span(ls[i].as_str(), Tone::Plain, false))
                } else {
                    line1(Span { text: concat2("       ", ls[i].as_str()), tone: Tone::Plain, bold: false })
                };
                assert(tl[i as int] == ls@[i as int]@);
                assert(line_view(l@) =~= answer_lines(tl)[i as int]);
                push_line(&mut out, l);
                i = i + 1;
                assert(lines_view(out@) =~= seq![blank()] + answer_lines(tl).take(i as int));
            }
            assert(answer_lines(tl).take(ls.len() as int) =~= answer_lines(tl));
        },
        TuiMessage::ToolCall { tool_name, args_preview, done } => {
            let head = concat3(
                "  [",
                if *done {
                    "\u{2713}"
                } else {
                    "\u{27f3}"
                },
                " ",
            );
            let t = concat3(head.as_str(), tool_name.as_str(), "] ");
            push_line(
                &mut out,
                line2(Span { text: t, tone: Tone::ToolCall, bold: false }, span(args_preview.as_str(), Tone::Muted, false)),
            );
        },
        TuiMessage::ToolResult { tool_name, output_preview, is_error } => {
            let head = concat3("    [", tool_name.as_str(), "] \u{2192} ");
            let t = concat2(head.as_str(), output_preview.as_str());
            push_line(
                &mut out,
                line1(
                    Span {
                        text: t,
                        tone: if *is_error {
                            Tone::Error
                        } else {
                            Tone::ToolResult
                        },
                        bold: false,
                    },
                ),
            );
        },
        TuiMessage::Error(t) => {
            push_line(&mut out, empty_line());
            push_line(&mut out, line1(Span { text: concat2("Error: ", t.as_str()), tone: Tone::Error, bold: true }));
        },
    }
    assert(lines_view(out@) =~= message_lines(msg@));
    out
}

impl TuiApp {
    /// The lines of the conversation history (see [`chat_body`]).
    pub fn chat_lines(&self) -> (r: Vec<Vec<Span>>)
        ensures
            lines_view(r@) == chat_body(self@.chat.messages),
    {
        let ghost msgs = self@.chat.messages;
        let mut out: Vec<Vec<Span>> = Vec::new();
        let mut i: usize = 0;
        assert(msgs.take(0) =~= Seq::<MessageView>::empty());
        while i < self.chat.messages.len()
            invariant
                0 <= i <= self.chat.messages.len(),
                msgs == self@.chat.messages,
                msgs.len() == self.chat.messages.len(),
                lines_view(out@) == chat_body(msgs.take(i as int)),
            decreases self.chat.messages.len() - i,
        {
            let more = message_line_list(&self.chat.messages[i]);
            assert(msgs[i as int] == self.chat.messages@[i as int]@);
            assert(msgs.take(i + 1).drop_last() =~= msgs.take(i as int));
            append_lines(&mut out, more);
            i = i + 1;
        }
        assert(msgs.take(i as int) =~= msgs);
        out
    }
}

// ─── Tool approval dialog ───────────────────────────────────────────────────

/// The pretty-printed form of the JSON text `text` (`serde_json::from_str`
/// into a JSON value, then `serde_json::to_string_pretty`), or `None` when
/// `text` is not JSON.
pub uninterp spec fn json_pretty(text: Seq<char>) -> Option<Seq<char>>;

/// Parses `text` with `serde_json::from_str` as a `serde_json::Value` and
/// prints it back with `serde_json::to_string_pretty`. The contract only
/// names the result: the layout of the printed JSON is serde_json's, and
/// it depends on `text` alone.
#[verifier::external_body]
fn pretty_json(text: &str) -> (r: Option<String>)
    ensures
        opt_view(r) == json_pretty(text@),
{
    match serde_json::from_str::<serde_json::Value>(text) {
        Ok(v) => match serde_json::to_string_pretty(&v) {
            Ok(p) => Some(p),
            Err(_) => None,
        },
        Err(_) => None,
    }
}

/// At most the first `n` characters of `s`.
pub open spec fn first_chars(s: Seq<char>, n: nat) -> Seq<char> {
    if s.len() > n {
        s.take(n as int)
    } else {
        s
    }
}

/// The approval dialog for a call of `tool` with JSON arguments `args`: the
/// tool, the first 200 characters of the pretty-printed arguments (of the
/// text itself when it is not JSON) and the decision keys.
pub open spec fn approval_body(tool: Seq<char>, args: Seq<char>) -> Seq<Seq<SpanView>> {
    let shown = match json_pretty(args) {
        Some(p) => p,
        None => args,
    };
    seq![
        one(" Tool Approval Required "@, Tone::Warning, true),
        one(" Tool: "@ + tool, Tone::Fg, false),
        one(" Args: "@ + first_chars(shown, 200), Tone::Dim, false),
        blank(),
        seq![
            sv(" y"@, Tone::Success, true),
            sv(": approve  "@, Tone::Muted, false),
            sv("n"@, Tone::Error, true),
            sv(": reject  "@, Tone::Muted, false),
            sv("a"@, Tone::Accent, true),
            sv(": allow for session"@, Tone::Muted, false),
        ],
    ]
}

impl TuiApp {
    /// The approval dialog of the tool call waiting for a decision; nothing
    /// when none waits.
    pub fn approval_lines(&self) -> (r: Vec<Vec<Span>>)
        ensures
            match self@.chat.pending_approval {
                Some(a) => lines_view(r@) == approval_body(a.tool_name, a.arguments),
                None => r@.len() == 0,
            },
    {
        match &self.chat.pending_approval {
            Some(p) => {
                let args = p.request.arguments.as_str();
                let shown = match pretty_json(args) {
                    Some(t) => t,
                    None => copy_str(args),
                };
                let v = chars_of(shown.as_str());
                let preview = if v.len() > 200 {
                    string_from_range(&v, 0, 200)
                } else {
                    copy_str(shown.as_str())
                };
                assert(v@.subrange(0, 200) =~= v@.take(200));
                let mut out: Vec<Vec<Span>> = Vec::new();
                push_line(&mut out, line1(span(" Tool Approval Required ", Tone::Warning, true)));
                push_line(
                    &mut out,
                    line1(Span { text: concat2(" Tool: ", p.request.tool_name.as_str()), tone: Tone::Fg, bold: false }),
                );
                push_line(
                    &mut out,
                    line1(Span { text: concat2(" Args: ", preview.as_str()), tone: Tone::Dim, bold: false }),
                );
                push_line(&mut out, empty_line());
                let mut keys = line2(span(" y", Tone::Success, true), span(": approve  ", Tone::Muted, false));
                push_span(&mut keys, span("n", Tone::Error, true));
                push_span(&mut keys, span(": reject  ", Tone::Muted, false));
                push_span(&mut keys, span("a", Tone::Accent, true));
                push_span(&mut keys, span(": allow for session", Tone::Muted, false));
                let ghost a = self@.chat.pending_approval->0;
                assert(line_view(keys@) =~= approval_body(a.tool_name, a.arguments)[4]);
                push_line(&mut out, keys);
                assert(lines_view(out@) =~= approval_body(a.tool_name, a.arguments));
                out
            },
            None => Vec::new(),
        }
    }
}


// ─── Geometry ───────────────────────────────────────────────────────────────

/// The first line shown of a scrolled text of `content` lines in a box of
/// `visible` lines: the requested `scroll`, no further than the last page.
pub open spec fn clamped_scroll(scroll: u16, content: u16, visible: u16) -> u16 {
    let max = sat_sub16(content, visible);
    if scroll < max {
        scroll
    } else {
        max
    }
}

/// The scroll offset actually used (see [`clamped_scroll`]).
pub fn clamp_scroll(scroll: u16, content: u16, visible: u16) -> (r: u16)
    ensures
        r == clamped_scroll(scroll, content, visible),
{
    let max = if content >= visible {
        content - visible
    } else {
        0
    };
    if scroll < max {
        scroll
    } else {
        max
    }
}

/// A `width` × `height` dialog centred in `area` (offsets counted from the
/// screen's corner, as the dialogs are drawn over the whole screen).
pub open spec fn popup(area: Rect, width: u16, height: u16) -> Rect {
    Rect {
        x: (sat_sub16(area.width, width) / 2) as u16,
        y: (sat_sub16(area.height, height) / 2) as u16,
        width,
        height,
    }
}

/// The rectangle of a centred dialog (see [`popup`]).
pub fn popup_area(area: Rect, width: u16, height: u16) -> (r: Rect)
    ensures
        r == popup(area, width, height),
{
    let w = if area.width >= width {
        area.width - width
    } else {
        0
    };
    let h = if area.height >= height {
        area.height - height
    } else {
        0
    };
    Rect { x: w / 2, y: h / 2, width, height }
}

} // verus!
