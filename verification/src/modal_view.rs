//! What each modal shows: its title, body lines with their emphasis, footer, and the row that
//! must stay on screen. The terminal layer paints these; it decides nothing about their content.

use vstd::prelude::*;

use crate::i18n::{Locale, interpolate, translated, tr, t_with1};
use crate::modal::{
    ConnectStep, ConnectStepV, Modal, ModalV, ModelsStep, ModelsStepV, ProviderRow,
    ProviderRowV, rows_v, strs_v,
};
use crate::provider::{OfflineReason, notice, offline_notice};
use crate::text::{chars_of, extend_chars, repeat, string_of};

verus! {

/// The emphasis of a rendered line.
#[derive(Debug, Clone, Copy, PartialEq, Eq, Structural)]
pub enum LineStyle {
    Plain,
    /// The highlighted row of a list.
    Selected,
    /// Secondary text: progress, hints, remedies.
    Muted,
    /// Error text.
    Error,
    /// A warning that precedes the body.
    Notice,
    /// An input field.
    Input,
}

/// One rendered line.
#[derive(Debug, Clone, PartialEq, Eq)]
pub struct StyledLine {
    pub text: String,
    pub style: LineStyle,
}

/// A modal rendered as a centered popup over the screen underneath it.
#[derive(Debug, Clone, PartialEq, Eq)]
pub struct PopupView {
    pub title: String,
    pub body: Vec<StyledLine>,
    pub footer: String,
    /// A body row that must stay on screen.
    pub focus: Option<usize>,
}

/// A modal rendered as a full-area pane, replacing the screen underneath it.
#[derive(Debug, Clone, PartialEq, Eq)]
pub struct FullScreenView {
    pub title: String,
    pub body: Vec<String>,
}

/// A modal's rendering.
#[derive(Debug, Clone, PartialEq, Eq)]
pub enum ModalView {
    Popup(PopupView),
    FullScreen(FullScreenView),
}

/// The slice of client state a modal needs to render itself.
pub struct ModalContext<'a> {
    pub locale: Locale,
    /// The client-level error line, rendered inside the connect key-entry step.
    pub error: Option<&'a str>,
    /// Why the active provider is offline, rendered by the models modal's offline step.
    pub offline: Option<&'a OfflineReason>,
}

/// A rendered line as text and emphasis.
pub type LineV = (Seq<char>, LineStyle);

/// The model of a popup: title, body lines, footer, focused row.
pub struct PopupV {
    pub title: Seq<char>,
    pub body: Seq<LineV>,
    pub footer: Seq<char>,
    pub focus: Option<int>,
}

/// The model of a modal's rendering.
pub enum ModalViewV {
    Popup(PopupV),
    FullScreen { title: Seq<char>, body: Seq<Seq<char>> },
}

/// The views of rendered lines.
pub open spec fn lines_v(lines: Seq<StyledLine>) -> Seq<LineV> {
    lines.map_values(|l: StyledLine| (l.text@, l.style))
}

impl View for PopupView {
    type V = PopupV;

    open spec fn view(&self) -> PopupV {
        PopupV {
            title: self.title@,
            body: lines_v(self.body@),
            footer: self.footer@,
            focus: match self.focus {
                Some(i) => Some(i as int),
                None => None,
            },
        }
    }
}

impl View for ModalView {
    type V = ModalViewV;

    open spec fn view(&self) -> ModalViewV {
        match self {
            ModalView::Popup(p) => ModalViewV::Popup(p@),
            ModalView::FullScreen(f) => ModalViewV::FullScreen {
                title: f.title@,
                body: strs_v(f.body@),
            },
        }
    }
}

/// A list row's marker: `> ` on the highlighted row, two spaces elsewhere.
pub open spec fn marker(selected: bool) -> Seq<char> {
    if selected {
        "> "@
    } else {
        "  "@
    }
}

/// A list row: the marker, the text, highlighted when selected.
pub open spec fn list_line(text: Seq<char>, selected: bool) -> LineV {
    (
        marker(selected) + text,
        if selected {
            LineStyle::Selected
        } else {
            LineStyle::Plain
        },
    )
}

/// A provider row's text: its id, with ` (connected)` when a key is configured.
pub open spec fn provider_text(locale: Locale, row: ProviderRowV) -> Seq<char> {
    if row.connected {
        row.id + " ("@ + translated(locale, "connect.connected"@) + ")"@
    } else {
        row.id
    }
}

/// The provider list's lines.
pub open spec fn provider_lines(locale: Locale, rows: Seq<ProviderRowV>, selected: int) -> Seq<LineV> {
    Seq::new(rows.len(), |i: int| list_line(provider_text(locale, rows[i]), i == selected))
}

/// A model list's lines.
pub open spec fn model_lines(models: Seq<Seq<char>>, selected: int) -> Seq<LineV> {
    Seq::new(models.len(), |i: int| list_line(models[i], i == selected))
}

/// A secret rendered as one `*` per character.
pub open spec fn masked(input: Seq<char>) -> Seq<char> {
    repeat('*', input.len())
}

/// An error appended below a body, after a blank line, when there is one.
pub open spec fn error_tail(error: Option<Seq<char>>) -> Seq<LineV> {
    match error {
        Some(e) => seq![(Seq::<char>::empty(), LineStyle::Plain), (e, LineStyle::Error)],
        None => Seq::empty(),
    }
}

/// The text `key` with `{provider}` filled in.
pub open spec fn with_provider(locale: Locale, key: Seq<char>, provider: Seq<char>) -> Seq<char> {
    interpolate(translated(locale, key), seq![("provider"@, provider)])
}

/// The connect modal's rendering, given the client-level error line.
pub open spec fn connect_popup(locale: Locale, error: Option<Seq<char>>, s: ConnectStepV) -> PopupV {
    match s {
        ConnectStepV::ProviderList { rows, selected } => PopupV {
            title: translated(locale, "connect.title"@),
            body: provider_lines(locale, rows, selected),
            footer: translated(locale, "connect.footer_list"@),
            focus: Some(selected),
        },
        ConnectStepV::KeyEntry { provider, input, .. } => PopupV {
            title: translated(locale, "connect.key_heading"@),
            body: seq![
                (with_provider(locale, "status.key_enter"@, provider), LineStyle::Plain),
                (Seq::<char>::empty(), LineStyle::Plain),
                (masked(input), LineStyle::Input),
            ] + error_tail(error),
            footer: translated(locale, "connect.footer_key"@),
            focus: None,
        },
        ConnectStepV::ModelList { provider, models, selected, fetching, error: fetch_error, .. } =>
            PopupV {
            title: with_provider(locale, "connect.models_heading"@, provider),
            body: if fetching {
                seq![(translated(locale, "connect.fetching"@), LineStyle::Muted)]
            } else if fetch_error is Some {
                seq![(fetch_error->0, LineStyle::Error)]
            } else if models.len() == 0 {
                seq![(translated(locale, "connect.no_models"@), LineStyle::Muted)]
            } else {
                model_lines(models, selected)
            },
            footer: if fetching {
                translated(locale, "connect.footer_fetching"@)
            } else {
                translated(locale, "connect.footer_models"@)
            },
            focus: if !fetching && models.len() > 0 {
                Some(selected)
            } else {
                None
            },
        },
    }
}

/// The `/models` modal's rendering, given why the provider is offline (if it is).
pub open spec fn models_popup(locale: Locale, offline: Option<OfflineReason>, s: ModelsStepV) -> PopupV {
    let title = translated(locale, "models.title"@);
    match s {
        ModelsStepV::Offline => PopupV {
            title,
            body: match offline {
                Some(reason) => seq![
                    (notice(locale, reason), LineStyle::Notice),
                    (Seq::<char>::empty(), LineStyle::Plain),
                ],
                None => Seq::empty(),
            } + seq![(translated(locale, "models.offline"@), LineStyle::Muted)],
            footer: translated(locale, "models.footer_offline"@),
            focus: None,
        },
        ModelsStepV::ModelList { models, selected, fetching, .. } => if fetching {
            PopupV {
                title,
                body: seq![(translated(locale, "connect.fetching"@), LineStyle::Muted)],
                footer: translated(locale, "connect.footer_fetching"@),
                focus: None,
            }
        } else if models.len() == 0 {
            PopupV {
                title,
                body: seq![(translated(locale, "connect.no_models"@), LineStyle::Muted)],
                footer: translated(locale, "models.footer_retry"@),
                focus: None,
            }
        } else {
            PopupV {
                title,
                body: model_lines(models, selected),
                footer: translated(locale, "models.footer_list"@),
                focus: Some(selected),
            }
        },
        ModelsStepV::Credentials { provider, error } => PopupV {
            title,
            body: seq![
                (translated(locale, "models.credentials_hint"@), LineStyle::Muted),
                (with_provider(locale, "models.credentials_remedy"@, provider), LineStyle::Muted),
                (Seq::<char>::empty(), LineStyle::Plain),
                (error, LineStyle::Error),
            ],
            footer: translated(locale, "models.footer_retry"@),
            focus: None,
        },
        ModelsStepV::Manual { provider, input, error } => PopupV {
            title,
            body: seq![
                (with_provider(locale, "models.manual_unverified"@, provider), LineStyle::Muted),
                (input, LineStyle::Input),
            ] + error_tail(error),
            footer: translated(locale, "models.footer_manual"@),
            focus: None,
        },
    }
}

/// One help section: the header, its entries indented by two spaces, and a blank line.
pub open spec fn help_section(locale: Locale, header: Seq<char>, entries: Seq<Seq<char>>) -> Seq<
    Seq<char>,
> {
    seq![translated(locale, header)] + Seq::new(
        entries.len(),
        |k: int| "  "@ + translated(locale, entries[k]),
    ) + seq![Seq::<char>::empty()]
}

/// The help modal's body.
pub open spec fn help_body(locale: Locale) -> Seq<Seq<char>> {
    help_section(
        locale,
        "help.section.global"@,
        seq!["help.global.help"@, "help.global.quit"@],
    ) + help_section(
        locale,
        "help.section.forms"@,
        seq![
            "help.forms.navigate"@,
            "help.forms.submit"@,
            "help.forms.command"@,
            "help.forms.back"@,
        ],
    ) + help_section(
        locale,
        "help.section.connected"@,
        seq![
            "help.connected.ping"@,
            "help.connected.signout"@,
            "help.connected.engine"@,
            "help.connected.quit"@,
        ],
    ) + help_section(
        locale,
        "help.section.engine"@,
        seq!["help.engine.send"@, "help.engine.back"@, "help.engine.approve"@],
    ) + help_section(
        locale,
        "help.section.commands"@,
        seq![
            "help.commands.ask"@,
            "help.commands.connect"@,
            "help.commands.model"@,
            "help.commands.models"@,
            "help.commands.key"@,
            "help.commands.auth"@,
            "help.commands.lang"@,
        ],
    )
}

/// Any modal's rendering.
pub open spec fn modal_view_of(
    locale: Locale,
    error: Option<Seq<char>>,
    offline: Option<OfflineReason>,
    m: ModalV,
) -> ModalViewV {
    match m {
        ModalV::Help => ModalViewV::FullScreen {
            title: translated(locale, "title.help"@),
            body: help_body(locale),
        },
        ModalV::Connect(s) => ModalViewV::Popup(connect_popup(locale, error, s)),
        ModalV::Models(s) => ModalViewV::Popup(models_popup(locale, offline, s)),
    }
}

/// Mask a secret for rendering: one `*` per character, never the input value.
pub fn mask(input: &str) -> (r: String)
    ensures
        r@ == masked(input@),
{
    let n = chars_of(input).len();
    let mut v: Vec<char> = Vec::new();
    let mut i: usize = 0;
    while i < n
        invariant
            i <= n,
            n == input@.len(),
            v@ == repeat('*', i as nat),
        decreases n - i,
    {
        v.push('*');
        i = i + 1;
        assert(v@ =~= repeat('*', i as nat));
    }
    string_of(&v)
}

/// `a` followed by `b`.
fn join(a: &str, b: &str) -> (r: String)
    ensures
        r@ == a@ + b@,
{
    let mut v = chars_of(a);
    extend_chars(&mut v, &chars_of(b));
    string_of(&v)
}

/// A list row for `text`.
fn list_row(text: &str, selected: bool) -> (r: StyledLine)
    ensures
        (r.text@, r.style) == list_line(text@, selected),
{
    let text = if selected {
        join("> ", text)
    } else {
        join("  ", text)
    };
    StyledLine {
        text,
        style: if selected {
            LineStyle::Selected
        } else {
            LineStyle::Plain
        },
    }
}

/// The provider list's lines.
fn provider_rows(locale: Locale, rows: &Vec<ProviderRow>, selected: usize) -> (r: Vec<StyledLine>)
    ensures
        lines_v(r@) == provider_lines(locale, rows_v(rows@), selected as int),
{
    let mut out: Vec<StyledLine> = Vec::new();
    let mut i: usize = 0;
    while i < rows.len()
        invariant
            i <= rows.len(),
            out@.len() == i,
            forall|k: int|
                0 <= k < i ==> ((#[trigger] out@[k]).text@, out@[k].style) == provider_lines(
                    locale,
                    rows_v(rows@),
                    selected as int,
                )[k],
        decreases rows.len() - i,
    {
        let row = &rows[i];
        assert(rows_v(rows@)[i as int] == row@);
        let text = if row.connected {
            let mut v = chars_of(row.id.as_str());
            extend_chars(&mut v, &chars_of(" ("));
            extend_chars(&mut v, &chars_of(crate::i18n::t(locale, "connect.connected")));
            extend_chars(&mut v, &chars_of(")"));
            string_of(&v)
        } else {
            row.id.clone()
        };
        let line = list_row(text.as_str(), i == selected);
        out.push(line);
        i = i + 1;
    }
    assert(lines_v(out@) =~= provider_lines(locale, rows_v(rows@), selected as int));
    out
}

/// A model list's lines.
fn model_rows(models: &Vec<String>, selected: usize) -> (r: Vec<StyledLine>)
    ensures
        lines_v(r@) == model_lines(strs_v(models@), selected as int),
{
    let mut out: Vec<StyledLine> = Vec::new();
    let mut i: usize = 0;
    while i < models.len()
        invariant
            i <= models.len(),
            out@.len() == i,
            forall|k: int|
                0 <= k < i ==> ((#[trigger] out@[k]).text@, out@[k].style) == model_lines(
                    strs_v(models@),
                    selected as int,
                )[k],
        decreases models.len() - i,
    {
        assert(strs_v(models@)[i as int] == models@[i as int]@);
        let line = list_row(models[i].as_str(), i == selected);
        out.push(line);
        i = i + 1;
    }
    assert(lines_v(out@) =~= model_lines(strs_v(models@), selected as int));
    out
}

/// A line of `text` with emphasis `style`.
fn styled(text: String, style: LineStyle) -> (r: StyledLine)
    ensures
        r.text@ == text@,
        r.style == style,
{
    StyledLine { text, style }
}

/// An empty plain line.
fn blank() -> (r: StyledLine)
    ensures
        r.text@ == Seq::<char>::empty(),
        r.style == LineStyle::Plain,
{
    StyledLine { text: String::new(), style: LineStyle::Plain }
}

/// The view of an optional string slice.
pub open spec fn opt_v(o: Option<&str>) -> Option<Seq<char>> {
    match o {
        Some(s) => Some(s@),
        None => None,
    }
}

/// The view of an optional owned string.
pub open spec fn opt_string_v(o: Option<String>) -> Option<Seq<char>> {
    match o {
        Some(s) => Some(s@),
        None => None,
    }
}

/// The view of an optional offline reason.
pub open spec fn opt_reason(o: Option<&OfflineReason>) -> Option<OfflineReason> {
    match o {
        Some(r) => Some(*r),
        None => None,
    }
}

/// Appends the error tail for `error` to `body`.
fn push_error_tail(body: &mut Vec<StyledLine>, error: Option<&str>)
    ensures
        lines_v(final(body)@) == lines_v(old(body)@) + error_tail(opt_v(error)),
{
    let ghost before = body@;
    if let Some(e) = error {
        body.push(blank());
        body.push(styled(string_of(&chars_of(e)), LineStyle::Error));
        assert(lines_v(body@) =~= lines_v(before) + error_tail(opt_v(error)));
    } else {
        assert(lines_v(body@) =~= lines_v(before) + error_tail(opt_v(error)));
    }
}

/// The connect modal's rendering.
pub fn connect_view(step: &ConnectStep, ctx: &ModalContext) -> (r: PopupView)
    ensures
        r@ == connect_popup(ctx.locale, opt_v(ctx.error), step@),
{
    let locale = ctx.locale;
    match step {
        ConnectStep::ProviderList { rows, selected } => PopupView {
            title: tr(locale, "connect.title"),
            body: provider_rows(locale, rows, *selected),
            footer: tr(locale, "connect.footer_list"),
            focus: Some(*selected),
        },
        ConnectStep::KeyEntry { provider, input, .. } => {
            let mut body: Vec<StyledLine> = Vec::new();
            body.push(
                styled(t_with1(locale, "status.key_enter", "provider", provider.as_str()), LineStyle::Plain),
            );
            body.push(blank());
            body.push(styled(mask(input.as_str()), LineStyle::Input));
            let ghost head = body@;
            assert(lines_v(head) =~= seq![
                (with_provider(locale, "status.key_enter"@, provider@), LineStyle::Plain),
                (Seq::<char>::empty(), LineStyle::Plain),
                (masked(input@), LineStyle::Input),
            ]);
            push_error_tail(&mut body, ctx.error);
            PopupView {
                title: tr(locale, "connect.key_heading"),
                body,
                footer: tr(locale, "connect.footer_key"),
                focus: None,
            }
        },
        ConnectStep::ModelList { provider, models, selected, fetching, error, .. } => {
            let mut body: Vec<StyledLine> = Vec::new();
            if *fetching {
                body.push(styled(tr(locale, "connect.fetching"), LineStyle::Muted));
            } else if let Some(e) = error {
                body.push(styled(e.clone(), LineStyle::Error));
            } else if models.len() == 0 {
                body.push(styled(tr(locale, "connect.no_models"), LineStyle::Muted));
            } else {
                body = model_rows(models, *selected);
            }
            assert(lines_v(body@) =~= connect_popup(locale, opt_v(ctx.error), step@).body);
            PopupView {
                title: t_with1(locale, "connect.models_heading", "provider", provider.as_str()),
                body,
                footer: if *fetching {
                    tr(locale, "connect.footer_fetching")
                } else {
                    tr(locale, "connect.footer_models")
                },
                focus: if !*fetching && models.len() > 0 {
                    Some(*selected)
                } else {
                    None
                },
            }
        },
    }
}

/// The `/models` modal's rendering.
pub fn models_view(step: &ModelsStep, ctx: &ModalContext) -> (r: PopupView)
    ensures
        r@ == models_popup(ctx.locale, opt_reason(ctx.offline), step@),
{
    let locale = ctx.locale;
    let title = tr(locale, "models.title");
    match step {
        ModelsStep::Offline => {
            let mut body: Vec<StyledLine> = Vec::new();
            if let Some(reason) = ctx.offline {
                body.push(styled(offline_notice(locale, reason), LineStyle::Notice));
                body.push(blank());
            }
            body.push(styled(tr(locale, "models.offline"), LineStyle::Muted));
            assert(lines_v(body@) =~= models_popup(locale, opt_reason(ctx.offline), step@).body);
            PopupView { title, body, footer: tr(locale, "models.footer_offline"), focus: None }
        },
        ModelsStep::ModelList { models, selected, fetching, .. } => if *fetching {
            let mut body: Vec<StyledLine> = Vec::new();
            body.push(styled(tr(locale, "connect.fetching"), LineStyle::Muted));
            assert(lines_v(body@) =~= seq![(translated(locale, "connect.fetching"@), LineStyle::Muted)]);
            PopupView { title, body, footer: tr(locale, "connect.footer_fetching"), focus: None }
        } else if models.len() == 0 {
            let mut body: Vec<StyledLine> = Vec::new();
            body.push(styled(tr(locale, "connect.no_models"), LineStyle::Muted));
            assert(lines_v(body@) =~= seq![(translated(locale, "connect.no_models"@), LineStyle::Muted)]);
            PopupView { title, body, footer: tr(locale, "models.footer_retry"), focus: None }
        } else {
            PopupView {
                title,
                body: model_rows(models, *selected),
                footer: tr(locale, "models.footer_list"),
                focus: Some(*selected),
            }
        },
        ModelsStep::Credentials { provider, error } => {
            let mut body: Vec<StyledLine> = Vec::new();
            body.push(styled(tr(locale, "models.credentials_hint"), LineStyle::Muted));
            body.push(
                styled(
                    t_with1(locale, "models.credentials_remedy", "provider", provider.as_str()),
                    LineStyle::Muted,
                ),
            );
            body.push(blank());
            body.push(styled(error.clone(), LineStyle::Error));
            assert(lines_v(body@) =~= models_popup(locale, opt_reason(ctx.offline), step@).body);
            PopupView { title, body, footer: tr(locale, "models.footer_retry"), focus: None }
        },
        ModelsStep::Manual { provider, input, error } => {
            let mut body: Vec<StyledLine> = Vec::new();
            body.push(
                styled(
                    t_with1(locale, "models.manual_unverified", "provider", provider.as_str()),
                    LineStyle::Muted,
                ),
            );
            body.push(styled(input.clone(), LineStyle::Input));
            let ghost head = body@;
            match error {
                Some(e) => {
                    body.push(blank());
                    body.push(styled(e.clone(), LineStyle::Error));
                },
                None => {},
            }
            assert(lines_v(body@) =~= models_popup(locale, opt_reason(ctx.offline), step@).body);
            PopupView { title, body, footer: tr(locale, "models.footer_manual"), focus: None }
        },
    }
}

/// Appends one help section to `lines`.
fn push_section(lines: &mut Vec<String>, locale: Locale, header: &str, entries: &[&str])
    ensures
        strs_v(final(lines)@) == strs_v(old(lines)@) + help_section(
            locale,
            header@,
            entries@.map_values(|e: &str| e@),
        ),
{
    let ghost before = strs_v(lines@);
    let ghost n0 = lines@.len();
    lines.push(tr(locale, header));
    let mut i: usize = 0;
    while i < entries.len()
        invariant
            i <= entries.len(),
            before.len() == n0,
            lines@.len() == n0 + 1 + i,
            forall|k: int| 0 <= k < n0 ==> (#[trigger] lines@[k])@ == before[k],
            lines@[n0 as int]@ == translated(locale, header@),
            forall|k: int|
                0 <= k < i ==> (#[trigger] lines@[n0 + 1 + k])@ == "  "@ + translated(
                    locale,
                    entries@[k]@,
                ),
        decreases entries.len() - i,
    {
        let line = join("  ", crate::i18n::t(locale, entries[i]));
        lines.push(line);
        i = i + 1;
    }
    lines.push(String::new());
    let ghost names = entries@.map_values(|e: &str| e@);
    let ghost want = before + help_section(locale, header@, names);
    assert forall|k: int| 0 <= k < lines@.len() implies strs_v(lines@)[k] == want[k] by {
        if n0 + 1 <= k < n0 + 1 + entries.len() {
            let j = k - n0 - 1;
            assert(lines@[n0 + 1 + j]@ == "  "@ + translated(locale, entries@[j]@));
            assert(names[j] == entries@[j]@);
        }
    }
    assert(strs_v(lines@) =~= before + help_section(
        locale,
        header@,
        entries@.map_values(|e: &str| e@),
    ));
}

/// The help modal's body: section headers followed by their indented entries, with a blank line
/// after each section.
pub fn help_lines(locale: Locale) -> (r: Vec<String>)
    ensures
        strs_v(r@) == help_body(locale),
{
    let mut lines: Vec<String> = Vec::new();
    let global = ["help.global.help", "help.global.quit"];
    push_section(&mut lines, locale, "help.section.global", &global);
    let forms = ["help.forms.navigate", "help.forms.submit", "help.forms.command", "help.forms.back"];
    push_section(&mut lines, locale, "help.section.forms", &forms);
    let connected = [
        "help.connected.ping",
        "help.connected.signout",
        "help.connected.engine",
        "help.connected.quit",
    ];
    push_section(&mut lines, locale, "help.section.connected", &connected);
    let engine = ["help.engine.send", "help.engine.back", "help.engine.approve"];
    push_section(&mut lines, locale, "help.section.engine", &engine);
    let commands = [
        "help.commands.ask",
        "help.commands.connect",
        "help.commands.model",
        "help.commands.models",
        "help.commands.key",
        "help.commands.auth",
        "help.commands.lang",
    ];
    push_section(&mut lines, locale, "help.section.commands", &commands);
    proof {
        assert(global@.map_values(|e: &str| e@) =~= seq!["help.global.help"@, "help.global.quit"@]);
        assert(forms@.map_values(|e: &str| e@) =~= seq![
            "help.forms.navigate"@,
            "help.forms.submit"@,
            "help.forms.command"@,
            "help.forms.back"@,
        ]);
        assert(connected@.map_values(|e: &str| e@) =~= seq![
            "help.connected.ping"@,
            "help.connected.signout"@,
            "help.connected.engine"@,
            "help.connected.quit"@,
        ]);
        assert(engine@.map_values(|e: &str| e@) =~= seq![
            "help.engine.send"@,
            "help.engine.back"@,
            "help.engine.approve"@,
        ]);
        assert(commands@.map_values(|e: &str| e@) =~= seq![
            "help.commands.ask"@,
            "help.commands.connect"@,
            "help.commands.model"@,
            "help.commands.models"@,
            "help.commands.key"@,
            "help.commands.auth"@,
            "help.commands.lang"@,
        ]);
        assert(strs_v(lines@) =~= help_body(locale));
    }
    lines
}

impl ModalView {
    /// Whether this modal replaces the screen underneath it rather than floating over it.
    pub fn covers_base(&self) -> (r: bool)
        ensures
            r == self@ is FullScreen,
    {
        match self {
            ModalView::FullScreen(_) => true,
            ModalView::Popup(_) => false,
        }
    }
}

impl Modal {
    /// This modal's rendering: help as a full-screen pane, the other modals as popups.
    pub fn render(&self, ctx: &ModalContext) -> (r: ModalView)
        ensures
            r@ == modal_view_of(ctx.locale, opt_v(ctx.error), opt_reason(ctx.offline), self@),
    {
        match self {
            Modal::Help => ModalView::FullScreen(
                FullScreenView { title: tr(ctx.locale, "title.help"), body: help_lines(ctx.locale) },
            ),
            Modal::Connect(step) => ModalView::Popup(connect_view(step, ctx)),
            Modal::Models(step) => ModalView::Popup(models_view(step, ctx)),
        }
    }
}

} // verus!
