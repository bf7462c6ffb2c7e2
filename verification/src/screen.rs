//! What each screen shows: the header, the body of the current screen line by line with the
//! emphasis of each piece, and the hint line. The terminal layer paints these and decides
//! nothing about their content.

use vstd::prelude::*;

use crate::client::{App, Focus, Mode};
use crate::i18n::{Locale, interpolate, translated, tr, t_with1};
use crate::modal::{opt_str_v, strs_v};
use crate::modal_view::{help_body, help_lines, mask, masked};
use crate::provider::{ProviderInfo, SelectedBy, info_display};
use crate::text::{chars_of, decimal, extend_chars, string_of, u64_text};

verus! {

/// The emphasis of a piece of text.
#[derive(Debug, Clone, Copy, PartialEq, Eq, Structural)]
pub enum Tone {
    Plain,
    /// A screen's heading.
    Heading,
    /// The focused field's label and cursor.
    Focused,
    /// Secondary text: hints and unfocused labels.
    Muted,
    Error,
    /// A URL to visit.
    Link,
    /// A code to read off the screen.
    Highlight,
}

/// A piece of text with one emphasis.
#[derive(Debug, Clone, PartialEq, Eq)]
pub struct Span {
    pub text: String,
    pub tone: Tone,
}

/// One line of a screen, made of pieces.
#[derive(Debug, Clone, PartialEq, Eq)]
pub struct ScreenLine {
    pub spans: Vec<Span>,
}

/// The body of the current screen.
#[derive(Debug, Clone, PartialEq, Eq)]
pub enum ScreenBody {
    /// A bordered, wrapped panel: the sign-in forms, the device login and key entry screens.
    Panel { lines: Vec<ScreenLine> },
    /// The connected screen: the session summary above the activity log.
    Connected { info: String, log_title: String, log: Vec<ScreenLine> },
    /// The engine pane: its log above the prompt (or the pending question).
    Engine { log_title: String, log: Vec<ScreenLine>, footer: String },
    /// The help screen: a centered pane of help lines.
    Help { title: String, lines: Vec<String> },
}

/// The whole screen: header line, body, hint line.
#[derive(Debug, Clone, PartialEq, Eq)]
pub struct ScreenView {
    pub header: String,
    pub body: ScreenBody,
    pub hint: String,
}

/// A piece as text and emphasis.
pub type SpanV = (Seq<char>, Tone);

/// The model of a line.
pub open spec fn line_v(l: ScreenLine) -> Seq<SpanV> {
    l.spans@.map_values(|s: Span| (s.text@, s.tone))
}

/// The models of lines.
pub open spec fn lines_v(lines: Seq<ScreenLine>) -> Seq<Seq<SpanV>> {
    lines.map_values(|l: ScreenLine| line_v(l))
}

/// The model of a screen body.
pub enum ScreenBodyV {
    Panel(Seq<Seq<SpanV>>),
    Connected { info: Seq<char>, log_title: Seq<char>, log: Seq<Seq<SpanV>> },
    Engine { log_title: Seq<char>, log: Seq<Seq<SpanV>>, footer: Seq<char> },
    Help { title: Seq<char>, lines: Seq<Seq<char>> },
}

/// The model of a screen.
pub struct ScreenViewV {
    pub header: Seq<char>,
    pub body: ScreenBodyV,
    pub hint: Seq<char>,
}

impl View for ScreenView {
    type V = ScreenViewV;

    open spec fn view(&self) -> ScreenViewV {
        ScreenViewV {
            header: self.header@,
            body: match self.body {
                ScreenBody::Panel { lines } => ScreenBodyV::Panel(lines_v(lines@)),
                ScreenBody::Connected { info, log_title, log } => ScreenBodyV::Connected {
                    info: info@,
                    log_title: log_title@,
                    log: lines_v(log@),
                },
                ScreenBody::Engine { log_title, log, footer } => ScreenBodyV::Engine {
                    log_title: log_title@,
                    log: lines_v(log@),
                    footer: footer@,
                },
                ScreenBody::Help { title, lines } => ScreenBodyV::Help {
                    title: title@,
                    lines: strs_v(lines@),
                },
            },
            hint: self.hint@,
        }
    }
}

/// A line of one piece.
pub open spec fn one(text: Seq<char>, tone: Tone) -> Seq<SpanV> {
    seq![(text, tone)]
}

/// A form field: a `> ` marker and the label (highlighted when focused), the value, and a
/// cursor when focused.
pub open spec fn field_v(label: Seq<char>, value: Seq<char>, focused: bool) -> Seq<SpanV> {
    let marker = if focused {
        "> "@
    } else {
        "  "@
    };
    let tone = if focused {
        Tone::Focused
    } else {
        Tone::Muted
    };
    seq![(marker + label + ": "@, tone), (value, Tone::Plain)] + if focused {
        seq![("_"@, tone)]
    } else {
        Seq::empty()
    }
}

/// The last line of a form: the error when there is one, otherwise the form's hint.
pub open spec fn error_or_hint(error: Option<Seq<char>>, hint: Seq<char>) -> Seq<SpanV> {
    match error {
        Some(e) => one(e, Tone::Error),
        None => one(hint, Tone::Muted),
    }
}

/// A blank line and the error, when there is one.
pub open spec fn trailing_error(error: Option<Seq<char>>) -> Seq<Seq<SpanV>> {
    match error {
        Some(e) => seq![Seq::empty(), one(e, Tone::Error)],
        None => Seq::empty(),
    }
}

/// The sign-in panel.
pub open spec fn sign_in_lines(a: App) -> Seq<Seq<SpanV>> {
    let l = a.config.lang;
    seq![
        one(translated(l, "screen.sign_in"@), Tone::Heading),
        Seq::empty(),
        field_v(translated(l, "field.email"@), a.form.email@, a.form.focus == Focus::Email),
        field_v(translated(l, "field.code"@), a.form.code@, a.form.focus == Focus::Code),
        Seq::empty(),
        error_or_hint(opt_str_v(a.error), translated(l, "hint.sign_in"@)),
    ]
}

/// The registration panel.
pub open spec fn register_lines(a: App) -> Seq<Seq<SpanV>> {
    let l = a.config.lang;
    seq![
        one(translated(l, "screen.create_account"@), Tone::Heading),
        Seq::empty(),
        field_v(translated(l, "field.email"@), a.form.email@, a.form.focus == Focus::Email),
        field_v(translated(l, "field.name"@), a.form.name@, a.form.focus == Focus::Name),
        Seq::empty(),
        error_or_hint(opt_str_v(a.error), translated(l, "hint.register"@)),
    ]
}

/// The registration-confirmation panel: the account, the TOTP URL and secret to pair an
/// authenticator with, and the code field.
pub open spec fn register_code_lines(a: App) -> Seq<Seq<SpanV>> {
    let l = a.config.lang;
    let url = match a.form.otpauth_url {
        Some(u) => seq![Seq::empty(), one(translated(l, "hint.open_url"@), Tone::Muted), one(u@, Tone::Plain)],
        None => Seq::empty(),
    };
    let secret = match a.form.secret {
        Some(s) => seq![seq![(translated(l, "hint.manual_secret"@), Tone::Muted), (s@, Tone::Plain)]],
        None => Seq::empty(),
    };
    seq![
        one(translated(l, "screen.complete_registration"@), Tone::Heading),
        Seq::empty(),
        one(interpolate(translated(l, "hint.account"@), seq![("email"@, a.form.email@)]), Tone::Plain),
    ] + url + secret + seq![
        Seq::empty(),
        field_v(translated(l, "field.code"@), a.form.code@, a.form.focus == Focus::Code),
        Seq::empty(),
    ] + match a.error {
        Some(e) => seq![one(e@, Tone::Error)],
        None => Seq::empty(),
    }
}

/// The device-login panel: what to do in the browser, the URL to visit, and the code.
pub open spec fn device_lines(a: App) -> Seq<Seq<SpanV>> {
    let l = a.config.lang;
    let uri = match a.device.verification_uri {
        Some(u) => seq![one(u@, Tone::Link)],
        None => Seq::empty(),
    };
    let code = match a.device.user_code {
        Some(c) => seq![one(c@, Tone::Highlight)],
        None => Seq::empty(),
    };
    seq![
        one(translated(l, "screen.device_login"@), Tone::Heading),
        Seq::empty(),
        one(translated(l, "hint.device_line1"@), Tone::Plain),
        one(translated(l, "hint.device_line2"@), Tone::Plain),
        Seq::empty(),
        one(translated(l, "hint.device_visit"@), Tone::Plain),
    ] + uri + seq![Seq::empty(), one(translated(l, "hint.device_code_filled"@), Tone::Muted)]
        + code + seq![Seq::empty(), one(translated(l, "hint.device_waiting"@), Tone::Muted)]
        + trailing_error(opt_str_v(a.error))
}

/// The key-entry panel: the key is masked.
pub open spec fn key_lines(a: App) -> Seq<Seq<SpanV>> {
    let l = a.config.lang;
    let provider = match a.key_entry.target {
        Some(p) => p@,
        None => Seq::empty(),
    };
    seq![
        one(interpolate(translated(l, "status.key_enter"@), seq![("provider"@, provider)]), Tone::Heading),
        Seq::empty(),
        field_v(translated(l, "field.key"@), masked(a.key_entry.input@), true),
        Seq::empty(),
        one(translated(l, "hint.key"@), Tone::Muted),
    ] + trailing_error(opt_str_v(a.error))
}

/// A log: its lines as plain text, or the no-messages hint when it is empty.
pub open spec fn log_lines(l: Locale, log: Seq<Seq<char>>) -> Seq<Seq<SpanV>> {
    if log.len() == 0 {
        seq![one(translated(l, "hint.no_messages"@), Tone::Muted)]
    } else {
        log.map_values(|t: Seq<char>| one(t, Tone::Plain))
    }
}

/// Why the active provider was chosen, for the connected header; empty when nothing chose it.
pub open spec fn reason_of(l: Locale, info: ProviderInfo) -> Seq<char> {
    if info.offline is Some {
        translated(l, "provider.reason.offline"@)
    } else {
        match info.selected_by {
            Some(SelectedBy::OllamaEnv) => translated(l, "provider.reason.ollama_env"@),
            Some(SelectedBy::SelectorEnv) => translated(l, "provider.reason.selector_env"@),
            Some(SelectedBy::StoredPreference) => translated(l, "provider.reason.stored"@),
            Some(SelectedBy::KeyPrecedence) => translated(l, "provider.reason.key_precedence"@),
            None => Seq::empty(),
        }
    }
}

/// The active provider as the connected header shows it: `id (model)`, then why it is active.
pub open spec fn provider_text(l: Locale, info: ProviderInfo) -> Seq<char> {
    let shown = info_display(info.id@, opt_str_v(info.model));
    let reason = reason_of(l, info);
    if reason.len() == 0 {
        shown
    } else {
        shown + " · "@ + reason
    }
}

/// The connected screen's summary line.
pub open spec fn info_text(a: App) -> Seq<char> {
    let l = a.config.lang;
    match a.session {
        Some(s) => interpolate(
            translated(l, "info.connected"@),
            seq![
                ("name"@, s.display_name@),
                ("email"@, s.email@),
                ("pongs"@, decimal(a.activity.pongs as nat)),
                ("provider"@, provider_text(l, a.provider_info)),
            ],
        ),
        None => translated(l, "hint.not_signed_in"@),
    }
}

/// ` title `.
pub open spec fn padded(t: Seq<char>) -> Seq<char> {
    " "@ + t + " "@
}

/// The body of the current screen.
pub open spec fn body_of(a: App) -> ScreenBodyV {
    let l = a.config.lang;
    match a.mode {
        Mode::SignIn => ScreenBodyV::Panel(sign_in_lines(a)),
        Mode::Register => ScreenBodyV::Panel(register_lines(a)),
        Mode::RegisterCode => ScreenBodyV::Panel(register_code_lines(a)),
        Mode::Device => ScreenBodyV::Panel(device_lines(a)),
        Mode::Key => ScreenBodyV::Panel(key_lines(a)),
        Mode::Connected => ScreenBodyV::Connected {
            info: info_text(a),
            log_title: padded(translated(l, "title.activity"@)),
            log: log_lines(l, strs_v(a.activity.log@)),
        },
        Mode::Engine => ScreenBodyV::Engine {
            log_title: padded(translated(l, "title.engine"@)),
            log: log_lines(l, strs_v(a.engine.log@)),
            footer: match a.engine.pending {
                Some(p) => p.prompt@,
                None => "> "@ + a.engine.prompt@,
            },
        },
        Mode::Help => ScreenBodyV::Help { title: translated(l, "title.help"@), lines: help_body(l) },
    }
}

/// The hint line: the command being typed, or the screen's key hint.
pub open spec fn hint_of(a: App) -> Seq<char> {
    let l = a.config.lang;
    if a.command.active {
        "> "@ + a.command.text@
    } else if a.mode == Mode::Help {
        translated(l, "hint.help_close"@)
    } else if a.mode == Mode::Device {
        translated(l, "hint.device_cancel"@)
    } else {
        translated(l, "hint.help"@)
    }
}

/// The whole screen of `a`.
pub open spec fn screen_of(a: App) -> ScreenViewV {
    ScreenViewV { header: " light-factory · "@ + a.status@, body: body_of(a), hint: hint_of(a) }
}

/// A line of one piece.
fn line1(text: String, tone: Tone) -> (r: ScreenLine)
    ensures
        line_v(r) == one(text@, tone),
{
    let r = ScreenLine { spans: vec![Span { text, tone }] };
    assert(line_v(r) =~= one(text@, tone));
    r
}

/// An empty line.
fn blank() -> (r: ScreenLine)
    ensures
        line_v(r) == Seq::<SpanV>::empty(),
{
    let r = ScreenLine { spans: Vec::new() };
    assert(line_v(r) =~= Seq::<SpanV>::empty());
    r
}

/// `a` followed by `b`.
fn concat(a: &str, b: &str) -> (r: String)
    ensures
        r@ == a@ + b@,
{
    let mut v = chars_of(a);
    extend_chars(&mut v, &chars_of(b));
    string_of(&v)
}

/// A form field line.
fn field(label: &str, value: &str, focused: bool) -> (r: ScreenLine)
    ensures
        line_v(r) == field_v(label@, value@, focused),
{
    proof {
        reveal_strlit("> ");
        reveal_strlit("  ");
        reveal_strlit(": ");
        reveal_strlit("_");
    }
    let tone = if focused {
        Tone::Focused
    } else {
        Tone::Muted
    };
    let marker = if focused {
        "> "
    } else {
        "  "
    };
    let head = concat(concat(marker, label).as_str(), ": ");
    let mut spans: Vec<Span> = Vec::new();
    spans.push(Span { text: head, tone });
    spans.push(Span { text: string_of(&chars_of(value)), tone: Tone::Plain });
    if focused {
        spans.push(Span { text: string_of(&chars_of("_")), tone });
    }
    let r = ScreenLine { spans };
    assert(line_v(r) =~= field_v(label@, value@, focused));
    r
}

/// Append `line` to `lines`.
fn push_line(lines: &mut Vec<ScreenLine>, line: ScreenLine)
    ensures
        lines_v(final(lines)@) == lines_v(old(lines)@).push(line_v(line)),
{
    lines.push(line);
    assert(lines_v(lines@) =~= lines_v(old(lines)@).push(line_v(line)));
}

/// A copy of an optional string.
fn opt_copy(o: &Option<String>) -> (r: Option<String>)
    ensures
        opt_str_v(r) == opt_str_v(*o),
{
    match o {
        Some(s) => Some(s.clone()),
        None => None,
    }
}

/// Append the error line (with a blank line before it) when there is an error.
fn add_trailing_error(lines: &mut Vec<ScreenLine>, error: &Option<String>)
    ensures
        lines_v(final(lines)@) == lines_v(old(lines)@) + trailing_error(opt_str_v(*error)),
{
    match error {
        Some(e) => {
            push_line(lines, blank());
            push_line(lines, line1(e.clone(), Tone::Error));
        },
        None => {},
    }
    assert(lines_v(lines@) =~= lines_v(old(lines)@) + trailing_error(opt_str_v(*error)));
}

/// The lines of a log, or the no-messages hint when it is empty.
fn log_view(l: Locale, log: &Vec<String>) -> (r: Vec<ScreenLine>)
    ensures
        lines_v(r@) == log_lines(l, strs_v(log@)),
{
    let mut r: Vec<ScreenLine> = Vec::new();
    if log.len() == 0 {
        proof {
            reveal_strlit("hint.no_messages");
        }
        push_line(&mut r, line1(tr(l, "hint.no_messages"), Tone::Muted));
        assert(lines_v(r@) =~= log_lines(l, strs_v(log@)));
        return r;
    }
    let mut i: usize = 0;
    while i < log.len()
        invariant
            i <= log@.len(),
            log@.len() > 0,
            lines_v(r@) == log_lines(l, strs_v(log@)).take(i as int),
        decreases log@.len() - i,
    {
        push_line(&mut r, line1(log[i].clone(), Tone::Plain));
        assert(log_lines(l, strs_v(log@)).take(i + 1) =~= log_lines(l, strs_v(log@)).take(
            i as int,
        ).push(one(log@[i as int]@, Tone::Plain)));
        i = i + 1;
    }
    assert(log_lines(l, strs_v(log@)).take(log@.len() as int) =~= log_lines(l, strs_v(log@)));
    r
}

impl ProviderInfo {
    /// Why this provider is active, for the connected header; empty when nothing chose it.
    pub fn reason(&self, locale: Locale) -> (r: String)
        ensures
            r@ == reason_of(locale, *self),
    {
        proof {
            reveal_strlit("provider.reason.offline");
            reveal_strlit("provider.reason.ollama_env");
            reveal_strlit("provider.reason.selector_env");
            reveal_strlit("provider.reason.stored");
            reveal_strlit("provider.reason.key_precedence");
        }
        if self.offline.is_some() {
            return tr(locale, "provider.reason.offline");
        }
        match self.selected_by {
            Some(SelectedBy::OllamaEnv) => tr(locale, "provider.reason.ollama_env"),
            Some(SelectedBy::SelectorEnv) => tr(locale, "provider.reason.selector_env"),
            Some(SelectedBy::StoredPreference) => tr(locale, "provider.reason.stored"),
            Some(SelectedBy::KeyPrecedence) => tr(locale, "provider.reason.key_precedence"),
            None => String::new(),
        }
    }
}

/// The error line, or the hint when there is no error.
fn error_or_hint_line(error: &Option<String>, hint: String) -> (r: ScreenLine)
    ensures
        line_v(r) == error_or_hint(opt_str_v(*error), hint@),
{
    match error {
        Some(e) => line1(e.clone(), Tone::Error),
        None => line1(hint, Tone::Muted),
    }
}

fn sign_in_panel(a: &App) -> (r: Vec<ScreenLine>)
    ensures
        lines_v(r@) == sign_in_lines(*a),
{
    let l = a.config.lang;
    proof {
        reveal_strlit("screen.sign_in");
        reveal_strlit("field.email");
        reveal_strlit("field.code");
        reveal_strlit("hint.sign_in");
    }
    let mut r: Vec<ScreenLine> = Vec::new();
    push_line(&mut r, line1(tr(l, "screen.sign_in"), Tone::Heading));
    push_line(&mut r, blank());
    push_line(&mut r, field(crate::i18n::t(l, "field.email"), a.form.email.as_str(), a.form.focus == Focus::Email));
    push_line(&mut r, field(crate::i18n::t(l, "field.code"), a.form.code.as_str(), a.form.focus == Focus::Code));
    push_line(&mut r, blank());
    push_line(&mut r, error_or_hint_line(&a.error, tr(l, "hint.sign_in")));
    assert(lines_v(r@) =~= sign_in_lines(*a));
    r
}

fn register_panel(a: &App) -> (r: Vec<ScreenLine>)
    ensures
        lines_v(r@) == register_lines(*a),
{
    let l = a.config.lang;
    proof {
        reveal_strlit("screen.create_account");
        reveal_strlit("field.email");
        reveal_strlit("field.name");
        reveal_strlit("hint.register");
    }
    let mut r: Vec<ScreenLine> = Vec::new();
    push_line(&mut r, line1(tr(l, "screen.create_account"), Tone::Heading));
    push_line(&mut r, blank());
    push_line(&mut r, field(crate::i18n::t(l, "field.email"), a.form.email.as_str(), a.form.focus == Focus::Email));
    push_line(&mut r, field(crate::i18n::t(l, "field.name"), a.form.name.as_str(), a.form.focus == Focus::Name));
    push_line(&mut r, blank());
    push_line(&mut r, error_or_hint_line(&a.error, tr(l, "hint.register")));
    assert(lines_v(r@) =~= register_lines(*a));
    r
}

fn register_code_panel(a: &App) -> (r: Vec<ScreenLine>)
    ensures
        lines_v(r@) == register_code_lines(*a),
{
    let l = a.config.lang;
    proof {
        reveal_strlit("screen.complete_registration");
        reveal_strlit("hint.account");
        reveal_strlit("email");
        reveal_strlit("hint.open_url");
        reveal_strlit("hint.manual_secret");
        reveal_strlit("field.code");
    }
    let mut r: Vec<ScreenLine> = Vec::new();
    push_line(&mut r, line1(tr(l, "screen.complete_registration"), Tone::Heading));
    push_line(&mut r, blank());
    push_line(&mut r, line1(t_with1(l, "hint.account", "email", a.form.email.as_str()), Tone::Plain));
    let ghost head = lines_v(r@);
    match &a.form.otpauth_url {
        Some(u) => {
            push_line(&mut r, blank());
            push_line(&mut r, line1(tr(l, "hint.open_url"), Tone::Muted));
            push_line(&mut r, line1(u.clone(), Tone::Plain));
        },
        None => {},
    }
    let ghost with_url = lines_v(r@);
    match &a.form.secret {
        Some(secret) => {
            let spans = vec![
                Span { text: tr(l, "hint.manual_secret"), tone: Tone::Muted },
                Span { text: secret.clone(), tone: Tone::Plain },
            ];
            let line = ScreenLine { spans };
            assert(line_v(line) =~= seq![
                (translated(l, "hint.manual_secret"@), Tone::Muted),
                (secret@, Tone::Plain),
            ]);
            push_line(&mut r, line);
        },
        None => {},
    }
    let ghost with_secret = lines_v(r@);
    push_line(&mut r, blank());
    push_line(&mut r, field(crate::i18n::t(l, "field.code"), a.form.code.as_str(), a.form.focus == Focus::Code));
    push_line(&mut r, blank());
    match &a.error {
        Some(e) => {
            push_line(&mut r, line1(e.clone(), Tone::Error));
        },
        None => {},
    }
    assert(lines_v(r@) =~= register_code_lines(*a));
    r
}

fn device_panel(a: &App) -> (r: Vec<ScreenLine>)
    ensures
        lines_v(r@) == device_lines(*a),
{
    let l = a.config.lang;
    proof {
        reveal_strlit("screen.device_login");
        reveal_strlit("hint.device_line1");
        reveal_strlit("hint.device_line2");
        reveal_strlit("hint.device_visit");
        reveal_strlit("hint.device_code_filled");
        reveal_strlit("hint.device_waiting");
    }
    let mut r: Vec<ScreenLine> = Vec::new();
    push_line(&mut r, line1(tr(l, "screen.device_login"), Tone::Heading));
    push_line(&mut r, blank());
    push_line(&mut r, line1(tr(l, "hint.device_line1"), Tone::Plain));
    push_line(&mut r, line1(tr(l, "hint.device_line2"), Tone::Plain));
    push_line(&mut r, blank());
    push_line(&mut r, line1(tr(l, "hint.device_visit"), Tone::Plain));
    match &a.device.verification_uri {
        Some(u) => {
            push_line(&mut r, line1(u.clone(), Tone::Link));
        },
        None => {},
    }
    push_line(&mut r, blank());
    push_line(&mut r, line1(tr(l, "hint.device_code_filled"), Tone::Muted));
    match &a.device.user_code {
        Some(c) => {
            push_line(&mut r, line1(c.clone(), Tone::Highlight));
        },
        None => {},
    }
    push_line(&mut r, blank());
    push_line(&mut r, line1(tr(l, "hint.device_waiting"), Tone::Muted));
    add_trailing_error(&mut r, &a.error);
    assert(lines_v(r@) =~= device_lines(*a));
    r
}

fn key_panel(a: &App) -> (r: Vec<ScreenLine>)
    ensures
        lines_v(r@) == key_lines(*a),
{
    let l = a.config.lang;
    proof {
        reveal_strlit("status.key_enter");
        reveal_strlit("provider");
        reveal_strlit("field.key");
        reveal_strlit("hint.key");
    }
    let provider = match &a.key_entry.target {
        Some(p) => p.clone(),
        None => String::new(),
    };
    let mut r: Vec<ScreenLine> = Vec::new();
    push_line(&mut r, line1(t_with1(l, "status.key_enter", "provider", provider.as_str()), Tone::Heading));
    push_line(&mut r, blank());
    let hidden = mask(a.key_entry.input.as_str());
    push_line(&mut r, field(crate::i18n::t(l, "field.key"), hidden.as_str(), true));
    push_line(&mut r, blank());
    push_line(&mut r, line1(tr(l, "hint.key"), Tone::Muted));
    add_trailing_error(&mut r, &a.error);
    assert(lines_v(r@) =~= key_lines(*a));
    r
}

/// ` title `.
fn padded_title(t: &str) -> (r: String)
    ensures
        r@ == padded(t@),
{
    proof {
        reveal_strlit(" ");
    }
    concat(concat(" ", t).as_str(), " ")
}

fn info_line(a: &App) -> (r: String)
    ensures
        r@ == info_text(*a),
{
    let l = a.config.lang;
    proof {
        reveal_strlit("info.connected");
        reveal_strlit("hint.not_signed_in");
        reveal_strlit("name");
        reveal_strlit("email");
        reveal_strlit("pongs");
        reveal_strlit("provider");
        reveal_strlit(" · ");
    }
    match &a.session {
        Some(s) => {
            let pongs = u64_text(a.activity.pongs);
            let shown = a.provider_info.display();
            let reason = a.provider_info.reason(l);
            let provider = if chars_of(reason.as_str()).len() == 0 {
                shown
            } else {
                concat(concat(shown.as_str(), " · ").as_str(), reason.as_str())
            };
            let params = [
                ("name", s.display_name.as_str()),
                ("email", s.email.as_str()),
                ("pongs", pongs.as_str()),
                ("provider", provider.as_str()),
            ];
            assert(crate::i18n::param_views(params@) =~= seq![
                ("name"@, s.display_name@),
                ("email"@, s.email@),
                ("pongs"@, decimal(a.activity.pongs as nat)),
                ("provider"@, provider_text(l, a.provider_info)),
            ]);
            crate::i18n::t_with(l, "info.connected", &params)
        },
        None => tr(l, "hint.not_signed_in"),
    }
}

impl App {
    /// What the current screen shows (modals are rendered separately, over it).
    pub fn screen(&self) -> (r: ScreenView)
        ensures
            r@ == screen_of(*self),
    {
        let l = self.config.lang;
        proof {
            reveal_strlit(" light-factory · ");
            reveal_strlit("title.activity");
            reveal_strlit("title.engine");
            reveal_strlit("title.help");
            reveal_strlit("> ");
            reveal_strlit("hint.help_close");
            reveal_strlit("hint.device_cancel");
            reveal_strlit("hint.help");
        }
        let header = concat(" light-factory · ", self.status.as_str());
        let body = match self.mode {
            Mode::SignIn => ScreenBody::Panel { lines: sign_in_panel(self) },
            Mode::Register => ScreenBody::Panel { lines: register_panel(self) },
            Mode::RegisterCode => ScreenBody::Panel { lines: register_code_panel(self) },
            Mode::Device => ScreenBody::Panel { lines: device_panel(self) },
            Mode::Key => ScreenBody::Panel { lines: key_panel(self) },
            Mode::Connected => ScreenBody::Connected {
                info: info_line(self),
                log_title: padded_title(crate::i18n::t(l, "title.activity")),
                log: log_view(l, &self.activity.log),
            },
            Mode::Engine => ScreenBody::Engine {
                log_title: padded_title(crate::i18n::t(l, "title.engine")),
                log: log_view(l, &self.engine.log),
                footer: match &self.engine.pending {
                    Some(p) => p.prompt.clone(),
                    None => concat("> ", self.engine.prompt.as_str()),
                },
            },
            Mode::Help => ScreenBody::Help { title: tr(l, "title.help"), lines: help_lines(l) },
        };
        let hint = if self.command.active {
            concat("> ", self.command.text.as_str())
        } else if self.mode == Mode::Help {
            tr(l, "hint.help_close")
        } else if self.mode == Mode::Device {
            tr(l, "hint.device_cancel")
        } else {
            tr(l, "hint.help")
        };
        ScreenView { header, body, hint }
    }
}

} // verus!
