//! The client's state machine: the sign-in forms, the connected screen, the engine pane, the
//! `/key` entry screen and help, with the modals layered over them.
//!
//! Every handler takes the state and one event (a key press, a server message, the answer to an
//! earlier request) and returns the next state together with the [`Effect`]s the terminal layer
//! must perform: HTTP calls, the WebSocket, the engine, file writes, fetches. What came back from
//! an effect is handed to the matching `*_finished` handler, so every decision is made here.

use vstd::prelude::*;

use crate::api::{ApiError, DeviceGrant, Registration, poll_interval};
use crate::config::Config;
use crate::commands::{KeyCommand, KeyCommandV, ask_prompt, bare_command, key_command, model_arg, parse_ask_command, parse_connect_command, parse_key_command, parse_model_command, parse_models_command, engine_approval_key};
use crate::modal::ProviderRowV;
use crate::text::{chars_start_with, slice_chars, starts_with, str_eq, trim_chars};
use crate::keys::{KeyCode, KeyEvent, ctrl_char, is_ctrl_char};
use crate::fetch::{FetchError, credential_class};
use crate::credentials::{CredentialStore, StoreError};
use crate::selection::{KeyStatus, keyed, remote_id_list, remote_ids, status_possible, statuses_possible, store_run, takes_key};
use crate::commands::{is_valid_provider, provider_name};
use crate::i18n::{locale_code, parsed_locale};
use crate::engine_view::{
    EventKind, described, describe_event, pending_prompt, prompt_for,
};
use crate::i18n::{Locale, interpolate, translated, tr, t_with1, t_with2, error_text};
use crate::modal::{same_target, ModalApply, ModalApplyV, ModalTransition, TransitionV, modal_next, open_target, ConnectStep, ConnectStepV, ModelsStep, ModelsStepV, ModalV, ProviderRow, rows_v, copy_rows, fetch_target_of, FetchSink, Modal, ModalHost, opt_str_v, pop_char, pop_last, strs_v, trimmed, copy_strings};
use crate::text::{str_is_empty, trim};
use crate::provider::{ProviderInfo, notice, offline_notice};
use crate::settings::{Session, Settings};
use crate::text::{chars_of, decimal, string_of, string_push, u64_text, extend_chars};

verus! {

/// The most lines the activity log and the engine log keep; older lines are dropped first.
pub const LOG_CAPACITY: usize = 200;

/// Seconds between keepalive pings on an open WebSocket.
pub const KEEPALIVE_SECONDS: u64 = 30;

/// Which sign-in field owns keyboard input.
#[derive(Debug, Clone, Copy, PartialEq, Eq, Structural)]
pub enum Focus {
    Email,
    Name,
    Code,
}

/// The screen currently shown.
#[derive(Debug, Clone, Copy, PartialEq, Eq, Structural)]
pub enum Mode {
    SignIn,
    Register,
    RegisterCode,
    Device,
    Connected,
    Engine,
    Key,
    Help,
}

/// What an engine prompt is waiting on: a proposed plan or a gated action.
#[derive(Debug, Clone, Copy, PartialEq, Eq, Structural)]
pub enum ApprovalTarget {
    Plan { plan_id: u128 },
    Action { request_id: u128 },
}

/// An engine event waiting on the human's answer, with the question shown for it.
#[derive(Debug, Clone, PartialEq, Eq)]
pub struct Pending {
    pub target: ApprovalTarget,
    pub prompt: String,
}

/// A command for the running engine session.
#[derive(Debug, Clone, PartialEq, Eq)]
pub enum EngineCommand {
    SendPrompt { text: String },
    ApprovePlan { plan_id: u128, approved: bool },
    ApproveAction { request_id: u128, approved: bool },
}

/// A message from the server over the WebSocket.
#[derive(Debug, Clone, PartialEq, Eq)]
pub enum ServerMessage {
    Ready { email: String, display_name: String },
    Pong { nonce: String },
    Error { code: String, message: String },
}

/// Work the terminal layer performs on the state machine's behalf, in order.
#[derive(Debug, Clone, PartialEq, Eq)]
pub enum Effect {
    /// Leave the program.
    Quit,
    /// Sign in with an email and a TOTP code; the answer goes to [`App::auth_finished`].
    Login { email: String, code: String },
    /// Create an account; the answer goes to [`App::register_finished`].
    Register { email: String, name: String },
    /// Confirm a new account with its first code; the answer goes to [`App::auth_finished`].
    ConfirmRegistration { setup_token: String, code: String },
    /// Start a device-authorization grant; the answer goes to [`App::device_started`].
    RequestDeviceCode,
    /// Open a URL in the user's browser, best effort.
    OpenBrowser { url: String },
    /// Poll the token endpoint every `interval_secs` seconds until the grant resolves; the
    /// outcome goes to [`App::device_finished`] with `nonce`.
    PollDevice { nonce: u64, device_code: String, interval_secs: u64 },
    /// Ask the server whether a saved session is still valid; the answer goes to
    /// [`App::session_checked`].
    CheckSession { session: Session },
    /// Write the session file.
    SaveSession { session: Session },
    /// Remove the session file.
    ClearSession,
    /// Revoke a bearer token on the server, best effort.
    Logout { token: String },
    /// Open the WebSocket with a bearer token; the outcome goes to [`App::ws_finished`].
    ConnectWs { token: String },
    /// Drop the WebSocket.
    DropWs,
    /// Send a ping with this nonce over the WebSocket.
    SendPing { nonce: String },
    /// Start an engine session on the active provider; the outcome goes to
    /// [`App::engine_started`].
    StartEngine,
    /// Stop the engine session and its event forwarding.
    StopEngine,
    /// Dispatch a command to the running engine session.
    Engine { command: EngineCommand },
    /// Run a one-shot completion; the answer goes to [`App::completion_finished`].
    Ask { prompt: String },
    /// Fetch `provider`'s model list, with a just-typed key if there is one; the result goes to
    /// [`App::connect_models_fetched`] or [`App::models_fetched`] by `sink`, with `nonce`.
    FetchModels { nonce: u64, provider: String, key: Option<String>, sink: FetchSink },
    /// Cancel the fetch started with this nonce.
    AbortFetch { nonce: u64 },
    /// Write the settings file; the outcome goes to [`App::settings_saved`].
    SaveSettings { settings_lang: String },
    /// Rebuild the active provider from the settings and the credential store, then hand its
    /// record to [`App::provider_rebuilt`].
    RebuildProvider,
}

/// A settings change that was staged and handed to the terminal layer to write: what the
/// write commits on success and what it restores on failure.
#[derive(Debug, Clone, PartialEq, Eq)]
pub enum StagedSave {
    /// A model pinned to `provider`, replacing `previous`; `previous_provider` is the preferred
    /// provider to restore when the write also adopted `provider` (the `/connect` apply).
    Model {
        provider: String,
        model: String,
        previous: Option<String>,
        previous_provider: Option<Option<String>>,
    },
    /// The interface language switched to `lang` from `previous_lang`, with the saved value
    /// `previous_saved` to restore.
    Lang { lang: Locale, previous_lang: Locale, previous_saved: String },
}

/// The sign-in and registration form.
#[derive(Debug, Clone, PartialEq, Eq)]
pub struct Form {
    pub focus: Focus,
    pub email: String,
    pub name: String,
    pub code: String,
    pub setup_token: Option<String>,
    pub secret: Option<String>,
    pub otpauth_url: Option<String>,
}

/// The slash-command line.
#[derive(Debug, Clone, PartialEq, Eq)]
pub struct CommandLine {
    pub active: bool,
    pub text: String,
}

/// The device-login grant in progress.
#[derive(Debug, Clone, PartialEq, Eq)]
pub struct DeviceLogin {
    /// Bumped whenever a grant starts or is cancelled, so a stale poll result is discarded.
    pub nonce: u64,
    pub user_code: Option<String>,
    pub verification_uri: Option<String>,
}

/// The `/key` entry screen.
#[derive(Debug, Clone, PartialEq, Eq)]
pub struct KeyEntry {
    pub target: Option<String>,
    pub input: String,
    pub return_mode: Mode,
}

/// The engine pane.
#[derive(Debug, Clone, PartialEq, Eq)]
pub struct EnginePane {
    pub active: bool,
    pub log: Vec<String>,
    pub prompt: String,
    pub pending: Option<Pending>,
}

/// The connected screen's activity log and ping counters.
#[derive(Debug, Clone, PartialEq, Eq)]
pub struct Activity {
    pub log: Vec<String>,
    pub ping_nonce: u64,
    pub pongs: u64,
}

/// The whole client state.
pub struct App {
    pub config: Config,
    pub mode: Mode,
    pub help_return: Mode,
    pub form: Form,
    pub command: CommandLine,
    pub device: DeviceLogin,
    pub session: Option<Session>,
    pub ws_connected: bool,
    pub provider_info: ProviderInfo,
    pub settings: Settings,
    pub staged: Option<StagedSave>,
    pub key_entry: KeyEntry,
    pub modal: ModalHost<u64>,
    pub engine: EnginePane,
    pub error: Option<String>,
    pub status: String,
    pub activity: Activity,
}

/// The last [`LOG_CAPACITY`] entries of `s`.
pub open spec fn capped<A>(s: Seq<A>) -> Seq<A> {
    if s.len() > LOG_CAPACITY {
        s.skip(s.len() - LOG_CAPACITY)
    } else {
        s
    }
}

/// Append `line` to `log`, dropping the oldest entries beyond [`LOG_CAPACITY`].
pub fn push_capped(log: &mut Vec<String>, line: String)
    ensures
        final(log)@ == capped(old(log)@.push(line)),
{
    let ghost full = old(log)@.push(line);
    log.push(line);
    let ghost mut k: int = 0;
    assert(full.skip(0) =~= full);
    while log.len() > LOG_CAPACITY
        invariant
            0 <= k <= full.len(),
            log@ == full.skip(k),
            k == 0 || log@.len() >= LOG_CAPACITY,
        decreases log@.len(),
    {
        log.remove(0);
        proof {
            assert(log@ =~= full.skip(k + 1));
            k = k + 1;
        }
    }
    proof {
        if full.len() > LOG_CAPACITY {
            assert(k == full.len() - LOG_CAPACITY);
        } else {
            assert(k == 0);
        }
    }
}

/// Capping commutes with taking the views of the lines.
pub proof fn lemma_capped_views(s: Seq<String>, x: String)
    ensures
        strs_v(capped(s.push(x))) == capped(strs_v(s).push(x@)),
{
    let t = s.push(x);
    assert(strs_v(t) =~= strs_v(s).push(x@));
    if t.len() > LOG_CAPACITY {
        assert(strs_v(t.skip(t.len() - LOG_CAPACITY)) =~= strs_v(t).skip(t.len() - LOG_CAPACITY));
    }
}

/// `[code] message`.
pub open spec fn bracketed(code: Seq<char>, message: Seq<char>) -> Seq<char> {
    seq!['['] + code + "] "@ + message
}

/// The line `[code] message`.
pub fn bracketed_line(code: &str, message: &str) -> (r: String)
    ensures
        r@ == bracketed(code@, message@),
{
    let mut v: Vec<char> = Vec::new();
    v.push('[');
    extend_chars(&mut v, &chars_of(code));
    v.push(']');
    v.push(' ');
    extend_chars(&mut v, &chars_of(message));
    proof {
        reveal_strlit("] ");
    }
    assert(v@ =~= bracketed(code@, message@));
    string_of(&v)
}

/// `prefix` followed by `s`.
pub fn prefixed(prefix: &str, s: &str) -> (r: String)
    ensures
        r@ == prefix@ + s@,
{
    let mut v = chars_of(prefix);
    extend_chars(&mut v, &chars_of(s));
    string_of(&v)
}

/// The text of `key` in `locale` with one parameter.
pub open spec fn tw1(locale: Locale, key: Seq<char>, name: Seq<char>, value: Seq<char>) -> Seq<
    char,
> {
    interpolate(translated(locale, key), seq![(name, value)])
}

/// The text of `key` in `locale` with two parameters, applied in order.
pub open spec fn tw2(
    locale: Locale,
    key: Seq<char>,
    n1: Seq<char>,
    v1: Seq<char>,
    n2: Seq<char>,
    v2: Seq<char>,
) -> Seq<char> {
    interpolate(translated(locale, key), seq![(n1, v1), (n2, v2)])
}

/// What the interface shows for a server error: its translation when the code is known,
/// otherwise the server's own message.
pub open spec fn shown_error(locale: Locale, code: Seq<char>, message: Seq<char>) -> Seq<char> {
    match error_text(locale, code) {
        Some(text) => text,
        None => message,
    }
}

/// The text shown for a server error.
pub fn error_shown(locale: Locale, code: &str, message: &str) -> (r: String)
    ensures
        r@ == shown_error(locale, code@, message@),
{
    match crate::i18n::error_message(locale, code) {
        Some(text) => string_of(&chars_of(text)),
        None => string_of(&chars_of(message)),
    }
}

/// Whether there is room to bump every counter a single event may bump.
pub open spec fn has_room(a: App) -> bool {
    &&& a.modal.nonce_v() < u64::MAX - 2
    &&& a.device.nonce < u64::MAX
    &&& a.activity.ping_nonce < u64::MAX
    &&& a.activity.pongs < u64::MAX
}

/// The effects of closing the WebSocket session: drop the socket, and cancel the modal's fetch
/// when one was tracked.
pub open spec fn dismissal(task: Option<u64>) -> Seq<Effect> {
    match task {
        Some(n) => seq![Effect::DropWs, Effect::AbortFetch { nonce: n }],
        None => seq![Effect::DropWs],
    }
}

/// Which question an event that waits on an answer asks.
pub open spec fn approval_target(kind: EventKind) -> ApprovalTarget {
    match kind {
        EventKind::PlanProposed { plan_id, .. } => ApprovalTarget::Plan { plan_id },
        EventKind::ApprovalRequest { request_id, .. } => ApprovalTarget::Action { request_id },
        _ => ApprovalTarget::Plan { plan_id: 0 },
    }
}

/// The engine command that answers `target`.
pub open spec fn answer_command(target: ApprovalTarget, approved: bool) -> EngineCommand {
    match target {
        ApprovalTarget::Plan { plan_id } => EngineCommand::ApprovePlan { plan_id, approved },
        ApprovalTarget::Action { request_id } => EngineCommand::ApproveAction {
            request_id,
            approved,
        },
    }
}

/// The effects of signing out: revoke the token when there is a session, remove the saved
/// one, drop the socket, and cancel a tracked fetch.
pub open spec fn signed_out_effects(session: Option<Session>, task: Option<u64>) -> Seq<Effect> {
    let logout = match session {
        Some(s) => seq![Effect::Logout { token: s.token }],
        None => Seq::<Effect>::empty(),
    };
    let abort = match task {
        Some(n) => seq![Effect::AbortFetch { nonce: n }],
        None => Seq::<Effect>::empty(),
    };
    logout + seq![Effect::ClearSession, Effect::DropWs] + abort
}

/// Enter on a sign-in form. The error line is cleared first; then, by screen and field:
/// sign-in moves from a filled email to the code and sends a complete form; registration moves
/// from a filled email to the name and sends the account request; the confirmation screen
/// sends a filled code with the setup token (empty if none). A missing email or code is named.
pub open spec fn submitted(old: App, new: App, effects: Seq<Effect>) -> bool {
    let lang = old.config.lang;
    let base = App { error: None, ..old };
    let email_empty = old.form.email@.len() == 0;
    let code_empty = old.form.code@.len() == 0;
    let req_email = new == (App { error: new.error, ..base }) && (new.error matches Some(m)
        && m@ == translated(lang, "status.email_required"@)) && effects.len() == 0;
    let req_code = new == (App { error: new.error, ..base }) && (new.error matches Some(m)
        && m@ == translated(lang, "status.code_required"@)) && effects.len() == 0;
    match (old.mode, old.form.focus) {
        (Mode::SignIn, Focus::Email) => effects.len() == 0 && if email_empty {
            new == base
        } else {
            new == (App { form: Form { focus: Focus::Code, ..old.form }, ..base })
        },
        (Mode::SignIn, Focus::Code) => if email_empty {
            req_email
        } else if code_empty {
            req_code
        } else {
            &&& new == (App { status: new.status, ..base })
            &&& new.status@ == translated(lang, "status.signing_in"@)
            &&& effects.len() == 1
            &&& effects[0] == Effect::Login { email: old.form.email, code: old.form.code }
        },
        (Mode::Register, Focus::Email) => if email_empty {
            req_email
        } else {
            new == (App { form: Form { focus: Focus::Name, ..old.form }, ..base }) && effects.len()
                == 0
        },
        (Mode::Register, Focus::Name) => if email_empty {
            req_email
        } else {
            &&& new == (App { status: new.status, ..base })
            &&& new.status@ == translated(lang, "status.creating_account"@)
            &&& effects.len() == 1
            &&& effects[0] == Effect::Register { email: old.form.email, name: old.form.name }
        },
        (Mode::RegisterCode, _) => if code_empty {
            req_code
        } else {
            &&& new == (App { status: new.status, ..base })
            &&& new.status@ == translated(lang, "status.confirming"@)
            &&& effects.len() == 1
            &&& effects[0] matches Effect::ConfirmRegistration { setup_token, code } && code
                == old.form.code && setup_token@ == match old.form.setup_token {
                Some(t) => t@,
                None => Seq::<char>::empty(),
            }
        },
        _ => new == base && effects.len() == 0,
    }
}

/// The value `m` holds for `k`, if any.
pub open spec fn map_get(m: Map<Seq<char>, Seq<char>>, k: Seq<char>) -> Option<Seq<char>> {
    if m.contains_key(k) {
        Some(m[k])
    } else {
        None
    }
}

/// The models map after undoing a staged pin of `provider`: the previous model back, or the
/// entry removed when there was none.
pub open spec fn rolled_back(
    m: Map<Seq<char>, Seq<char>>,
    provider: Seq<char>,
    previous: Option<Seq<char>>,
) -> Map<Seq<char>, Seq<char>> {
    match previous {
        Some(p) => m.insert(provider, p),
        None => m.remove(provider),
    }
}

/// What finishing a settings write does, given the staged change and the write's outcome.
pub open spec fn saved_settings(
    old: App,
    new: App,
    result: Result<(), String>,
    effects: Seq<Effect>,
) -> bool {
    match old.staged {
        None => new == old && effects.len() == 0,
        Some(StagedSave::Model { provider, model, previous, previous_provider }) => match result {
            Ok(()) => {
                &&& new == (App { staged: None, status: new.status, ..old })
                &&& new.status@ == tw1(old.config.lang, "status.model_set"@, "model"@, model@)
                &&& effects == seq![Effect::RebuildProvider]
            },
            Err(e) => {
                &&& new == (App {
                    staged: None,
                    error: new.error,
                    settings: Settings {
                        models: new.settings.models,
                        provider: new.settings.provider,
                        ..old.settings
                    },
                    ..old
                })
                &&& new.error matches Some(m) && m@ == tw1(
                    old.config.lang,
                    "status.settings_save_failed"@,
                    "error"@,
                    e@,
                )
                &&& new.settings.models@ == rolled_back(
                    old.settings.models@,
                    provider@,
                    opt_str_v(previous),
                )
                &&& new.settings.provider == match previous_provider {
                    Some(pp) => pp,
                    None => old.settings.provider,
                }
                &&& effects.len() == 0
            },
        },
        Some(StagedSave::Lang { lang, previous_lang, previous_saved }) => match result {
            Ok(()) => {
                &&& new == (App { staged: None, status: new.status, ..old })
                &&& new.status@ == tw1(old.config.lang, "status.lang_set"@, "lang"@, locale_code(lang))
                &&& effects.len() == 0
            },
            Err(e) => {
                &&& new == (App {
                    staged: None,
                    error: new.error,
                    config: Config { lang: previous_lang, ..old.config },
                    settings: Settings { lang: previous_saved, ..old.settings },
                    ..old
                })
                &&& new.error matches Some(m) && m@ == tw1(
                    old.config.lang,
                    "status.settings_save_failed"@,
                    "error"@,
                    e@,
                )
                &&& effects.len() == 0
            },
        },
    }
}

/// The error shown when the credential store refused a write or removal for `provider`.
pub open spec fn key_failed_text(locale: Locale, provider: Seq<char>, reason: Seq<char>) -> Seq<char> {
    tw2(locale, "status.key_failed"@, "provider"@, provider, "error"@, reason)
}

/// What the store's answer `r` to writing (or, with `cleared`, removing) `provider`'s key does
/// to `old`: on success the change is confirmed and the provider rebuilt; on failure the
/// store's own reason is shown and nothing else changes.
pub open spec fn key_outcome(
    old: App,
    new: App,
    provider: Seq<char>,
    r: Result<(), StoreError>,
    effects: Seq<Effect>,
    cleared: bool,
) -> bool {
    match r {
        Ok(()) => {
            &&& new == (App { status: new.status, ..old })
            &&& new.status@ == tw1(
                old.config.lang,
                if cleared {
                    "status.key_cleared"@
                } else {
                    "status.key_set"@
                },
                "provider"@,
                provider,
            )
            &&& effects == seq![Effect::RebuildProvider]
        },
        Err(e) => {
            &&& new == (App { error: new.error, ..old })
            &&& new.error matches Some(m) && m@ == key_failed_text(old.config.lang, provider, e.message@)
            &&& effects.len() == 0
        },
    }
}

/// `key` was handed to the store `before` as `provider`'s key, leaving it as `after`, and its
/// answer did what [`key_outcome`] says.
pub open spec fn key_saved<S: CredentialStore>(
    old: App,
    new: App,
    provider: Seq<char>,
    key: Seq<char>,
    effects: Seq<Effect>,
    before: S,
    after: S,
) -> bool {
    exists|r: Result<(), StoreError>|
        #[trigger] before.write_gives(after, provider, key, r) && key_outcome(old, new, provider, r, effects, false)
}

/// `provider`'s key was removed from the store `before`, leaving it as `after`, and its answer
/// did what [`key_outcome`] says.
pub open spec fn key_removed<S: CredentialStore>(
    old: App,
    new: App,
    provider: Seq<char>,
    effects: Seq<Effect>,
    before: S,
    after: S,
) -> bool {
    exists|r: Result<(), StoreError>|
        #[trigger] before.delete_gives(after, provider, r) && key_outcome(old, new, provider, r, effects, true)
}

/// The label of a key source in `locale`.
pub open spec fn label_of(locale: Locale, status: KeyStatus) -> Seq<char> {
    translated(
        locale,
        match status {
            KeyStatus::Env => "provider.key.env"@,
            KeyStatus::Keyring => "provider.key.keyring"@,
            KeyStatus::Absent => "provider.key.none"@,
        },
    )
}

/// The label of a key source.
pub fn status_label(locale: Locale, status: KeyStatus) -> (r: &'static str)
    ensures
        r@ == label_of(locale, status),
{
    proof {
        reveal_strlit("provider.key.env");
        reveal_strlit("provider.key.keyring");
        reveal_strlit("provider.key.none");
    }
    match status {
        KeyStatus::Env => crate::i18n::t(locale, "provider.key.env"),
        KeyStatus::Keyring => crate::i18n::t(locale, "provider.key.keyring"),
        KeyStatus::Absent => crate::i18n::t(locale, "provider.key.none"),
    }
}

/// `id: label` for each remote provider, in key-precedence order.
pub open spec fn key_parts(locale: Locale, statuses: Seq<KeyStatus>) -> Seq<Seq<char>> {
    Seq::new(4, |i: int| remote_id_list()[i] + ": "@ + label_of(locale, statuses[i]))
}

/// `parts` joined by `, `.
pub open spec fn comma_joined(parts: Seq<Seq<char>>) -> Seq<char>
    decreases parts.len(),
{
    if parts.len() == 0 {
        Seq::empty()
    } else if parts.len() == 1 {
        parts[0]
    } else {
        comma_joined(parts.drop_last()) + ", "@ + parts.last()
    }
}

/// The `/key` listing line.
pub open spec fn key_list_text(locale: Locale, statuses: Seq<KeyStatus>) -> Seq<char> {
    tw1(locale, "key.list"@, "list"@, comma_joined(key_parts(locale, statuses)))
}

/// The strings of `parts` joined by `, `.
pub fn join_comma(parts: &Vec<String>) -> (r: String)
    ensures
        r@ == comma_joined(strs_v(parts@)),
{
    let mut v: Vec<char> = Vec::new();
    let mut i: usize = 0;
    proof {
        reveal_strlit(", ");
        assert(strs_v(parts@).take(0) =~= Seq::<Seq<char>>::empty());
    }
    while i < parts.len()
        invariant
            i <= parts@.len(),
            v@ == comma_joined(strs_v(parts@).take(i as int)),
        decreases parts@.len() - i,
    {
        let ghost before = strs_v(parts@).take(i as int);
        let ghost after = strs_v(parts@).take(i + 1);
        assert(after.drop_last() =~= before);
        if i > 0 {
            extend_chars(&mut v, &chars_of(", "));
        }
        extend_chars(&mut v, &chars_of(parts[i].as_str()));
        proof {
            if i == 0 {
                assert(v@ =~= after[0]);
            } else {
                assert(v@ =~= comma_joined(before) + ", "@ + after.last());
            }
        }
        i = i + 1;
    }
    assert(strs_v(parts@).take(parts@.len() as int) =~= strs_v(parts@));
    string_of(&v)
}

/// The cancellation of a released fetch task, if there was one.
pub open spec fn aborts(task: Option<u64>) -> Seq<Effect> {
    match task {
        Some(n) => seq![Effect::AbortFetch { nonce: n }],
        None => Seq::empty(),
    }
}

/// The cancellation of a released fetch task, if there was one.
pub fn abort_effects(task: Option<u64>) -> (r: Vec<Effect>)
    ensures
        r@ == aborts(task),
{
    let mut r: Vec<Effect> = Vec::new();
    if let Some(n) = task {
        r.push(Effect::AbortFetch { nonce: n });
    }
    r
}

/// What opening a modal whose fetch target is `target` does to the fetch bookkeeping: the
/// earlier fetch is cancelled, and a modal that waits on a list starts exactly one fetch.
pub open spec fn opened(
    nonce: u64,
    task: Option<u64>,
    target: Option<(Seq<char>, FetchSink)>,
    key: Option<Seq<char>>,
    new_nonce: u64,
    new_task: Option<u64>,
    effects: Seq<Effect>,
) -> bool {
    match target {
        None => new_nonce == nonce + 1 && new_task is None && effects == aborts(task),
        Some((p, sink)) => {
            &&& new_nonce == nonce + 2
            &&& new_task == Some(new_nonce)
            &&& effects.len() == aborts(task).len() + 1
            &&& effects.take(effects.len() - 1) == aborts(task)
            &&& effects.last() matches Effect::FetchModels { nonce: n, provider, key: k, sink: s }
                && n == new_nonce && provider@ == p && opt_str_v(k) == key && s == sink
        },
    }
}

/// Whether the open connect modal is waiting on `provider`'s list under `nonce`.
pub open spec fn connect_awaits(m: Option<ModalV>, current: u64, nonce: u64, provider: Seq<char>) -> bool {
    &&& nonce == current
    &&& m matches Some(ModalV::Connect(ConnectStepV::ModelList { provider: p, fetching: true, .. }))
    &&& p == provider
}

/// Whether the open models modal is waiting on `provider`'s list under `nonce`.
pub open spec fn models_awaits(m: Option<ModalV>, current: u64, nonce: u64, provider: Seq<char>) -> bool {
    &&& nonce == current
    &&& m matches Some(ModalV::Models(ModelsStepV::ModelList { provider: p, fetching: true, .. }))
    &&& p == provider
}

/// The fetch error as the modals show it.
pub open spec fn fetch_error_text(locale: Locale, message: Seq<char>) -> Seq<char> {
    tw1(locale, "connect.fetch_error"@, "error"@, message)
}

/// The connect list `s` once its fetch answered `result`: the models from the top, or the
/// error inline.
pub open spec fn connect_filled(
    s: ConnectStepV,
    locale: Locale,
    result: Result<Vec<String>, FetchError>,
) -> ConnectStepV {
    match s {
        ConnectStepV::ModelList { rows, provider, models, selected, from_key, .. } => match result {
            Ok(list) => ConnectStepV::ModelList {
                rows,
                provider,
                models: strs_v(list@),
                selected: 0,
                fetching: false,
                error: None,
                from_key,
            },
            Err(e) => ConnectStepV::ModelList {
                rows,
                provider,
                models,
                selected,
                fetching: false,
                error: Some(fetch_error_text(locale, e.message@)),
                from_key,
            },
        },
        _ => s,
    }
}

/// The index of the first of `s` equal to `x`.
pub open spec fn first_position(s: Seq<Seq<char>>, x: Seq<char>) -> Option<int>
    decreases s.len(),
{
    if s.len() == 0 {
        None
    } else if s[0] == x {
        Some(0)
    } else {
        match first_position(s.drop_first(), x) {
            Some(i) => Some(i + 1),
            None => None,
        }
    }
}

/// The row a fetched list highlights: the active model's, or the top.
pub open spec fn preselected(models: Seq<Seq<char>>, current: Option<Seq<char>>) -> int {
    match current {
        Some(m) => match first_position(models, m) {
            Some(i) => i,
            None => 0,
        },
        None => 0,
    }
}

/// The models modal's step once the fetch for `provider` answered `result`: the list with the
/// active model highlighted; a credential-class failure shows the remedy; any other failure
/// offers manual entry.
pub open spec fn models_filled(
    provider: Seq<char>,
    current: Option<Seq<char>>,
    locale: Locale,
    result: Result<Vec<String>, FetchError>,
) -> ModelsStepV {
    match result {
        Ok(list) => ModelsStepV::ModelList {
            provider,
            models: strs_v(list@),
            selected: preselected(strs_v(list@), current),
            fetching: false,
        },
        Err(e) => if credential_class(e.class) {
            ModelsStepV::Credentials { provider, error: fetch_error_text(locale, e.message@) }
        } else {
            ModelsStepV::Manual {
                provider,
                input: Seq::empty(),
                error: Some(fetch_error_text(locale, e.message@)),
            }
        },
    }
}

proof fn lemma_first_position_at(s: Seq<Seq<char>>, x: Seq<char>, i: int)
    requires
        0 <= i < s.len(),
        s[i] == x,
        forall|k: int| 0 <= k < i ==> s[k] != x,
    ensures
        first_position(s, x) == Some(i),
    decreases i,
{
    if i > 0 {
        lemma_first_position_at(s.drop_first(), x, i - 1);
    }
}

proof fn lemma_first_position_none(s: Seq<Seq<char>>, x: Seq<char>)
    requires
        forall|k: int| 0 <= k < s.len() ==> s[k] != x,
    ensures
        first_position(s, x) is None,
    decreases s.len(),
{
    if s.len() > 0 {
        lemma_first_position_none(s.drop_first(), x);
    }
}

/// The position of the first of `list` equal to `x`, or 0.
pub fn position_in(list: &Vec<String>, x: &String) -> (r: usize)
    ensures
        r == preselected(strs_v(list@), Some(x@)),
{
    let mut i: usize = 0;
    while i < list.len()
        invariant
            i <= list.len(),
            forall|k: int| 0 <= k < i ==> strs_v(list@)[k] != x@,
        decreases list.len() - i,
    {
        if crate::text::str_eq(list[i].as_str(), x.as_str()) {
            proof {
                lemma_first_position_at(strs_v(list@), x@, i as int);
            }
            return i;
        }
        i = i + 1;
    }
    proof {
        lemma_first_position_none(strs_v(list@), x@);
    }
    0
}

/// What committing `a` from an open modal does: the modal closes (cancelling its fetch), the
/// selection is pinned in the settings (and, from `/connect`, the provider adopted), and the
/// settings are handed over to write.
pub open spec fn applied(old: App, new: App, a: ModalApplyV, effects: Seq<Effect>) -> bool {
    let (p, m) = match a {
        ModalApplyV::Provider { provider, model } => (provider, model),
        ModalApplyV::Model { provider, model, .. } => (provider, model),
    };
    &&& new == (App {
        modal: new.modal,
        settings: Settings {
            models: new.settings.models,
            provider: new.settings.provider,
            ..old.settings
        },
        staged: new.staged,
        ..old
    })
    &&& new.modal.current_v() is None
    &&& new.modal.nonce_v() == old.modal.nonce_v() + 1
    &&& new.modal.fetch_v() is None
    &&& new.settings.models@ == old.settings.models@.insert(p, m)
    &&& new.staged matches Some(StagedSave::Model { provider, model, previous, previous_provider })
        && provider@ == p && model@ == m && opt_str_v(previous) == map_get(old.settings.models@, p)
        && match a {
        ModalApplyV::Provider { .. } => previous_provider == Some(old.settings.provider),
        ModalApplyV::Model { .. } => previous_provider is None,
    }
    &&& match a {
        ModalApplyV::Provider { .. } => opt_str_v(new.settings.provider) == Some(p),
        ModalApplyV::Model { .. } => new.settings.provider == old.settings.provider,
    }
    &&& effects == aborts(old.modal.fetch_v()) + seq![
        Effect::SaveSettings { settings_lang: old.settings.lang },
    ]
}

/// What moving the open modal to `m` does: the awaited fetch is kept while `m` waits on the
/// same list; otherwise it is cancelled, and a fetch starts (with `key`) when `m` waits on a
/// new one.
pub open spec fn stepped(
    old: App,
    new: App,
    m: ModalV,
    key: Option<Seq<char>>,
    effects: Seq<Effect>,
) -> bool {
    &&& new == (App { modal: new.modal, ..old })
    &&& new.modal.current_v() == Some(m)
    &&& if open_target(old.modal.current_v()) == fetch_target_of(m) {
        &&& new.modal.nonce_v() == old.modal.nonce_v()
        &&& new.modal.fetch_v() == old.modal.fetch_v()
        &&& effects.len() == 0
    } else {
        opened(
            old.modal.nonce_v(),
            old.modal.fetch_v(),
            fetch_target_of(m),
            key,
            new.modal.nonce_v(),
            new.modal.fetch_v(),
            effects,
        )
    }
}

/// Whether a key press on modal `current` is Enter on the connect key field with a blank key.
pub open spec fn blank_key_enter(current: ModalV, key: KeyEvent) -> bool {
    current matches ModalV::Connect(ConnectStepV::KeyEntry { input, .. }) && key.code
        == KeyCode::Enter && trim(input).len() == 0
}

/// Whether a key press on modal `current` submits a typed key on the connect key field.
pub open spec fn key_submit(current: ModalV, key: KeyEvent) -> bool {
    current matches ModalV::Connect(ConnectStepV::KeyEntry { input, .. }) && key.code
        == KeyCode::Enter && trim(input).len() > 0
}

/// What a key press does while a modal is open (see [`App::handle_modal_key`]).
pub open spec fn modal_key_handled<S: CredentialStore>(
    old: App,
    new: App,
    key: KeyEvent,
    effects: Seq<Effect>,
    before: S,
    after: S,
) -> bool {
    &&& !(!is_ctrl_char(key, 'c') && (old.modal.current_v() matches Some(c) && key_submit(c, key)))
        ==> after == before
    &&& if is_ctrl_char(key, 'c') {
        new == old && effects == seq![Effect::Quit]
    } else if old.modal.current_v() is None {
        new == old && effects.len() == 0
    } else {
        let current = old.modal.current_v()->0;
        if blank_key_enter(current, key) {
            &&& new == (App { status: new.status, ..old })
            &&& new.status@ == translated(old.config.lang, "status.key_empty"@)
            &&& effects.len() == 0
        } else if key_submit(current, key) {
            let provider = current->Connect_0->KeyEntry_provider;
            let typed = trim(current->Connect_0->KeyEntry_input);
            exists|r: Result<(), StoreError>|
                #[trigger] before.write_gives(after, provider, typed, r) && match r {
                    Ok(()) => {
                        &&& modal_next(current, key) matches TransitionV::Step(m)
                        &&& stepped(old, new, m, Some(typed), effects)
                    },
                    Err(e) => {
                        &&& new == (App { error: new.error, ..old })
                        &&& new.error matches Some(m) && m@ == key_failed_text(
                            old.config.lang,
                            provider,
                            e.message@,
                        )
                        &&& effects.len() == 0
                    },
                }
        } else {
            match modal_next(current, key) {
                TransitionV::Close => {
                    &&& new == (App { modal: new.modal, ..old })
                    &&& new.modal.current_v() is None
                    &&& new.modal.nonce_v() == old.modal.nonce_v() + 1
                    &&& new.modal.fetch_v() is None
                    &&& effects == aborts(old.modal.fetch_v())
                },
                TransitionV::Apply(a) => applied(old, new, a, effects),
                TransitionV::Step(m) => stepped(old, new, m, None, effects),
            }
        }
    }
}

/// `old` with only the error line set to the catalog text for `key`.
pub open spec fn refused(old: App, new: App, key: Seq<char>) -> bool {
    &&& new == (App { error: new.error, ..old })
    &&& new.error matches Some(m) && m@ == translated(old.config.lang, key)
}

/// `/key <provider>`: the key screen opens for a provider that takes a key; any other is
/// refused by name.
pub open spec fn key_entry_begun(old: App, new: App, p: Seq<char>) -> bool {
    if !keyed(p) {
        &&& new == (App { error: new.error, ..old })
        &&& new.error matches Some(m) && m@ == tw1(
            old.config.lang,
            "status.key_unsupported"@,
            "provider"@,
            p,
        )
    } else {
        &&& new == (App {
            key_entry: KeyEntry {
                target: new.key_entry.target,
                input: new.key_entry.input,
                return_mode: old.mode,
            },
            mode: Mode::Key,
            ..old
        })
        &&& opt_str_v(new.key_entry.target) == Some(p)
        &&& new.key_entry.input@.len() == 0
    }
}

/// `/key <provider> clear`: the key is removed from the store for a provider that takes one
/// (see [`key_removed`]); any other is refused by name and the store left alone.
pub open spec fn key_clear_handled<S: CredentialStore>(
    old: App,
    new: App,
    p: Seq<char>,
    effects: Seq<Effect>,
    before: S,
    after: S,
) -> bool {
    if !keyed(p) {
        &&& after == before
        &&& new == (App { error: new.error, ..old })
        &&& new.error matches Some(m) && m@ == tw1(
            old.config.lang,
            "status.key_unsupported"@,
            "provider"@,
            p,
        )
        &&& effects.len() == 0
    } else {
        key_removed(old, new, p, effects, before, after)
    }
}

/// `/model <id>`: the model is pinned to the active provider when it is one that takes a
/// model, and the settings handed over to write.
pub open spec fn model_pinned(old: App, new: App, id: Seq<char>, effects: Seq<Effect>) -> bool {
    if !provider_name(old.provider_info.id@) {
        refused(old, new, "status.model_unsupported"@) && effects.len() == 0
    } else {
        &&& new == (App {
            settings: Settings { models: new.settings.models, ..old.settings },
            staged: new.staged,
            ..old
        })
        &&& new.settings.models@ == old.settings.models@.insert(old.provider_info.id@, id)
        &&& new.staged matches Some(StagedSave::Model { provider: p, model: m, previous, previous_provider: pp })
            && p@ == old.provider_info.id@ && m@ == id && pp is None && opt_str_v(previous)
            == map_get(old.settings.models@, old.provider_info.id@)
        &&& effects == seq![Effect::SaveSettings { settings_lang: old.settings.lang }]
    }
}

/// `/lang <code>`: the language switches and is handed over to write, remembering what to
/// restore; an unknown language is refused.
pub open spec fn lang_switched(old: App, new: App, arg: Seq<char>, effects: Seq<Effect>) -> bool {
    match parsed_locale(arg) {
        None => refused(old, new, "status.lang_invalid"@) && effects.len() == 0,
        Some(l) => {
            &&& new == (App {
                config: Config { lang: l, ..old.config },
                settings: Settings { lang: new.settings.lang, ..old.settings },
                staged: Some(
                    StagedSave::Lang {
                        lang: l,
                        previous_lang: old.config.lang,
                        previous_saved: old.settings.lang,
                    },
                ),
                ..old
            })
            &&& new.settings.lang@ == locale_code(l)
            &&& effects == seq![Effect::SaveSettings { settings_lang: new.settings.lang }]
        },
    }
}

/// Signing out: the token is revoked, the saved session removed, the socket and any modal
/// closed, and the sign-in screen shown with the activity log cleared.
pub open spec fn signed_out(old: App, new: App, effects: Seq<Effect>) -> bool {
    &&& new == (App {
        session: None,
        ws_connected: false,
        mode: Mode::SignIn,
        form: Form { focus: Focus::Email, code: new.form.code, ..old.form },
        modal: new.modal,
        activity: Activity { log: new.activity.log, pongs: 0, ..old.activity },
        status: new.status,
        error: None,
        ..old
    })
    &&& new.form.code@.len() == 0
    &&& new.activity.log@.len() == 0
    &&& new.status@ == translated(old.config.lang, "status.signed_out"@)
    &&& new.modal.current_v() is None
    &&& new.modal.nonce_v() == old.modal.nonce_v() + 1
    &&& new.modal.fetch_v() is None
    &&& effects == signed_out_effects(old.session, old.modal.fetch_v())
}

/// Device login is requested.
pub open spec fn device_requested(old: App, new: App, effects: Seq<Effect>) -> bool {
    &&& new == (App { status: new.status, ..old })
    &&& new.status@ == translated(old.config.lang, "status.requesting_device_code"@)
    &&& effects == seq![Effect::RequestDeviceCode]
}

/// `/models`: the models modal opens for the active provider, fetching its list, or on the
/// offline notice when no live provider is active.
pub open spec fn models_entered(old: App, new: App, effects: Seq<Effect>) -> bool {
    &&& new == (App { modal: new.modal, ..old })
    &&& old.provider_info.offline is Some ==> {
        &&& new.modal.current_v() == Some(ModalV::Models(ModelsStepV::Offline))
        &&& new.modal.nonce_v() == old.modal.nonce_v() + 1
        &&& new.modal.fetch_v() is None
        &&& effects == aborts(old.modal.fetch_v())
    }
    &&& old.provider_info.offline is None ==> {
        &&& new.modal.current_v() == Some(
            ModalV::Models(
                ModelsStepV::ModelList {
                    provider: old.provider_info.id@,
                    models: Seq::empty(),
                    selected: 0,
                    fetching: true,
                },
            ),
        )
        &&& opened(
            old.modal.nonce_v(),
            old.modal.fetch_v(),
            Some((old.provider_info.id@, FetchSink::Models)),
            None,
            new.modal.nonce_v(),
            new.modal.fetch_v(),
            effects,
        )
    }
}

/// The providers the connect modal offers, in order.
pub open spec fn provider_ids() -> Seq<Seq<char>> {
    seq!["anthropic"@, "openai"@, "gemini"@, "deepseek"@, "ollama"@]
}

/// The connect modal's rows: each remote provider is connected when its key has a source, and
/// Ollama when its opt-in variable is exactly `1`.
pub open spec fn rows_of(statuses: Seq<KeyStatus>, ollama: Option<Seq<char>>) -> Seq<ProviderRowV> {
    Seq::new(
        5,
        |i: int|
            ProviderRowV {
                id: provider_ids()[i],
                connected: if i < 4 {
                    statuses[i] != KeyStatus::Absent
                } else {
                    ollama == Some("1"@)
                },
            },
    )
}

/// The connect modal's rows from the remote providers' key statuses (in key-precedence order)
/// and the value of `LIGHT_OLLAMA`.
pub fn provider_rows(statuses: &Vec<KeyStatus>, ollama: Option<String>) -> (rows: Vec<ProviderRow>)
    requires
        statuses@.len() == 4,
    ensures
        rows_v(rows@) == rows_of(statuses@, opt_str_v(ollama)),
{
    proof {
        reveal_strlit("1");
    }
    let names = vec!["anthropic", "openai", "gemini", "deepseek", "ollama"];
    let mut rows: Vec<ProviderRow> = Vec::new();
    let mut i: usize = 0;
    while i < 5
        invariant
            i <= 5,
            statuses@.len() == 4,
            names@.len() == 5,
            names@.map_values(|s: &str| s@) == provider_ids(),
            rows_v(rows@) == rows_of(statuses@, opt_str_v(ollama)).take(i as int),
        decreases 5 - i,
    {
        let connected = if i < 4 {
            statuses[i] != KeyStatus::Absent
        } else {
            match &ollama {
                Some(v) => str_eq(v.as_str(), "1"),
                None => false,
            }
        };
        assert(names@.map_values(|s: &str| s@)[i as int] == names@[i as int]@);
        let ghost before = rows@;
        let row = ProviderRow { id: string_of(&chars_of(names[i])), connected };
        rows.push(row);
        assert(rows_v(rows@) =~= rows_v(before).push(row@));
        assert(rows_of(statuses@, opt_str_v(ollama)).take(i + 1) =~= rows_of(
            statuses@,
            opt_str_v(ollama),
        ).take(i as int).push(rows_of(statuses@, opt_str_v(ollama))[i as int]));
        i = i + 1;
    }
    assert(rows_of(statuses@, opt_str_v(ollama)).take(5) =~= rows_of(statuses@, opt_str_v(ollama)));
    rows
}

/// Where each remote provider's key comes from, in key-precedence order.
pub fn key_statuses<S: CredentialStore, F: Fn(&str) -> Option<String> + Copy>(store: &mut S, env: F) -> (r:
    Vec<KeyStatus>)
    requires
        forall|v: &str| env.requires((v,)),
    ensures
        statuses_possible(*old(store), *final(store), env, r@),
{
    let ids = remote_ids();
    let mut r: Vec<KeyStatus> = Vec::new();
    let mut i: usize = 0;
    let ghost start = *store;
    let ghost mut stores: Seq<S> = seq![*store];
    assert(ids@.map_values(|s: &str| s@).len() == 4);
    while i < 4
        invariant
            i <= 4,
            ids@.len() == 4,
            ids@.map_values(|s: &str| s@) == remote_id_list(),
            r@.len() == i,
            forall|v: &str| env.requires((v,)),
            stores.len() == i + 1,
            stores[0] == start,
            stores[i as int] == *store,
            forall|j: int|
                0 <= j < i ==> status_possible(
                    stores[j],
                    stores[j + 1],
                    remote_id_list()[j],
                    env,
                    #[trigger] r@[j],
                ),
        decreases 4 - i,
    {
        assert(ids@.map_values(|s: &str| s@)[i as int] == ids@[i as int]@);
        let ghost prev = stores;
        let s = crate::selection::key_status(ids[i], store, env);
        r.push(s);
        proof {
            stores = stores.push(*store);
            assert forall|j: int| 0 <= j < i + 1 implies status_possible(
                stores[j],
                stores[j + 1],
                remote_id_list()[j],
                env,
                #[trigger] r@[j],
            ) by {
                if j < i {
                    assert(stores[j] == prev[j] && stores[j + 1] == prev[j + 1]);
                }
            }
        }
        i = i + 1;
    }
    assert(store_run(stores, start, *store));
    r
}

/// What a key press does on the help screen.
pub open spec fn help_key_handled(old: App, new: App, key: KeyEvent, effects: Seq<Effect>) -> bool {
    if is_ctrl_char(key, 'c') {
        new == old && effects == seq![Effect::Quit]
    } else if is_ctrl_char(key, 'p') || key.code == KeyCode::Esc {
        new == (App { mode: old.help_return, ..old }) && effects.len() == 0
    } else {
        new == old && effects.len() == 0
    }
}

/// What a key press does on the engine pane.
pub open spec fn engine_key_handled(old: App, new: App, key: KeyEvent, effects: Seq<Effect>) -> bool {
    let edited = |p: Seq<char>|
        new == (App { engine: EnginePane { prompt: new.engine.prompt, ..old.engine }, ..old })
            && new.engine.prompt@ == p && effects.len() == 0;
    if is_ctrl_char(key, 'c') {
        new == old && effects == seq![Effect::Quit]
    } else {
        match key.code {
            KeyCode::Esc => {
                &&& new == (App {
                    engine: EnginePane {
                        active: false,
                        prompt: new.engine.prompt,
                        pending: None,
                        ..old.engine
                    },
                    mode: Mode::Connected,
                    status: new.status,
                    ..old
                })
                &&& new.engine.prompt@.len() == 0
                &&& new.status@ == (match old.session {
                    Some(s) => tw1(old.config.lang, "status.connected_as"@, "email"@, s.email@),
                    None => old.status@,
                })
                &&& effects == seq![Effect::StopEngine]
            },
            KeyCode::Enter => {
                &&& !old.engine.active || trim(old.engine.prompt@).len() == 0 ==> new == old
                    && effects.len() == 0
                &&& old.engine.active && trim(old.engine.prompt@).len() > 0 ==> {
                    &&& new == (App {
                        engine: EnginePane {
                            log: new.engine.log,
                            prompt: new.engine.prompt,
                            ..old.engine
                        },
                        ..old
                    })
                    &&& new.engine.prompt@.len() == 0
                    &&& strs_v(new.engine.log@) == strs_v(old.engine.log@).push(
                        "> "@ + trim(old.engine.prompt@),
                    )
                    &&& effects.len() == 1
                    &&& effects[0] matches Effect::Engine { command: EngineCommand::SendPrompt { text } }
                        && text@ == trim(old.engine.prompt@)
                }
            },
            KeyCode::Backspace => edited(pop_last(old.engine.prompt@)),
            KeyCode::Char(c) => if old.engine.pending is Some && (c == 'a' || c == 'd') {
                &&& !old.engine.active ==> new == old && effects.len() == 0
                &&& old.engine.active ==> {
                    &&& new == (App { engine: EnginePane { pending: None, ..old.engine }, ..old })
                    &&& effects == seq![
                        Effect::Engine {
                            command: answer_command(old.engine.pending->0.target, c == 'a'),
                        },
                    ]
                }
            } else {
                edited(old.engine.prompt@.push(c))
            },
            _ => new == old && effects.len() == 0,
        }
    }
}

/// What a key press does on the key entry screen.
pub open spec fn key_screen_handled<S: CredentialStore>(
    old: App,
    new: App,
    key: KeyEvent,
    effects: Seq<Effect>,
    before: S,
    after: S,
) -> bool {
    let edited = |p: Seq<char>|
        new == (App { key_entry: KeyEntry { input: new.key_entry.input, ..old.key_entry }, ..old })
            && new.key_entry.input@ == p && effects.len() == 0;
    &&& (is_ctrl_char(key, 'c') || key.code != KeyCode::Enter) ==> after == before
    &&& if is_ctrl_char(key, 'c') {
        new == old && effects == seq![Effect::Quit]
    } else {
        match key.code {
            KeyCode::Esc => {
                &&& new == (App {
                    key_entry: KeyEntry {
                        target: None,
                        input: new.key_entry.input,
                        ..old.key_entry
                    },
                    mode: old.key_entry.return_mode,
                    ..old
                })
                &&& new.key_entry.input@.len() == 0
                &&& effects.len() == 0
            },
            KeyCode::Enter => key_entry_submitted(old, new, effects, before, after),
            KeyCode::Backspace => edited(pop_last(old.key_entry.input@)),
            KeyCode::Char(c) => edited(old.key_entry.input@.push(c)),
            _ => new == old && effects.len() == 0,
        }
    }
}

/// Enter on the key entry screen (see [`App::submit_key_entry`]).
pub open spec fn key_entry_submitted<S: CredentialStore>(
    old: App,
    new: App,
    effects: Seq<Effect>,
    before: S,
    after: S,
) -> bool {
    &&& old.key_entry.target is None ==> {
        &&& after == before
        &&& new == (App { mode: old.key_entry.return_mode, ..old })
        &&& effects.len() == 0
    }
    &&& old.key_entry.target matches Some(p) ==> {
        let left = App {
            key_entry: KeyEntry { target: None, input: new.key_entry.input, ..old.key_entry },
            mode: old.key_entry.return_mode,
            ..old
        };
        &&& new.key_entry.input@.len() == 0
        &&& trim(old.key_entry.input@).len() == 0 ==> {
            &&& after == before
            &&& new == (App { status: new.status, ..left })
            &&& new.status@ == translated(old.config.lang, "status.key_empty"@)
            &&& effects.len() == 0
        }
        &&& trim(old.key_entry.input@).len() > 0 ==> key_saved(
            left,
            new,
            p@,
            trim(old.key_entry.input@),
            effects,
            before,
            after,
        )
    }
}

/// Whether `env` answered `value` for `LIGHT_OLLAMA`, the variable that opts in to Ollama.
pub open spec fn ollama_answer<F: Fn(&str) -> Option<String>>(env: F, value: Option<String>) -> bool {
    exists|v: &str| v@ == "LIGHT_OLLAMA"@ && call_ensures(env, (v,), value)
}

/// The connect modal's rows as read through `env` and `store`: some key statuses and some
/// `LIGHT_OLLAMA` answer that the reads can give.
pub open spec fn rows_readable<S: CredentialStore, F: Fn(&str) -> Option<String>>(
    env: F,
    before: S,
    after: S,
    rows: Seq<ProviderRowV>,
) -> bool {
    exists|st: Seq<KeyStatus>, ollama: Option<String>|
        #![trigger rows_of(st, opt_str_v(ollama))]
        statuses_possible(before, after, env, st) && ollama_answer(env, ollama) && rows == rows_of(
            st,
            opt_str_v(ollama),
        )
}

/// `/connect` from the connected screen: the provider list opens at the top, each row read
/// through `env` and `store`.
pub open spec fn connect_opened<S: CredentialStore, F: Fn(&str) -> Option<String>>(
    old: App,
    new: App,
    effects: Seq<Effect>,
    env: F,
    before: S,
    after: S,
) -> bool {
    &&& new == (App { modal: new.modal, ..old })
    &&& new.modal.current_v() matches Some(ModalV::Connect(ConnectStepV::ProviderList { rows, selected }))
        && selected == 0 && rows.map_values(|r: ProviderRowV| r.id) == provider_ids()
        && rows_readable(env, before, after, rows)
    &&& new.modal.nonce_v() == old.modal.nonce_v() + 1
    &&& new.modal.fetch_v() is None
    &&& effects == aborts(old.modal.fetch_v())
}

/// `/key`: the listing of every remote provider's key source, as read through `env` and
/// `store`, is logged.
pub open spec fn keys_listed<S: CredentialStore, F: Fn(&str) -> Option<String>>(
    old: App,
    new: App,
    env: F,
    before: S,
    after: S,
) -> bool {
    &&& new == (App { activity: new.activity, ..old })
    &&& new.activity == (Activity { log: new.activity.log, ..old.activity })
    &&& exists|st: Seq<KeyStatus>|
        #![trigger key_list_text(old.config.lang, st)]
        statuses_possible(before, after, env, st) && strs_v(new.activity.log@) == capped(
            strs_v(old.activity.log@).push(key_list_text(old.config.lang, st)),
        )
}

/// Whether the trimmed command `cmd` goes to the credential store: `/key` reads every remote
/// provider's key, `/key <provider> clear` removes one, and `/connect` (with a session) reads
/// the keys to mark the providers that have one.
pub open spec fn store_command(cmd: Seq<char>, connected: bool) -> bool {
    ||| {
        &&& ask_prompt(cmd) is None
        &&& !starts_with(cmd, "/ask"@)
        &&& !bare_command(cmd, "/connect"@)
        &&& !bare_command(cmd, "/models"@)
        &&& model_arg(cmd) is None
        &&& key_command(cmd) is Some
        &&& !(key_command(cmd)->0 is Store)
    }
    ||| connected && ask_prompt(cmd) is None && !starts_with(cmd, "/ask"@) && bare_command(
        cmd,
        "/connect"@,
    )
}

/// What running the command line's text does. The command is trimmed first and the error
/// line cleared; then `/ask <prompt>` asks the active provider, `/connect` and `/models`
/// open their modals, `/model <id>` pins a model, `/key` lists, enters or clears a key,
/// `/auth/login` and `/auth/logout` start device login or sign out, `/lang <code>` switches
/// the language, and anything else is named as unknown. The commands that need a session say
/// so when there is none.
pub open spec fn command_ran<S: CredentialStore, F: Fn(&str) -> Option<String>>(
    old: App,
    new: App,
    command: Seq<char>,
    effects: Seq<Effect>,
    env: F,
    before: S,
    after: S,
) -> bool {
    let cmd = trim(command);
    let base = App { error: None, ..old };
    let connected = old.mode == Mode::Connected;
    &&& !store_command(cmd, connected) ==> after == before
    &&& if ask_prompt(cmd) is Some {
        if connected {
            new == base && effects.len() == 1 && (effects[0] matches Effect::Ask { prompt }
                && prompt@ == ask_prompt(cmd)->0)
        } else {
            refused(base, new, "status.ask_not_connected"@) && effects.len() == 0
        }
    } else if starts_with(cmd, "/ask"@) {
        refused(base, new, "status.ask_empty"@) && effects.len() == 0
    } else if bare_command(cmd, "/connect"@) {
        if connected {
            connect_opened(base, new, effects, env, before, after)
        } else {
            refused(base, new, "status.connect_not_connected"@) && effects.len() == 0
        }
    } else if bare_command(cmd, "/models"@) {
        if connected {
            models_entered(base, new, effects)
        } else {
            refused(base, new, "status.models_not_connected"@) && effects.len() == 0
        }
    } else if model_arg(cmd) is Some {
        match model_arg(cmd)->0 {
            Some(id) => model_pinned(base, new, id, effects),
            None => refused(base, new, "status.model_empty"@) && effects.len() == 0,
        }
    } else if key_command(cmd) is Some {
        match key_command(cmd)->0 {
            KeyCommandV::List => keys_listed(base, new, env, before, after) && effects.len() == 0,
            KeyCommandV::Store(p) => key_entry_begun(base, new, p) && effects.len() == 0,
            KeyCommandV::Clear(p) => key_clear_handled(base, new, p, effects, before, after),
        }
    } else if cmd == "/auth/login"@ {
        device_requested(base, new, effects)
    } else if cmd == "/auth/logout"@ {
        signed_out(base, new, effects)
    } else if cmd.len() == 0 {
        new == base && effects.len() == 0
    } else if starts_with(cmd, "/lang "@) {
        lang_switched(base, new, trim(cmd.skip(6)), effects)
    } else {
        &&& new == (App { error: new.error, ..base })
        &&& new.error matches Some(m) && m@ == tw1(
            old.config.lang,
            "status.unknown_command"@,
            "command"@,
            cmd,
        )
        &&& effects.len() == 0
    }
}

/// What a key press does while the command line is active.
pub open spec fn command_key_handled<S: CredentialStore, F: Fn(&str) -> Option<String>>(
    old: App,
    new: App,
    key: KeyEvent,
    effects: Seq<Effect>,
    env: F,
    before: S,
    after: S,
) -> bool {
    let edited = |t: Seq<char>|
        new == (App { command: CommandLine { text: new.command.text, ..old.command }, ..old })
            && new.command.text@ == t && effects.len() == 0;
    let closed = App {
        command: CommandLine { active: false, text: new.command.text },
        ..old
    };
    &&& (is_ctrl_char(key, 'c') || key.code != KeyCode::Enter) ==> after == before
    &&& if is_ctrl_char(key, 'c') {
        new == old && effects == seq![Effect::Quit]
    } else {
        match key.code {
            KeyCode::Esc => new == closed && new.command.text@.len() == 0 && effects.len() == 0,
            KeyCode::Enter => new.command.text@.len() == 0 && command_ran(
                App { command: CommandLine { active: false, text: new.command.text }, ..old },
                new,
                old.command.text@,
                effects,
                env,
                before,
                after,
            ),
            KeyCode::Backspace => edited(pop_last(old.command.text@)),
            KeyCode::Char(c) => edited(old.command.text@.push(c)),
            _ => new == old && effects.len() == 0,
        }
    }
}

/// What a key press does on a plain screen: Ctrl+C quits; Esc steps back (see
/// [`App::escape`]); `/` opens the command line on the sign-in screens and the connected one;
/// on the connected screen `q` quits, `p` pings, `o` signs out and `e` starts the engine;
/// other characters, Backspace, Tab/Up/Down and Enter edit, move through and submit the
/// sign-in forms.
pub open spec fn screen_key_handled(old: App, new: App, key: KeyEvent, effects: Seq<Effect>) -> bool {
    let connected = old.mode == Mode::Connected;
    match key.code {
        KeyCode::Char(c) => if c == 'c' && key.modifiers.control {
            new == old && effects == seq![Effect::Quit]
        } else if c == '/' && (old.mode == Mode::SignIn || old.mode == Mode::Register || old.mode
            == Mode::RegisterCode || connected) {
            &&& new == (App {
                command: CommandLine { active: true, text: new.command.text },
                error: None,
                ..old
            })
            &&& new.command.text@ == seq!['/']
            &&& effects.len() == 0
        } else if c == 'q' && connected {
            new == old && effects == seq![Effect::Quit]
        } else if c == 'p' && connected {
            &&& !old.ws_connected ==> new == old && effects.len() == 0
            &&& old.ws_connected ==> {
                &&& new == (App { activity: new.activity, ..old })
                &&& new.activity.ping_nonce == old.activity.ping_nonce + 1
                &&& new.activity.pongs == old.activity.pongs
                &&& strs_v(new.activity.log@) == capped(
                    strs_v(old.activity.log@).push(
                        tw1(
                            old.config.lang,
                            "status.ping"@,
                            "nonce"@,
                            decimal((old.activity.ping_nonce + 1) as nat),
                        ),
                    ),
                )
                &&& effects.len() == 1
                &&& effects[0] matches Effect::SendPing { nonce } && nonce@ == decimal(
                    (old.activity.ping_nonce + 1) as nat,
                )
            }
        } else if c == 'o' && connected {
            signed_out(old, new, effects)
        } else if c == 'e' && connected {
            new == old && effects == seq![Effect::StartEngine]
        } else {
            &&& new == (App { form: new.form, error: None, ..old })
            &&& App::form_edited(
                old.form,
                new.form,
                App::typing_target(old.mode, old.form.focus),
                |s: Seq<char>| s.push(c),
            )
            &&& effects.len() == 0
        },
        KeyCode::Esc => escaped(old, new, effects),
        KeyCode::Backspace => {
            &&& new == (App { form: new.form, ..old })
            &&& App::form_edited(
                old.form,
                new.form,
                App::typing_target(old.mode, old.form.focus),
                |s: Seq<char>| pop_last(s),
            )
            &&& effects.len() == 0
        },
        KeyCode::Tab | KeyCode::Up | KeyCode::Down => {
            &&& new == (App {
                form: Form { focus: App::cycled_focus(old.mode, old.form.focus), ..old.form },
                ..old
            })
            &&& effects.len() == 0
        },
        KeyCode::Enter => submitted(old, new, effects),
        _ => new == old && effects.len() == 0,
    }
}

/// What Esc does on a plain screen: it quits from sign-in, steps back through registration,
/// and cancels a device login (bumping its nonce so a late poll result is ignored).
pub open spec fn escaped(old: App, new: App, effects: Seq<Effect>) -> bool {
    match old.mode {
        Mode::SignIn => new == old && effects == seq![Effect::Quit],
        Mode::Register => {
            &&& new == (App {
                mode: Mode::SignIn,
                form: Form { code: new.form.code, ..old.form },
                error: None,
                ..old
            })
            &&& new.form.code@.len() == 0
            &&& effects.len() == 0
        },
        Mode::RegisterCode => {
            &&& new == (App {
                mode: Mode::Register,
                form: Form { code: new.form.code, ..old.form },
                error: None,
                ..old
            })
            &&& new.form.code@.len() == 0
            &&& effects.len() == 0
        },
        Mode::Device => {
            &&& new == (App {
                device: DeviceLogin {
                    nonce: (old.device.nonce + 1) as u64,
                    user_code: None,
                    verification_uri: None,
                },
                mode: Mode::SignIn,
                status: new.status,
                error: None,
                ..old
            })
            &&& new.status@ == translated(old.config.lang, "status.device_cancelled"@)
            &&& effects.len() == 0
        },
        _ => new == old && effects.len() == 0,
    }
}


/// Running a command never touches the command line itself.
pub proof fn lemma_command_ran_keeps_command_line<S: CredentialStore, F: Fn(&str) -> Option<String>>(
    old: App,
    new: App,
    command: Seq<char>,
    effects: Seq<Effect>,
    env: F,
    before: S,
    after: S,
)
    requires
        command_ran(old, new, command, effects, env, before, after),
    ensures
        new.command == old.command,
{
}

impl App {
    /// The state a fresh client starts in: the sign-in screen, the email pre-filled when one
    /// was given, nothing else open.
    pub fn new(
        config: Config,
        provider_info: ProviderInfo,
        settings: Settings,
        prefilled_email: Option<String>,
    ) -> (r: App)
        ensures
            r.mode == Mode::SignIn,
            r.help_return == Mode::SignIn,
            r.form.focus == Focus::Email,
            r.form.email@ == (match prefilled_email {
                Some(e) => e@,
                None => Seq::<char>::empty(),
            }),
            r.form.name@.len() == 0,
            r.form.code@.len() == 0,
            r.form.setup_token is None && r.form.secret is None && r.form.otpauth_url is None,
            !r.command.active && r.command.text@.len() == 0,
            r.device.nonce == 0 && r.device.user_code is None
                && r.device.verification_uri is None,
            r.session is None,
            !r.ws_connected,
            r.config == config,
            r.provider_info == provider_info,
            r.settings == settings,
            r.staged is None,
            r.key_entry.target is None && r.key_entry.input@.len() == 0
                && r.key_entry.return_mode == Mode::SignIn,
            r.modal.current_v() is None && r.modal.nonce_v() == 0 && r.modal.fetch_v() is None,
            !r.engine.active && r.engine.log@.len() == 0 && r.engine.prompt@.len() == 0
                && r.engine.pending is None,
            r.error is None,
            r.status@ == translated(config.lang, "status.not_signed_in"@),
            r.activity.log@.len() == 0 && r.activity.ping_nonce == 0 && r.activity.pongs == 0,
    {
        proof {
            reveal_strlit("status.not_signed_in");
        }
        let status = tr(config.lang, "status.not_signed_in");
        let email = match prefilled_email {
            Some(e) => e,
            None => String::new(),
        };
        App {
            config,
            mode: Mode::SignIn,
            help_return: Mode::SignIn,
            form: Form {
                focus: Focus::Email,
                email,
                name: String::new(),
                code: String::new(),
                setup_token: None,
                secret: None,
                otpauth_url: None,
            },
            command: CommandLine { active: false, text: String::new() },
            device: DeviceLogin { nonce: 0, user_code: None, verification_uri: None },
            session: None,
            ws_connected: false,
            provider_info,
            settings,
            staged: None,
            key_entry: KeyEntry { target: None, input: String::new(), return_mode: Mode::SignIn },
            modal: ModalHost::new(),
            engine: EnginePane {
                active: false,
                log: Vec::new(),
                prompt: String::new(),
                pending: None,
            },
            error: None,
            status,
            activity: Activity { log: Vec::new(), ping_nonce: 0, pongs: 0 },
        }
    }

    /// Open the help screen over the current one, remembering where to return.
    pub fn open_help(&mut self)
        ensures
            *final(self) == (App { mode: Mode::Help, help_return: old(self).mode, ..*old(self) }),
    {
        self.help_return = self.mode;
        self.mode = Mode::Help;
    }

    /// Close the help screen, returning to the screen it was opened from.
    pub fn close_help(&mut self)
        ensures
            *final(self) == (App { mode: old(self).help_return, ..*old(self) }),
    {
        self.mode = self.help_return;
    }

    /// The form field that typing edits on the current screen, if any.
    pub open spec fn typing_target(mode: Mode, focus: Focus) -> Option<Focus> {
        match (mode, focus) {
            (Mode::SignIn, Focus::Email) => Some(Focus::Email),
            (Mode::SignIn, Focus::Code) => Some(Focus::Code),
            (Mode::Register, Focus::Email) => Some(Focus::Email),
            (Mode::Register, Focus::Name) => Some(Focus::Name),
            (Mode::RegisterCode, Focus::Code) => Some(Focus::Code),
            _ => None,
        }
    }

    /// The form after the field `target` (if any) was edited by `edit`.
    pub open spec fn form_edited(
        old_form: Form,
        new_form: Form,
        target: Option<Focus>,
        edit: spec_fn(Seq<char>) -> Seq<char>,
    ) -> bool {
        &&& new_form == (Form {
            email: new_form.email,
            name: new_form.name,
            code: new_form.code,
            ..old_form
        })
        &&& new_form.email@ == (if target == Some(Focus::Email) {
            edit(old_form.email@)
        } else {
            old_form.email@
        })
        &&& new_form.name@ == (if target == Some(Focus::Name) {
            edit(old_form.name@)
        } else {
            old_form.name@
        })
        &&& new_form.code@ == (if target == Some(Focus::Code) {
            edit(old_form.code@)
        } else {
            old_form.code@
        })
    }

    /// Type `c` into the focused field of a sign-in form; clears the error line.
    pub fn type_char(&mut self, c: char)
        ensures
            *final(self) == (App { form: final(self).form, error: None, ..*old(self) }),
            Self::form_edited(
                old(self).form,
                final(self).form,
                Self::typing_target(old(self).mode, old(self).form.focus),
                |s: Seq<char>| s.push(c),
            ),
    {
        self.error = None;
        match (self.mode, self.form.focus) {
            (Mode::SignIn, Focus::Email) | (Mode::Register, Focus::Email) => {
                string_push(&mut self.form.email, c);
            },
            (Mode::SignIn, Focus::Code) | (Mode::RegisterCode, Focus::Code) => {
                string_push(&mut self.form.code, c);
            },
            (Mode::Register, Focus::Name) => {
                string_push(&mut self.form.name, c);
            },
            _ => {},
        }
    }

    /// Delete the last character of the focused field of a sign-in form.
    pub fn backspace(&mut self)
        ensures
            *final(self) == (App { form: final(self).form, ..*old(self) }),
            Self::form_edited(
                old(self).form,
                final(self).form,
                Self::typing_target(old(self).mode, old(self).form.focus),
                |s: Seq<char>| pop_last(s),
            ),
    {
        match (self.mode, self.form.focus) {
            (Mode::SignIn, Focus::Email) | (Mode::Register, Focus::Email) => {
                self.form.email = pop_char(&self.form.email);
            },
            (Mode::SignIn, Focus::Code) | (Mode::RegisterCode, Focus::Code) => {
                self.form.code = pop_char(&self.form.code);
            },
            (Mode::Register, Focus::Name) => {
                self.form.name = pop_char(&self.form.name);
            },
            _ => {},
        }
    }

    /// The focus after Tab, Up or Down on `mode`'s form.
    pub open spec fn cycled_focus(mode: Mode, focus: Focus) -> Focus {
        match mode {
            Mode::SignIn => if focus == Focus::Email {
                Focus::Code
            } else {
                Focus::Email
            },
            Mode::Register => if focus == Focus::Email {
                Focus::Name
            } else {
                Focus::Email
            },
            Mode::RegisterCode => Focus::Code,
            _ => focus,
        }
    }

    /// Move the focus to the next field of the form on screen.
    pub fn cycle_focus(&mut self)
        ensures
            *final(self) == (App {
                form: Form {
                    focus: Self::cycled_focus(old(self).mode, old(self).form.focus),
                    ..old(self).form
                },
                ..*old(self)
            }),
    {
        let next = match self.mode {
            Mode::SignIn => match self.form.focus {
                Focus::Email => Focus::Code,
                _ => Focus::Email,
            },
            Mode::Register => match self.form.focus {
                Focus::Email => Focus::Name,
                _ => Focus::Email,
            },
            Mode::RegisterCode => Focus::Code,
            _ => self.form.focus,
        };
        self.form.focus = next;
    }

    /// Send a keepalive ping over an open WebSocket, logging it; nothing without one.
    pub fn ping(&mut self) -> (effects: Vec<Effect>)
        requires
            old(self).activity.ping_nonce < u64::MAX,
        ensures
            !old(self).ws_connected ==> *final(self) == *old(self) && effects@.len() == 0,
            old(self).ws_connected ==> {
                let n = decimal((old(self).activity.ping_nonce + 1) as nat);
                &&& *final(self) == (App { activity: final(self).activity, ..*old(self) })
                &&& final(self).activity == (Activity {
                    log: final(self).activity.log,
                    ping_nonce: (old(self).activity.ping_nonce + 1) as u64,
                    ..old(self).activity
                })
                &&& strs_v(final(self).activity.log@) == capped(
                    strs_v(old(self).activity.log@).push(
                        tw1(old(self).config.lang, "status.ping"@, "nonce"@, n),
                    ),
                )
                &&& effects@.len() == 1
                &&& effects@[0] matches Effect::SendPing { nonce } && nonce@ == n
            },
    {
        let mut effects: Vec<Effect> = Vec::new();
        if self.ws_connected {
            self.activity.ping_nonce = self.activity.ping_nonce + 1;
            let nonce = u64_text(self.activity.ping_nonce);
            proof {
                reveal_strlit("status.ping");
                reveal_strlit("nonce");
            }
            let line = t_with1(self.config.lang, "status.ping", "nonce", nonce.as_str());
            proof {
                lemma_capped_views(self.activity.log@, line);
            }
            self.push_log(line);
            effects.push(Effect::SendPing { nonce });
        }
        effects
    }

    /// One second of the clock: every [`KEEPALIVE_SECONDS`] ticks an open WebSocket is pinged.
    pub fn tick(&mut self, ticks: u64) -> (effects: Vec<Effect>)
        requires
            old(self).activity.ping_nonce < u64::MAX,
        ensures
            !(old(self).ws_connected && ticks % KEEPALIVE_SECONDS == 0) ==> *final(self) == *old(
                self,
            ) && effects@.len() == 0,
            old(self).ws_connected && ticks % KEEPALIVE_SECONDS == 0 ==> {
                &&& final(self).activity.ping_nonce == old(self).activity.ping_nonce + 1
                &&& effects@.len() == 1
                &&& effects@[0] is SendPing
            },
    {
        if self.ws_connected && ticks % KEEPALIVE_SECONDS == 0 {
            self.ping()
        } else {
            Vec::new()
        }
    }

    /// Take in a server message: log it; a closed WebSocket also signs out, dismissing any
    /// open modal, and shows why.
    pub fn handle_server(&mut self, msg: ServerMessage) -> (effects: Vec<Effect>)
        requires
            old(self).activity.pongs < u64::MAX,
            old(self).modal.nonce_v() < u64::MAX,
        ensures
            match msg {
                ServerMessage::Ready { email, display_name } => {
                    &&& *final(self) == (App { activity: final(self).activity, ..*old(self) })
                    &&& final(self).activity == (Activity {
                        log: final(self).activity.log,
                        ..old(self).activity
                    })
                    &&& strs_v(final(self).activity.log@) == capped(
                        strs_v(old(self).activity.log@).push(
                            tw2(
                                old(self).config.lang,
                                "status.ready"@,
                                "name"@,
                                display_name@,
                                "email"@,
                                email@,
                            ),
                        ),
                    )
                    &&& effects@.len() == 0
                },
                ServerMessage::Pong { nonce } => {
                    &&& *final(self) == (App { activity: final(self).activity, ..*old(self) })
                    &&& final(self).activity == (Activity {
                        log: final(self).activity.log,
                        pongs: (old(self).activity.pongs + 1) as u64,
                        ..old(self).activity
                    })
                    &&& strs_v(final(self).activity.log@) == capped(
                        strs_v(old(self).activity.log@).push(
                            tw1(old(self).config.lang, "status.pong"@, "nonce"@, nonce@),
                        ),
                    )
                    &&& effects@.len() == 0
                },
                ServerMessage::Error { code, message } => {
                    &&& strs_v(final(self).activity.log@) == capped(
                        strs_v(old(self).activity.log@).push(bracketed(code@, message@)),
                    )
                    &&& final(self).activity.ping_nonce == old(self).activity.ping_nonce
                    &&& final(self).activity.pongs == old(self).activity.pongs
                    &&& code@ != "ws_closed"@ ==> {
                        &&& *final(self) == (App { activity: final(self).activity, ..*old(self) })
                        &&& effects@.len() == 0
                    }
                    &&& code@ == "ws_closed"@ ==> {
                        let text = shown_error(old(self).config.lang, code@, message@);
                        &&& *final(self) == (App {
                            activity: final(self).activity,
                            modal: final(self).modal,
                            ws_connected: false,
                            session: None,
                            mode: Mode::SignIn,
                            form: Form { focus: Focus::Email, ..old(self).form },
                            status: final(self).status,
                            error: final(self).error,
                            ..*old(self)
                        })
                        &&& final(self).status@ == tw1(
                            old(self).config.lang,
                            "status.disconnected"@,
                            "reason"@,
                            text,
                        )
                        &&& final(self).error matches Some(e) && e@ == text
                        &&& final(self).modal.current_v() is None
                        &&& final(self).modal.nonce_v() == old(self).modal.nonce_v() + 1
                        &&& final(self).modal.fetch_v() is None
                        &&& effects@ == dismissal(old(self).modal.fetch_v())
                    }
                },
            },
    {
        let lang = self.config.lang;
        match msg {
            ServerMessage::Ready { email, display_name } => {
                proof {
                    reveal_strlit("status.ready");
                    reveal_strlit("name");
                    reveal_strlit("email");
                }
                let line = t_with2(
                    lang,
                    "status.ready",
                    "name",
                    display_name.as_str(),
                    "email",
                    email.as_str(),
                );
                proof {
                    lemma_capped_views(self.activity.log@, line);
                }
                self.push_log(line);
                Vec::new()
            },
            ServerMessage::Pong { nonce } => {
                self.activity.pongs = self.activity.pongs + 1;
                proof {
                    reveal_strlit("status.pong");
                    reveal_strlit("nonce");
                }
                let line = t_with1(lang, "status.pong", "nonce", nonce.as_str());
                proof {
                    lemma_capped_views(self.activity.log@, line);
                }
                self.push_log(line);
                Vec::new()
            },
            ServerMessage::Error { code, message } => {
                let line = bracketed_line(code.as_str(), message.as_str());
                proof {
                    lemma_capped_views(self.activity.log@, line);
                }
                self.push_log(line);
                proof {
                    reveal_strlit("ws_closed");
                }
                if crate::text::str_eq(code.as_str(), "ws_closed") {
                    let text = error_shown(lang, code.as_str(), message.as_str());
                    proof {
                        reveal_strlit("status.disconnected");
                        reveal_strlit("reason");
                    }
                    self.status = t_with1(lang, "status.disconnected", "reason", text.as_str());
                    self.ws_connected = false;
                    self.session = None;
                    self.mode = Mode::SignIn;
                    self.form.focus = Focus::Email;
                    self.error = Some(text);
                    let abandoned = self.modal.close();
                    let mut effects: Vec<Effect> = Vec::new();
                    effects.push(Effect::DropWs);
                    if let Some(n) = abandoned {
                        effects.push(Effect::AbortFetch { nonce: n });
                    }
                    assert(effects@ =~= dismissal(old(self).modal.fetch_v()));
                    effects
                } else {
                    Vec::new()
                }
            },
        }
    }

    /// Log the answer of an `/ask` completion, or its failure.
    pub fn completion_finished(&mut self, result: Result<String, String>)
        ensures
            *final(self) == (App { activity: final(self).activity, ..*old(self) }),
            final(self).activity == (Activity { log: final(self).activity.log, ..old(self).activity }),
            strs_v(final(self).activity.log@) == capped(
                strs_v(old(self).activity.log@).push(
                    match result {
                        Ok(text) => text@,
                        Err(e) => "[ask] "@ + e@,
                    },
                ),
            ),
    {
        let line = match result {
            Ok(text) => text,
            Err(e) => {
                proof {
                    reveal_strlit("[ask] ");
                }
                prefixed("[ask] ", e.as_str())
            },
        };
        proof {
            lemma_capped_views(self.activity.log@, line);
        }
        self.push_log(line);
    }

    /// Log an engine event, and hold its question when it waits on an answer.
    pub fn engine_event(&mut self, kind: EventKind)
        ensures
            *final(self) == (App { engine: final(self).engine, ..*old(self) }),
            final(self).engine.active == old(self).engine.active,
            final(self).engine.prompt == old(self).engine.prompt,
            strs_v(final(self).engine.log@) == capped(
                strs_v(old(self).engine.log@).push(described(old(self).config.lang, kind)),
            ),
            match prompt_for(old(self).config.lang, kind) {
                Some(q) => final(self).engine.pending matches Some(p) && p.prompt@ == q
                    && p.target == approval_target(kind),
                None => final(self).engine.pending == old(self).engine.pending,
            },
    {
        let lang = self.config.lang;
        let line = describe_event(lang, &kind);
        proof {
            lemma_capped_views(self.engine.log@, line);
        }
        push_capped(&mut self.engine.log, line);
        match pending_prompt(lang, &kind) {
            Some(prompt) => {
                let target = match &kind {
                    EventKind::PlanProposed { plan_id, .. } => ApprovalTarget::Plan {
                        plan_id: *plan_id,
                    },
                    EventKind::ApprovalRequest { request_id, .. } => ApprovalTarget::Action {
                        request_id: *request_id,
                    },
                    _ => {
                        assert(false);
                        ApprovalTarget::Plan { plan_id: 0 }
                    },
                };
                self.engine.pending = Some(Pending { target, prompt });
            },
            None => {},
        }
    }

    /// Log that the engine pane fell behind and `n` events were dropped.
    pub fn engine_dropped(&mut self, n: u64)
        ensures
            *final(self) == (App { engine: final(self).engine, ..*old(self) }),
            final(self).engine == (EnginePane { log: final(self).engine.log, ..old(self).engine }),
            strs_v(final(self).engine.log@) == capped(
                strs_v(old(self).engine.log@).push(
                    tw1(old(self).config.lang, "engine.dropped_events"@, "count"@, decimal(n as nat)),
                ),
            ),
    {
        let count = u64_text(n);
        proof {
            reveal_strlit("engine.dropped_events");
            reveal_strlit("count");
        }
        let line = t_with1(self.config.lang, "engine.dropped_events", "count", count.as_str());
        proof {
            lemma_capped_views(self.engine.log@, line);
        }
        push_capped(&mut self.engine.log, line);
    }

    /// The engine session started (or failed to): on success the pane opens with the provider's
    /// warnings and offline notice; on failure the error is shown and nothing else changes.
    pub fn engine_started(&mut self, result: Result<(), String>)
        ensures
            match result {
                Err(e) => *final(self) == (App { error: Some(e), ..*old(self) }),
                Ok(()) => {
                    &&& *final(self) == (App {
                        engine: final(self).engine,
                        mode: Mode::Engine,
                        status: final(self).status,
                        ..*old(self)
                    })
                    &&& final(self).engine.active
                    &&& final(self).engine.prompt@.len() == 0
                    &&& final(self).engine.pending is None
                    &&& strs_v(final(self).engine.log@) == strs_v(
                        old(self).provider_info.warnings@,
                    ) + match old(self).provider_info.offline {
                        Some(reason) => seq![notice(old(self).config.lang, reason)],
                        None => Seq::<Seq<char>>::empty(),
                    }
                    &&& final(self).status@ == translated(
                        old(self).config.lang,
                        "status.engine_started"@,
                    )
                },
            },
    {
        match result {
            Err(e) => {
                self.error = Some(e);
            },
            Ok(()) => {
                let mut log = copy_strings(&self.provider_info.warnings);
                match &self.provider_info.offline {
                    Some(reason) => {
                        log.push(offline_notice(self.config.lang, reason));
                    },
                    None => {},
                }
                proof {
                    reveal_strlit("status.engine_started");
                }
                self.engine = EnginePane {
                    active: true,
                    log,
                    prompt: String::new(),
                    pending: None,
                };
                self.mode = Mode::Engine;
                self.status = tr(self.config.lang, "status.engine_started");
                assert(strs_v(self.engine.log@) =~= strs_v(old(self).provider_info.warnings@)
                    + match old(self).provider_info.offline {
                    Some(reason) => seq![notice(old(self).config.lang, reason)],
                    None => Seq::<Seq<char>>::empty(),
                });
            },
        }
    }

    /// Leave the engine pane for the connected screen, stopping the session.
    pub fn leave_engine(&mut self) -> (effects: Vec<Effect>)
        ensures
            *final(self) == (App {
                engine: EnginePane {
                    active: false,
                    prompt: final(self).engine.prompt,
                    pending: None,
                    ..old(self).engine
                },
                mode: Mode::Connected,
                status: final(self).status,
                ..*old(self)
            }),
            final(self).engine.prompt@.len() == 0,
            final(self).status@ == (match old(self).session {
                Some(s) => tw1(old(self).config.lang, "status.connected_as"@, "email"@, s.email@),
                None => old(self).status@,
            }),
            effects@ == seq![Effect::StopEngine],
    {
        self.engine.active = false;
        self.engine.prompt = String::new();
        self.engine.pending = None;
        self.mode = Mode::Connected;
        match &self.session {
            Some(s) => {
                proof {
                    reveal_strlit("status.connected_as");
                    reveal_strlit("email");
                }
                self.status = t_with1(self.config.lang, "status.connected_as", "email", s.email.as_str());
            },
            None => {},
        }
        let mut effects: Vec<Effect> = Vec::new();
        effects.push(Effect::StopEngine);
        effects
    }

    /// Answer the engine's pending question: approve or deny the plan or action it names.
    pub fn engine_answer(&mut self, approved: bool) -> (effects: Vec<Effect>)
        ensures
            !old(self).engine.active || old(self).engine.pending is None ==> *final(self) == *old(
                self,
            ) && effects@.len() == 0,
            old(self).engine.active && old(self).engine.pending is Some ==> {
                &&& *final(self) == (App {
                    engine: EnginePane { pending: None, ..old(self).engine },
                    ..*old(self)
                })
                &&& effects@ == seq![
                    Effect::Engine {
                        command: answer_command(old(self).engine.pending->0.target, approved),
                    },
                ]
            },
    {
        let mut effects: Vec<Effect> = Vec::new();
        if !self.engine.active {
            return effects;
        }
        match &self.engine.pending {
            Some(p) => {
                let command = match p.target {
                    ApprovalTarget::Plan { plan_id } => EngineCommand::ApprovePlan {
                        plan_id,
                        approved,
                    },
                    ApprovalTarget::Action { request_id } => EngineCommand::ApproveAction {
                        request_id,
                        approved,
                    },
                };
                effects.push(Effect::Engine { command });
                self.engine.pending = None;
            },
            None => {},
        }
        effects
    }

    /// Send the typed prompt to the engine and log it; a blank prompt sends nothing.
    pub fn engine_send_prompt(&mut self) -> (effects: Vec<Effect>)
        ensures
            !old(self).engine.active || trim(old(self).engine.prompt@).len() == 0 ==> *final(self)
                == *old(self) && effects@.len() == 0,
            old(self).engine.active && trim(old(self).engine.prompt@).len() > 0 ==> {
                &&& *final(self) == (App {
                    engine: EnginePane {
                        log: final(self).engine.log,
                        prompt: final(self).engine.prompt,
                        ..old(self).engine
                    },
                    ..*old(self)
                })
                &&& final(self).engine.prompt@.len() == 0
                &&& strs_v(final(self).engine.log@) == strs_v(old(self).engine.log@).push(
                    "> "@ + trim(old(self).engine.prompt@),
                )
                &&& effects@.len() == 1
                &&& effects@[0] matches Effect::Engine { command: EngineCommand::SendPrompt { text } }
                    && text@ == trim(old(self).engine.prompt@)
            },
    {
        let text = trimmed(&self.engine.prompt);
        let mut effects: Vec<Effect> = Vec::new();
        if str_is_empty(text.as_str()) || !self.engine.active {
            return effects;
        }
        proof {
            reveal_strlit("> ");
        }
        let line = prefixed("> ", text.as_str());
        self.engine.log.push(line);
        assert(strs_v(self.engine.log@) =~= strs_v(old(self).engine.log@).push(
            "> "@ + trim(old(self).engine.prompt@),
        ));
        self.engine.prompt = String::new();
        effects.push(Effect::Engine { command: EngineCommand::SendPrompt { text } });
        effects
    }

    /// Whether `new` is `old` after entering the connected screen with `session`: the form
    /// is reset, the WebSocket is being opened.
    pub open spec fn entered(old: App, new: App, session: Session) -> bool {
        &&& new == (App {
            session: Some(session),
            mode: Mode::Connected,
            form: Form {
                focus: Focus::Code,
                code: new.form.code,
                name: new.form.name,
                setup_token: None,
                secret: None,
                otpauth_url: None,
                ..old.form
            },
            error: None,
            status: new.status,
            ..old
        })
        &&& new.form.code@.len() == 0
        &&& new.form.name@.len() == 0
        &&& new.status@ == translated(old.config.lang, "status.connecting"@)
    }

    /// Enter the connected screen with `session` and open the WebSocket.
    pub fn enter(&mut self, session: Session) -> (effects: Vec<Effect>)
        ensures
            Self::entered(*old(self), *final(self), session),
            effects@ == seq![Effect::ConnectWs { token: session.token }],
    {
        let token = session.token.clone();
        self.session = Some(session);
        self.mode = Mode::Connected;
        self.form.focus = Focus::Code;
        self.form.code = String::new();
        self.form.name = String::new();
        self.form.setup_token = None;
        self.form.secret = None;
        self.form.otpauth_url = None;
        self.error = None;
        proof {
            reveal_strlit("status.connecting");
        }
        self.status = tr(self.config.lang, "status.connecting");
        let mut effects: Vec<Effect> = Vec::new();
        effects.push(Effect::ConnectWs { token });
        effects
    }

    /// The WebSocket opened (or failed to) for the session just entered.
    pub fn ws_finished(&mut self, result: Result<(), String>)
        ensures
            old(self).session is None ==> *final(self) == *old(self),
            old(self).session is Some ==> match result {
                Ok(()) => {
                    &&& *final(self) == (App {
                        ws_connected: true,
                        status: final(self).status,
                        ..*old(self)
                    })
                    &&& final(self).status@ == tw1(
                        old(self).config.lang,
                        "status.connected_as"@,
                        "email"@,
                        old(self).session->0.email@,
                    )
                },
                Err(e) => {
                    &&& *final(self) == (App {
                        error: final(self).error,
                        status: final(self).status,
                        ..*old(self)
                    })
                    &&& final(self).error matches Some(m) && m@ == tw1(
                        old(self).config.lang,
                        "status.connect_failed"@,
                        "error"@,
                        e@,
                    )
                    &&& final(self).status@ == translated(old(self).config.lang, "status.ws_failed"@)
                },
            },
    {
        let lang = self.config.lang;
        let email = match &self.session {
            Some(s) => s.email.clone(),
            None => {
                return;
            },
        };
        match result {
            Ok(()) => {
                self.ws_connected = true;
                proof {
                    reveal_strlit("status.connected_as");
                    reveal_strlit("email");
                }
                self.status = t_with1(lang, "status.connected_as", "email", email.as_str());
            },
            Err(e) => {
                proof {
                    reveal_strlit("status.connect_failed");
                    reveal_strlit("error");
                    reveal_strlit("status.ws_failed");
                }
                self.error = Some(t_with1(lang, "status.connect_failed", "error", e.as_str()));
                self.status = tr(lang, "status.ws_failed");
            },
        }
    }

    /// A sign-in or registration confirmation came back: a session is saved and entered; an
    /// error is shown.
    pub fn auth_finished(&mut self, result: Result<Session, ApiError>) -> (effects: Vec<Effect>)
        ensures
            match result {
                Ok(session) => {
                    &&& Self::entered(*old(self), *final(self), session)
                    &&& effects@ == seq![
                        Effect::SaveSession { session },
                        Effect::ConnectWs { token: session.token },
                    ]
                },
                Err(e) => {
                    &&& *final(self) == (App { error: final(self).error, ..*old(self) })
                    &&& final(self).error matches Some(m) && m@ == shown_error(
                        old(self).config.lang,
                        e.code@,
                        e.message@,
                    )
                    &&& effects@.len() == 0
                },
            },
    {
        match result {
            Ok(session) => {
                let mut effects: Vec<Effect> = Vec::new();
                effects.push(Effect::SaveSession { session: session.copy() });
                let mut rest = self.enter(session);
                effects.append(&mut rest);
                effects
            },
            Err(e) => {
                self.error = Some(error_shown(self.config.lang, e.code.as_str(), e.message.as_str()));
                Vec::new()
            },
        }
    }

    /// A new account was created (or not): on success the screen asks for its first code.
    pub fn register_finished(&mut self, result: Result<Registration, ApiError>)
        ensures
            match result {
                Ok(reg) => {
                    &&& *final(self) == (App {
                        mode: Mode::RegisterCode,
                        form: Form {
                            focus: Focus::Code,
                            code: final(self).form.code,
                            setup_token: Some(reg.setup_token),
                            secret: Some(reg.secret),
                            otpauth_url: Some(reg.otpauth_url),
                            ..old(self).form
                        },
                        status: final(self).status,
                        ..*old(self)
                    })
                    &&& final(self).form.code@.len() == 0
                    &&& final(self).status@ == translated(
                        old(self).config.lang,
                        "status.scan_confirm"@,
                    )
                },
                Err(e) => {
                    &&& *final(self) == (App { error: final(self).error, ..*old(self) })
                    &&& final(self).error matches Some(m) && m@ == shown_error(
                        old(self).config.lang,
                        e.code@,
                        e.message@,
                    )
                },
            },
    {
        match result {
            Ok(reg) => {
                self.form.setup_token = Some(reg.setup_token);
                self.form.secret = Some(reg.secret);
                self.form.otpauth_url = Some(reg.otpauth_url);
                self.mode = Mode::RegisterCode;
                self.form.focus = Focus::Code;
                self.form.code = String::new();
                proof {
                    reveal_strlit("status.scan_confirm");
                }
                self.status = tr(self.config.lang, "status.scan_confirm");
            },
            Err(e) => {
                self.error = Some(error_shown(self.config.lang, e.code.as_str(), e.message.as_str()));
            },
        }
    }

    /// Enter on a sign-in form: advance to the next field, or send the form when it is
    /// complete, naming the missing field otherwise.
    pub fn submit(&mut self) -> (effects: Vec<Effect>)
        ensures
            submitted(*old(self), *final(self), effects@),
    {
        let lang = self.config.lang;
        self.error = None;
        let email_empty = str_is_empty(self.form.email.as_str());
        let code_empty = str_is_empty(self.form.code.as_str());
        proof {
            reveal_strlit("status.email_required");
            reveal_strlit("status.code_required");
            reveal_strlit("status.signing_in");
            reveal_strlit("status.creating_account");
            reveal_strlit("status.confirming");
        }
        let mut effects: Vec<Effect> = Vec::new();
        match (self.mode, self.form.focus) {
            (Mode::SignIn, Focus::Email) => {
                if !email_empty {
                    self.form.focus = Focus::Code;
                }
            },
            (Mode::SignIn, Focus::Code) => {
                if email_empty {
                    self.error = Some(tr(lang, "status.email_required"));
                } else if code_empty {
                    self.error = Some(tr(lang, "status.code_required"));
                } else {
                    self.status = tr(lang, "status.signing_in");
                    effects.push(
                        Effect::Login { email: self.form.email.clone(), code: self.form.code.clone() },
                    );
                }
            },
            (Mode::Register, Focus::Email) => {
                if email_empty {
                    self.error = Some(tr(lang, "status.email_required"));
                } else {
                    self.form.focus = Focus::Name;
                }
            },
            (Mode::Register, Focus::Name) => {
                if email_empty {
                    self.error = Some(tr(lang, "status.email_required"));
                } else {
                    self.status = tr(lang, "status.creating_account");
                    effects.push(
                        Effect::Register { email: self.form.email.clone(), name: self.form.name.clone() },
                    );
                }
            },
            (Mode::RegisterCode, _) => {
                if code_empty {
                    self.error = Some(tr(lang, "status.code_required"));
                } else {
                    let setup_token = match &self.form.setup_token {
                        Some(t) => t.clone(),
                        None => String::new(),
                    };
                    self.status = tr(lang, "status.confirming");
                    effects.push(
                        Effect::ConfirmRegistration { setup_token, code: self.form.code.clone() },
                    );
                }
            },
            _ => {},
        }
        effects
    }

    /// Begin the browser-based device login.
    pub fn start_device_login(&mut self) -> (effects: Vec<Effect>)
        ensures
            device_requested(*old(self), *final(self), effects@),
    {
        proof {
            reveal_strlit("status.requesting_device_code");
        }
        self.status = tr(self.config.lang, "status.requesting_device_code");
        let mut effects: Vec<Effect> = Vec::new();
        effects.push(Effect::RequestDeviceCode);
        effects
    }

    /// The device grant started (or not): show its code and URL, open the browser and poll.
    pub fn device_started(&mut self, result: Result<DeviceGrant, ApiError>) -> (effects: Vec<
        Effect,
    >)
        requires
            old(self).device.nonce < u64::MAX,
        ensures
            match result {
                Ok(g) => {
                    &&& *final(self) == (App {
                        device: DeviceLogin {
                            nonce: (old(self).device.nonce + 1) as u64,
                            user_code: Some(g.user_code),
                            verification_uri: Some(g.verification_uri),
                        },
                        mode: Mode::Device,
                        status: final(self).status,
                        ..*old(self)
                    })
                    &&& final(self).status@ == translated(
                        old(self).config.lang,
                        "status.waiting_approval"@,
                    )
                    &&& effects@ == seq![
                        Effect::OpenBrowser { url: g.verification_uri_complete },
                        Effect::PollDevice {
                            nonce: (old(self).device.nonce + 1) as u64,
                            device_code: g.device_code,
                            interval_secs: if g.interval < 1 {
                                1
                            } else {
                                g.interval
                            },
                        },
                    ]
                },
                Err(e) => {
                    &&& *final(self) == (App {
                        error: final(self).error,
                        status: final(self).status,
                        ..*old(self)
                    })
                    &&& final(self).error matches Some(m) && m@ == shown_error(
                        old(self).config.lang,
                        e.code@,
                        e.message@,
                    )
                    &&& final(self).status@ == translated(
                        old(self).config.lang,
                        "status.device_failed"@,
                    )
                    &&& effects@.len() == 0
                },
            },
    {
        let lang = self.config.lang;
        proof {
            reveal_strlit("status.waiting_approval");
            reveal_strlit("status.device_failed");
        }
        match result {
            Ok(g) => {
                let interval_secs = poll_interval(&g);
                self.device.nonce = self.device.nonce + 1;
                self.device.user_code = Some(g.user_code);
                self.device.verification_uri = Some(g.verification_uri);
                self.mode = Mode::Device;
                self.status = tr(lang, "status.waiting_approval");
                let mut effects: Vec<Effect> = Vec::new();
                effects.push(Effect::OpenBrowser { url: g.verification_uri_complete });
                effects.push(
                    Effect::PollDevice {
                        nonce: self.device.nonce,
                        device_code: g.device_code,
                        interval_secs,
                    },
                );
                effects
            },
            Err(e) => {
                self.error = Some(error_shown(lang, e.code.as_str(), e.message.as_str()));
                self.status = tr(lang, "status.device_failed");
                Vec::new()
            },
        }
    }

    /// The device grant resolved: a grant from the current login enters the session, an error
    /// returns to sign-in; a result from a cancelled or replaced login is ignored.
    pub fn device_finished(&mut self, nonce: u64, result: Result<Session, ApiError>) -> (effects:
        Vec<Effect>)
        ensures
            nonce != old(self).device.nonce ==> *final(self) == *old(self) && effects@.len() == 0,
            nonce == old(self).device.nonce ==> {
                let cleared = App {
                    device: DeviceLogin {
                        user_code: None,
                        verification_uri: None,
                        ..old(self).device
                    },
                    ..*old(self)
                };
                match result {
                    Ok(session) => {
                        &&& Self::entered(cleared, *final(self), session)
                        &&& effects@ == seq![
                            Effect::SaveSession { session },
                            Effect::ConnectWs { token: session.token },
                        ]
                    },
                    Err(e) => {
                        &&& *final(self) == (App {
                            mode: Mode::SignIn,
                            error: final(self).error,
                            status: final(self).status,
                            ..cleared
                        })
                        &&& final(self).error matches Some(m) && m@ == shown_error(
                            old(self).config.lang,
                            e.code@,
                            e.message@,
                        )
                        &&& final(self).status@ == translated(
                            old(self).config.lang,
                            "status.device_failed"@,
                        )
                        &&& effects@.len() == 0
                    },
                }
            },
    {
        if nonce != self.device.nonce {
            return Vec::new();
        }
        self.device.user_code = None;
        self.device.verification_uri = None;
        match result {
            Ok(session) => self.auth_finished(Ok(session)),
            Err(e) => {
                self.mode = Mode::SignIn;
                self.error = Some(error_shown(self.config.lang, e.code.as_str(), e.message.as_str()));
                proof {
                    reveal_strlit("status.device_failed");
                }
                self.status = tr(self.config.lang, "status.device_failed");
                Vec::new()
            },
        }
    }

    /// Start the client: check a saved session with the server, or go straight to device
    /// login when there is none.
    pub fn resume(&mut self, saved: Option<Session>) -> (effects: Vec<Effect>)
        ensures
            match saved {
                Some(s) => *final(self) == *old(self) && effects@ == seq![
                    Effect::CheckSession { session: s },
                ],
                None => {
                    &&& *final(self) == (App { status: final(self).status, ..*old(self) })
                    &&& final(self).status@ == translated(
                        old(self).config.lang,
                        "status.requesting_device_code"@,
                    )
                    &&& effects@ == seq![Effect::RequestDeviceCode]
                },
            },
    {
        match saved {
            Some(s) => {
                let mut effects: Vec<Effect> = Vec::new();
                effects.push(Effect::CheckSession { session: s });
                effects
            },
            None => self.start_device_login(),
        }
    }

    /// The server answered whether a saved session is still valid: a valid one is entered; an
    /// invalid one is removed and device login begins.
    pub fn session_checked(&mut self, session: Session, valid: bool) -> (effects: Vec<Effect>)
        ensures
            valid ==> Self::entered(*old(self), *final(self), session) && effects@ == seq![
                Effect::ConnectWs { token: session.token },
            ],
            !valid ==> {
                &&& *final(self) == (App { status: final(self).status, ..*old(self) })
                &&& final(self).status@ == translated(
                    old(self).config.lang,
                    "status.requesting_device_code"@,
                )
                &&& effects@ == seq![Effect::ClearSession, Effect::RequestDeviceCode]
            },
    {
        if valid {
            self.enter(session)
        } else {
            let mut effects: Vec<Effect> = Vec::new();
            effects.push(Effect::ClearSession);
            let mut rest = self.start_device_login();
            effects.append(&mut rest);
            effects
        }
    }

    /// Sign out: revoke the token, remove the saved session, close the socket and any modal,
    /// and return to the sign-in screen with the activity log cleared.
    pub fn sign_out(&mut self) -> (effects: Vec<Effect>)
        requires
            old(self).modal.nonce_v() < u64::MAX,
        ensures
            signed_out(*old(self), *final(self), effects@),
    {
        let mut effects: Vec<Effect> = Vec::new();
        match &self.session {
            Some(s) => {
                effects.push(Effect::Logout { token: s.token.clone() });
            },
            None => {},
        }
        effects.push(Effect::ClearSession);
        effects.push(Effect::DropWs);
        self.session = None;
        self.ws_connected = false;
        self.mode = Mode::SignIn;
        self.form.focus = Focus::Email;
        let abandoned = self.modal.close();
        if let Some(n) = abandoned {
            effects.push(Effect::AbortFetch { nonce: n });
        }
        self.form.code = String::new();
        self.activity.log = Vec::new();
        self.activity.pongs = 0;
        proof {
            reveal_strlit("status.signed_out");
        }
        self.status = tr(self.config.lang, "status.signed_out");
        self.error = None;
        assert(effects@ =~= signed_out_effects(old(self).session, old(self).modal.fetch_v()));
        effects
    }

    /// Esc on a screen without a modal: leave sign-in (quit), step back through registration,
    /// or cancel a device login.
    pub fn escape(&mut self) -> (effects: Vec<Effect>)
        requires
            old(self).device.nonce < u64::MAX,
        ensures
            escaped(*old(self), *final(self), effects@),
    {
        let mut effects: Vec<Effect> = Vec::new();
        match self.mode {
            Mode::SignIn => {
                effects.push(Effect::Quit);
            },
            Mode::Register => {
                self.mode = Mode::SignIn;
                self.form.code = String::new();
                self.error = None;
            },
            Mode::RegisterCode => {
                self.mode = Mode::Register;
                self.form.code = String::new();
                self.error = None;
            },
            Mode::Device => {
                self.device.nonce = self.device.nonce + 1;
                self.device.user_code = None;
                self.device.verification_uri = None;
                self.mode = Mode::SignIn;
                proof {
                    reveal_strlit("status.device_cancelled");
                }
                self.status = tr(self.config.lang, "status.device_cancelled");
                self.error = None;
            },
            _ => {},
        }
        effects
    }

    /// Pin `model` to `provider` in the settings and hand them to the terminal layer to write,
    /// remembering what to restore if the write fails. `previous_provider` is the preferred
    /// provider to restore when this change also adopted `provider`.
    pub fn persist_model(
        &mut self,
        provider: String,
        model: String,
        previous_provider: Option<Option<String>>,
    ) -> (effects: Vec<Effect>)
        ensures
            *final(self) == (App {
                settings: Settings { models: final(self).settings.models, ..old(self).settings },
                staged: final(self).staged,
                ..*old(self)
            }),
            final(self).settings.models@ == old(self).settings.models@.insert(provider@, model@),
            final(self).staged matches Some(StagedSave::Model { provider: p, model: m, previous, previous_provider: pp })
                && p == provider && m == model && pp == previous_provider && opt_str_v(previous)
                == map_get(old(self).settings.models@, provider@),
            effects@ == seq![Effect::SaveSettings { settings_lang: old(self).settings.lang }],
    {
        let previous = self.settings.models.insert(provider.clone(), model.clone());
        self.staged = Some(StagedSave::Model { provider, model, previous, previous_provider });
        let mut effects: Vec<Effect> = Vec::new();
        effects.push(Effect::SaveSettings { settings_lang: self.settings.lang.clone() });
        effects
    }

    /// The settings write finished. On success a model change takes effect (the provider is
    /// rebuilt) and a language change is confirmed; on failure the error is shown and the staged
    /// change is rolled back, so a later unrelated write cannot resurrect it.
    pub fn settings_saved(&mut self, result: Result<(), String>) -> (effects: Vec<Effect>)
        ensures
            saved_settings(*old(self), *final(self), result, effects@),
    {
        let staged = self.staged.take();
        let mut effects: Vec<Effect> = Vec::new();
        match staged {
            None => {},
            Some(StagedSave::Model { provider, model, previous, previous_provider }) => {
                match result {
                    Ok(()) => {
                        effects.push(Effect::RebuildProvider);
                        proof {
                            reveal_strlit("status.model_set");
                            reveal_strlit("model");
                        }
                        self.status = t_with1(self.config.lang, "status.model_set", "model", model.as_str());
                    },
                    Err(e) => {
                        proof {
                            reveal_strlit("status.settings_save_failed");
                            reveal_strlit("error");
                        }
                        self.error = Some(
                            t_with1(self.config.lang, "status.settings_save_failed", "error", e.as_str()),
                        );
                        match previous {
                            Some(old_model) => {
                                self.settings.models.insert(provider, old_model);
                            },
                            None => {
                                self.settings.models.remove(provider.as_str());
                            },
                        }
                        match previous_provider {
                            Some(pp) => {
                                self.settings.provider = pp;
                            },
                            None => {},
                        }
                    },
                }
            },
            Some(StagedSave::Lang { lang, previous_lang, previous_saved }) => {
                match result {
                    Ok(()) => {
                        proof {
                            reveal_strlit("status.lang_set");
                            reveal_strlit("lang");
                        }
                        self.status = t_with1(self.config.lang, "status.lang_set", "lang", lang.as_str());
                    },
                    Err(e) => {
                        proof {
                            reveal_strlit("status.settings_save_failed");
                            reveal_strlit("error");
                        }
                        self.error = Some(
                            t_with1(self.config.lang, "status.settings_save_failed", "error", e.as_str()),
                        );
                        self.config.lang = previous_lang;
                        self.settings.lang = previous_saved;
                    },
                }
            },
        }
        effects
    }

    /// The active provider was rebuilt; show its record.
    pub fn provider_rebuilt(&mut self, info: ProviderInfo)
        ensures
            *final(self) == (App { provider_info: info, ..*old(self) }),
    {
        self.provider_info = info;
    }

    /// `/model <id>`: pin the model of the active provider, if it is one that takes a model.
    pub fn set_model(&mut self, model: &str) -> (effects: Vec<Effect>)
        ensures
            model_pinned(*old(self), *final(self), model@, effects@),
    {
        if !is_valid_provider(self.provider_info.id.as_str()) {
            proof {
                reveal_strlit("status.model_unsupported");
            }
            self.error = Some(tr(self.config.lang, "status.model_unsupported"));
            return Vec::new();
        }
        let active = self.provider_info.id.clone();
        self.persist_model(active, string_of(&chars_of(model)), None)
    }

    /// `/lang <code>`: switch the interface language and write it to the settings; an unknown
    /// language is refused.
    pub fn set_lang(&mut self, arg: &str) -> (effects: Vec<Effect>)
        ensures
            lang_switched(*old(self), *final(self), arg@, effects@),
    {
        match Locale::parse(arg) {
            Some(locale) => {
                let previous_lang = self.config.lang;
                let code = string_of(&chars_of(locale.as_str()));
                let previous_saved = self.settings.lang.clone();
                self.settings.lang = code;
                self.config.lang = locale;
                self.staged = Some(StagedSave::Lang { lang: locale, previous_lang, previous_saved });
                let mut effects: Vec<Effect> = Vec::new();
                effects.push(Effect::SaveSettings { settings_lang: self.settings.lang.clone() });
                effects
            },
            None => {
                proof {
                    reveal_strlit("status.lang_invalid");
                }
                self.error = Some(tr(self.config.lang, "status.lang_invalid"));
                Vec::new()
            },
        }
    }

    /// `/key <provider>`: open the key entry screen for a provider that takes a key.
    pub fn begin_key_entry(&mut self, provider: String)
        ensures
            key_entry_begun(*old(self), *final(self), provider@),
    {
        if !takes_key(provider.as_str()) {
            proof {
                reveal_strlit("status.key_unsupported");
                reveal_strlit("provider");
            }
            self.error = Some(
                t_with1(self.config.lang, "status.key_unsupported", "provider", provider.as_str()),
            );
            return;
        }
        self.key_entry = KeyEntry { target: Some(provider), input: String::new(), return_mode: self.mode };
        self.mode = Mode::Key;
    }

    /// Leave the key entry screen without saving anything.
    pub fn cancel_key_entry(&mut self)
        ensures
            *final(self) == (App {
                key_entry: KeyEntry {
                    target: None,
                    input: final(self).key_entry.input,
                    ..old(self).key_entry
                },
                mode: old(self).key_entry.return_mode,
                ..*old(self)
            }),
            final(self).key_entry.input@.len() == 0,
    {
        self.key_entry.target = None;
        self.key_entry.input = String::new();
        self.mode = self.key_entry.return_mode;
    }

    /// The credential store answered a write of `provider`'s key: on success the provider is
    /// rebuilt and the save confirmed; on failure the store's reason is shown.
    pub fn key_store_finished(&mut self, provider: &str, result: Result<(), StoreError>) -> (effects:
        Vec<Effect>)
        ensures
            match result {
                Ok(()) => {
                    &&& *final(self) == (App { status: final(self).status, ..*old(self) })
                    &&& final(self).status@ == tw1(
                        old(self).config.lang,
                        "status.key_set"@,
                        "provider"@,
                        provider@,
                    )
                    &&& effects@ == seq![Effect::RebuildProvider]
                },
                Err(e) => {
                    &&& *final(self) == (App { error: final(self).error, ..*old(self) })
                    &&& final(self).error matches Some(m) && m@ == key_failed_text(
                        old(self).config.lang,
                        provider@,
                        e.message@,
                    )
                    &&& effects@.len() == 0
                },
            },
    {
        self.key_result(provider, result, false)
    }

    /// The credential store answered a removal of `provider`'s key.
    pub fn key_clear_finished(&mut self, provider: &str, result: Result<(), StoreError>) -> (effects:
        Vec<Effect>)
        ensures
            match result {
                Ok(()) => {
                    &&& *final(self) == (App { status: final(self).status, ..*old(self) })
                    &&& final(self).status@ == tw1(
                        old(self).config.lang,
                        "status.key_cleared"@,
                        "provider"@,
                        provider@,
                    )
                    &&& effects@ == seq![Effect::RebuildProvider]
                },
                Err(e) => {
                    &&& *final(self) == (App { error: final(self).error, ..*old(self) })
                    &&& final(self).error matches Some(m) && m@ == key_failed_text(
                        old(self).config.lang,
                        provider@,
                        e.message@,
                    )
                    &&& effects@.len() == 0
                },
            },
    {
        self.key_result(provider, result, true)
    }

    fn key_result(&mut self, provider: &str, result: Result<(), StoreError>, cleared: bool) -> (effects:
        Vec<Effect>)
        ensures
            match result {
                Ok(()) => {
                    &&& *final(self) == (App { status: final(self).status, ..*old(self) })
                    &&& final(self).status@ == tw1(
                        old(self).config.lang,
                        if cleared {
                            "status.key_cleared"@
                        } else {
                            "status.key_set"@
                        },
                        "provider"@,
                        provider@,
                    )
                    &&& effects@ == seq![Effect::RebuildProvider]
                },
                Err(e) => {
                    &&& *final(self) == (App { error: final(self).error, ..*old(self) })
                    &&& final(self).error matches Some(m) && m@ == key_failed_text(
                        old(self).config.lang,
                        provider@,
                        e.message@,
                    )
                    &&& effects@.len() == 0
                },
            },
    {
        let lang = self.config.lang;
        proof {
            reveal_strlit("status.key_set");
            reveal_strlit("status.key_cleared");
            reveal_strlit("status.key_failed");
            reveal_strlit("provider");
            reveal_strlit("error");
        }
        match result {
            Ok(()) => {
                self.status = if cleared {
                    t_with1(lang, "status.key_cleared", "provider", provider)
                } else {
                    t_with1(lang, "status.key_set", "provider", provider)
                };
                let mut effects: Vec<Effect> = Vec::new();
                effects.push(Effect::RebuildProvider);
                effects
            },
            Err(e) => {
                self.error = Some(
                    t_with2(lang, "status.key_failed", "provider", provider, "error", e.message.as_str()),
                );
                Vec::new()
            },
        }
    }

    /// Enter on the key entry screen: leave it, and save a non-blank trimmed key for its
    /// provider in the credential store.
    pub fn submit_key_entry<S: CredentialStore>(&mut self, store: &mut S) -> (effects: Vec<Effect>)
        ensures
            old(self).key_entry.target is None ==> {
                &&& *final(self) == (App { mode: old(self).key_entry.return_mode, ..*old(self) })
                &&& effects@.len() == 0
                &&& *final(store) == *old(store)
            },
            old(self).key_entry.target matches Some(p) ==> {
                let left = App {
                    key_entry: KeyEntry {
                        target: None,
                        input: final(self).key_entry.input,
                        ..old(self).key_entry
                    },
                    mode: old(self).key_entry.return_mode,
                    ..*old(self)
                };
                &&& final(self).key_entry.input@.len() == 0
                &&& trim(old(self).key_entry.input@).len() == 0 ==> {
                    &&& *final(store) == *old(store)
                    &&& *final(self) == (App { status: final(self).status, ..left })
                    &&& final(self).status@ == translated(old(self).config.lang, "status.key_empty"@)
                    &&& effects@.len() == 0
                }
                &&& trim(old(self).key_entry.input@).len() > 0 ==> key_saved(
                    left,
                    *final(self),
                    p@,
                    trim(old(self).key_entry.input@),
                    effects@,
                    *old(store),
                    *final(store),
                )
            },
    {
        let provider = match &self.key_entry.target {
            Some(p) => p.clone(),
            None => {
                self.mode = self.key_entry.return_mode;
                return Vec::new();
            },
        };
        let key = trimmed(&self.key_entry.input);
        self.key_entry.target = None;
        self.key_entry.input = String::new();
        self.mode = self.key_entry.return_mode;
        if str_is_empty(key.as_str()) {
            proof {
                reveal_strlit("status.key_empty");
            }
            self.status = tr(self.config.lang, "status.key_empty");
            return Vec::new();
        }
        let result = store.set(provider.as_str(), key.as_str());
        self.key_store_finished(provider.as_str(), result)
    }

    /// `/key <provider> clear`: remove a provider's key from the credential store.
    pub fn clear_key<S: CredentialStore>(&mut self, provider: &str, store: &mut S) -> (effects: Vec<
        Effect,
    >)
        ensures
            key_clear_handled(*old(self), *final(self), provider@, effects@, *old(store), *final(store)),
    {
        if !takes_key(provider) {
            proof {
                reveal_strlit("status.key_unsupported");
                reveal_strlit("provider");
            }
            self.error = Some(t_with1(self.config.lang, "status.key_unsupported", "provider", provider));
            return Vec::new();
        }
        let result = store.delete(provider);
        self.key_clear_finished(provider, result)
    }

    /// `/key`: log where each remote provider's key comes from, given each one's status in
    /// key-precedence order.
    pub fn list_keys(&mut self, statuses: &Vec<KeyStatus>)
        requires
            statuses@.len() == 4,
        ensures
            *final(self) == (App { activity: final(self).activity, ..*old(self) }),
            final(self).activity == (Activity { log: final(self).activity.log, ..old(self).activity }),
            strs_v(final(self).activity.log@) == capped(
                strs_v(old(self).activity.log@).push(key_list_text(old(self).config.lang, statuses@)),
            ),
    {
        let lang = self.config.lang;
        let ids = remote_ids();
        let mut parts: Vec<String> = Vec::new();
        let mut i: usize = 0;
        assert(ids@.map_values(|s: &str| s@).len() == 4);
        while i < 4
            invariant
                i <= 4,
                ids@.len() == 4,
                statuses@.len() == 4,
                ids@.map_values(|s: &str| s@) == remote_id_list(),
                strs_v(parts@) == key_parts(lang, statuses@).take(i as int),
            decreases 4 - i,
        {
            let id = ids[i];
            assert(ids@.map_values(|s: &str| s@)[i as int] == id@);
            let label = status_label(lang, statuses[i]);
            let mut v = chars_of(id);
            proof {
                reveal_strlit(": ");
            }
            extend_chars(&mut v, &chars_of(": "));
            extend_chars(&mut v, &chars_of(label));
            assert(remote_id_list()[i as int] == id@);
            assert(v@ =~= key_parts(lang, statuses@)[i as int]);
            let ghost before = parts@;
            let part = string_of(&v);
            parts.push(part);
            assert(strs_v(parts@) =~= strs_v(before).push(part@));
            assert(key_parts(lang, statuses@).take(i + 1) =~= key_parts(lang, statuses@).take(
                i as int,
            ).push(key_parts(lang, statuses@)[i as int]));
            i = i + 1;
        }
        assert(key_parts(lang, statuses@).take(4) =~= key_parts(lang, statuses@));
        let list = join_comma(&parts);
        proof {
            reveal_strlit("key.list");
            reveal_strlit("list");
        }
        let line = t_with1(lang, "key.list", "list", list.as_str());
        proof {
            lemma_capped_views(self.activity.log@, line);
        }
        self.push_log(line);
    }

    /// Claim a nonce for a new model-list fetch of `provider` and start it, cancelling any
    /// earlier one. `key` is a just-typed key that wins over the stored one.
    pub fn begin_model_fetch(&mut self, provider: String, key: Option<String>, sink: FetchSink) -> (effects:
        Vec<Effect>)
        requires
            old(self).modal.nonce_v() < u64::MAX,
        ensures
            *final(self) == (App { modal: final(self).modal, ..*old(self) }),
            final(self).modal.current_v() == old(self).modal.current_v(),
            final(self).modal.nonce_v() == old(self).modal.nonce_v() + 1,
            final(self).modal.fetch_v() == Some(final(self).modal.nonce_v()),
            effects@ == aborts(old(self).modal.fetch_v()) + seq![
                Effect::FetchModels { nonce: final(self).modal.nonce_v(), provider, key, sink },
            ],
    {
        let (nonce, abandoned) = self.modal.next_fetch_nonce();
        self.modal.track_fetch(nonce);
        let mut effects = abort_effects(abandoned);
        effects.push(Effect::FetchModels { nonce, provider, key, sink });
        effects
    }

    /// Open `modal`, replacing whatever was open, and start its model-list fetch when it is
    /// waiting on one.
    pub fn open_modal(&mut self, modal: Modal) -> (effects: Vec<Effect>)
        requires
            old(self).modal.nonce_v() < u64::MAX - 1,
        ensures
            *final(self) == (App { modal: final(self).modal, ..*old(self) }),
            final(self).modal.current_v() == Some(modal@),
            opened(old(self).modal.nonce_v(), old(self).modal.fetch_v(), fetch_target_of(modal@),
                None, final(self).modal.nonce_v(), final(self).modal.fetch_v(), effects@),
    {
        let target = match modal.fetch_target() {
            Some((p, sink)) => Some((string_of(&chars_of(p)), sink)),
            None => None,
        };
        let abandoned = self.modal.open(modal);
        let mut effects = abort_effects(abandoned);
        match target {
            Some((provider, sink)) => {
                assert(aborts(self.modal.fetch_v()) =~= Seq::<Effect>::empty());
                let mut more = self.begin_model_fetch(provider, None, sink);
                effects.append(&mut more);
                assert(effects@.take(effects@.len() - 1) =~= aborts(abandoned));
            },
            None => {},
        }
        effects
    }

    /// `/connect`: open the connect modal on the provider list, given each provider's row.
    pub fn enter_connect(&mut self, rows: Vec<ProviderRow>) -> (effects: Vec<Effect>)
        requires
            old(self).modal.nonce_v() < u64::MAX - 1,
        ensures
            *final(self) == (App { modal: final(self).modal, ..*old(self) }),
            final(self).modal.current_v() == Some(
                ModalV::Connect(ConnectStepV::ProviderList { rows: rows_v(rows@), selected: 0 }),
            ),
            final(self).modal.nonce_v() == old(self).modal.nonce_v() + 1,
            final(self).modal.fetch_v() is None,
            effects@ == aborts(old(self).modal.fetch_v()),
    {
        self.open_modal(Modal::Connect(ConnectStep::ProviderList { rows, selected: 0 }))
    }

    /// `/models`: open the models modal for the active provider, fetching its list, or on the
    /// offline notice when no live provider is active.
    pub fn enter_models(&mut self) -> (effects: Vec<Effect>)
        requires
            old(self).modal.nonce_v() < u64::MAX - 1,
        ensures
            models_entered(*old(self), *final(self), effects@),
    {
        if self.provider_info.offline.is_some() {
            return self.open_modal(Modal::Models(ModelsStep::Offline));
        }
        let provider = self.provider_info.id.clone();
        let step = ModelsStep::ModelList { provider, models: Vec::new(), selected: 0, fetching: true };
        proof {
            assert(strs_v(Seq::<String>::empty()) =~= Seq::<Seq<char>>::empty());
        }
        self.open_modal(Modal::Models(step))
    }

    /// A model list for the connect modal arrived: it fills the list the open modal is
    /// waiting on, or shows the fetch error inline. A result for an older nonce, another
    /// provider, or a step that is no longer waiting is discarded.
    pub fn connect_models_fetched(
        &mut self,
        nonce: u64,
        provider: String,
        result: Result<Vec<String>, FetchError>,
    )
        ensures
            !connect_awaits(old(self).modal.current_v(), old(self).modal.nonce_v(), nonce, provider@)
                ==> *final(self) == *old(self),
            connect_awaits(old(self).modal.current_v(), old(self).modal.nonce_v(), nonce, provider@)
                ==> {
                &&& *final(self) == (App { modal: final(self).modal, ..*old(self) })
                &&& final(self).modal.nonce_v() == old(self).modal.nonce_v()
                &&& final(self).modal.fetch_v() is None
                &&& final(self).modal.current_v() == Some(
                    ModalV::Connect(
                        connect_filled(
                            old(self).modal.current_v()->0->Connect_0,
                            old(self).config.lang,
                            result,
                        ),
                    ),
                )
            },
    {
        let step = match self.modal.current() {
            Some(Modal::Connect(ConnectStep::ModelList { rows, provider: p, fetching, from_key, models, selected, .. })) => {
                if nonce != self.modal.nonce() || !*fetching || !crate::text::str_eq(p.as_str(), provider.as_str()) {
                    return;
                }
                match result {
                    Ok(list) => ConnectStep::ModelList {
                        rows: copy_rows(rows),
                        provider: p.clone(),
                        models: list,
                        selected: 0,
                        fetching: false,
                        error: None,
                        from_key: *from_key,
                    },
                    Err(e) => {
                        proof {
                            reveal_strlit("connect.fetch_error");
                            reveal_strlit("error");
                        }
                        let message = t_with1(self.config.lang, "connect.fetch_error", "error", e.message.as_str());
                        ConnectStep::ModelList {
                            rows: copy_rows(rows),
                            provider: p.clone(),
                            models: copy_strings(models),
                            selected: *selected,
                            fetching: false,
                            error: Some(message),
                            from_key: *from_key,
                        }
                    },
                }
            },
            _ => {
                return;
            },
        };
        self.modal.fill(Modal::Connect(step));
        self.modal.forget_fetch();
    }

    /// A model list for the models modal arrived: it fills the list the open modal is waiting
    /// on, pre-highlighting the active model; a failure moves to the credentials step or to
    /// manual entry by its class. Stale results are discarded as for the connect modal.
    pub fn models_fetched(
        &mut self,
        nonce: u64,
        provider: String,
        result: Result<Vec<String>, FetchError>,
    ) -> (effects: Vec<Effect>)
        requires
            models_awaits(old(self).modal.current_v(), old(self).modal.nonce_v(), nonce, provider@)
                ==> old(self).modal.nonce_v() < u64::MAX,
        ensures
            !models_awaits(old(self).modal.current_v(), old(self).modal.nonce_v(), nonce, provider@)
                ==> *final(self) == *old(self) && effects@.len() == 0,
            models_awaits(old(self).modal.current_v(), old(self).modal.nonce_v(), nonce, provider@)
                ==> {
                &&& *final(self) == (App { modal: final(self).modal, ..*old(self) })
                &&& final(self).modal.current_v() == Some(
                    ModalV::Models(
                        models_filled(
                            provider@,
                            opt_str_v(old(self).provider_info.model),
                            old(self).config.lang,
                            result,
                        ),
                    ),
                )
                &&& final(self).modal.fetch_v() is None
                &&& result is Ok ==> final(self).modal.nonce_v() == old(self).modal.nonce_v()
                    && effects@.len() == 0
                &&& result is Err ==> final(self).modal.nonce_v() == old(self).modal.nonce_v() + 1
                    && effects@ == aborts(old(self).modal.fetch_v())
            },
    {
        match self.modal.current() {
            Some(Modal::Models(ModelsStep::ModelList { provider: p, fetching, .. })) => {
                if nonce != self.modal.nonce() || !*fetching || !crate::text::str_eq(p.as_str(), provider.as_str()) {
                    return Vec::new();
                }
            },
            _ => {
                return Vec::new();
            },
        }
        match result {
            Ok(list) => {
                let selected = match &self.provider_info.model {
                    Some(m) => position_in(&list, m),
                    None => 0,
                };
                self.modal.fill(Modal::Models(ModelsStep::ModelList {
                    provider,
                    models: list,
                    selected,
                    fetching: false,
                }));
                self.modal.forget_fetch();
                Vec::new()
            },
            Err(e) => {
                proof {
                    reveal_strlit("connect.fetch_error");
                    reveal_strlit("error");
                }
                let message = t_with1(self.config.lang, "connect.fetch_error", "error", e.message.as_str());
                let step = if e.class.needs_credentials() {
                    ModelsStep::Credentials { provider, error: message }
                } else {
                    ModelsStep::Manual { provider, input: String::new(), error: Some(message) }
                };
                let abandoned = self.modal.replace_step(Modal::Models(step));
                abort_effects(abandoned)
            },
        }
    }

    /// Commit what an applying modal selected, closing it: `/connect` adopts the provider and
    /// pins its model, `/models` pins the model of the active provider; either way the settings
    /// are handed to the terminal layer to write.
    pub fn apply_modal(&mut self, apply: ModalApply) -> (effects: Vec<Effect>)
        requires
            old(self).modal.nonce_v() < u64::MAX,
        ensures
            applied(*old(self), *final(self), apply@, effects@),
    {
        let abandoned = self.modal.close();
        let mut effects = abort_effects(abandoned);
        let mut save = match apply {
            ModalApply::Provider { provider, model } => {
                let previous_provider = self.settings.provider.take();
                self.settings.provider = Some(provider.clone());
                self.persist_model(provider, model, Some(previous_provider))
            },
            ModalApply::Model { provider, model, .. } => self.persist_model(provider, model, None),
        };
        effects.append(&mut save);
        effects
    }

    /// Move the open modal to `next`, cancelling the fetch it no longer waits on and starting
    /// exactly one fetch when `next` begins waiting on a list (`key` is a just-typed key).
    pub fn step_modal(&mut self, next: Modal, key: Option<String>) -> (effects: Vec<Effect>)
        requires
            old(self).modal.nonce_v() < u64::MAX - 1,
        ensures
            stepped(*old(self), *final(self), next@, opt_str_v(key), effects@),
    {
        let after = match next.fetch_target() {
            Some((p, sink)) => Some((string_of(&chars_of(p)), sink)),
            None => None,
        };
        let changed = match self.modal.current() {
            Some(c) => !same_target(c.fetch_target(), next.fetch_target()),
            None => next.fetch_target().is_some(),
        };
        let abandoned = self.modal.replace_step(next);
        let mut effects = abort_effects(abandoned);
        if changed {
            match after {
                Some((provider, sink)) => {
                    assert(aborts(self.modal.fetch_v()) =~= Seq::<Effect>::empty());
                    let mut more = self.begin_model_fetch(provider, key, sink);
                    effects.append(&mut more);
                    assert(effects@.take(effects@.len() - 1) =~= aborts(old(self).modal.fetch_v()));
                },
                None => {},
            }
        } else {
            assert(effects@ =~= Seq::<Effect>::empty());
        }
        effects
    }

    /// A key press while a modal is open: Ctrl+C quits; otherwise the modal's own transition
    /// decides, except that Enter on a blank key field only says so. Entering a key on the
    /// connect modal writes it to the credential store before the list is fetched with it; a
    /// refused write keeps the modal where it was and shows the store's reason.
    pub fn handle_modal_key<S: CredentialStore>(&mut self, key: KeyEvent, store: &mut S) -> (effects:
        Vec<Effect>)
        requires
            old(self).modal.nonce_v() < u64::MAX - 1,
        ensures
            modal_key_handled(*old(self), *final(self), key, effects@, *old(store), *final(store)),
    {
        if ctrl_char(key, 'c') {
            let mut effects: Vec<Effect> = Vec::new();
            effects.push(Effect::Quit);
            return effects;
        }
        let current = match self.modal.current() {
            Some(m) => m.copy(),
            None => {
                return Vec::new();
            },
        };
        let mut store_for: Option<(String, String)> = None;
        match &current {
            Modal::Connect(ConnectStep::KeyEntry { provider, input, .. }) => {
                if key.code == KeyCode::Enter {
                    let value = trimmed(input);
                    if str_is_empty(value.as_str()) {
                        proof {
                            reveal_strlit("status.key_empty");
                        }
                        self.status = tr(self.config.lang, "status.key_empty");
                        return Vec::new();
                    }
                    store_for = Some((provider.clone(), value));
                }
            },
            _ => {},
        }
        let transition = current.next(key);
        let mut fetch_key: Option<String> = None;
        match store_for {
            Some((provider, value)) => {
                match store.set(provider.as_str(), value.as_str()) {
                    Ok(()) => {
                        fetch_key = Some(value);
                    },
                    Err(e) => {
                        proof {
                            reveal_strlit("status.key_failed");
                            reveal_strlit("provider");
                            reveal_strlit("error");
                        }
                        self.error = Some(
                            t_with2(
                                self.config.lang,
                                "status.key_failed",
                                "provider",
                                provider.as_str(),
                                "error",
                                e.message.as_str(),
                            ),
                        );
                        assert(self.error->0@ == key_failed_text(
                            self.config.lang,
                            provider@,
                            e.message@,
                        ));
                        return Vec::new();
                    },
                }
            },
            None => {},
        }
        match transition {
            ModalTransition::Close => abort_effects(self.modal.close()),
            ModalTransition::Apply(a) => self.apply_modal(a),
            ModalTransition::Step(next) => self.step_modal(next, fetch_key),
        }
    }

    /// A key press on the help screen: Esc and Ctrl+P close it, Ctrl+C quits, anything else is
    /// ignored.
    pub fn handle_help_key(&mut self, key: KeyEvent) -> (effects: Vec<Effect>)
        ensures
            help_key_handled(*old(self), *final(self), key, effects@),
    {
        let mut effects: Vec<Effect> = Vec::new();
        if ctrl_char(key, 'c') {
            effects.push(Effect::Quit);
        } else if ctrl_char(key, 'p') || key.code == KeyCode::Esc {
            self.close_help();
        }
        effects
    }

    /// A key press on the engine pane: Esc leaves it, Enter sends the prompt, `a`/`d` answer a
    /// pending question, other characters edit the prompt, Ctrl+C quits.
    pub fn handle_engine_key(&mut self, key: KeyEvent) -> (effects: Vec<Effect>)
        ensures
            engine_key_handled(*old(self), *final(self), key, effects@),
    {
        if ctrl_char(key, 'c') {
            let mut effects: Vec<Effect> = Vec::new();
            effects.push(Effect::Quit);
            return effects;
        }
        match key.code {
            KeyCode::Esc => self.leave_engine(),
            KeyCode::Enter => self.engine_send_prompt(),
            KeyCode::Backspace => {
                self.engine.prompt = pop_char(&self.engine.prompt);
                Vec::new()
            },
            KeyCode::Char(c) => match engine_approval_key(c, self.engine.pending.is_some()) {
                Some(approved) => self.engine_answer(approved),
                None => {
                    string_push(&mut self.engine.prompt, c);
                    Vec::new()
                },
            },
            _ => Vec::new(),
        }
    }

    /// A key press on the key entry screen: Esc leaves without saving, Enter saves, other
    /// characters edit the (hidden) input, Ctrl+C quits.
    pub fn handle_key_entry<S: CredentialStore>(&mut self, key: KeyEvent, store: &mut S) -> (effects:
        Vec<Effect>)
        ensures
            key_screen_handled(*old(self), *final(self), key, effects@, *old(store), *final(store)),
    {
        if ctrl_char(key, 'c') {
            let mut effects: Vec<Effect> = Vec::new();
            effects.push(Effect::Quit);
            return effects;
        }
        match key.code {
            KeyCode::Esc => {
                self.cancel_key_entry();
                Vec::new()
            },
            KeyCode::Enter => self.submit_key_entry(store),
            KeyCode::Backspace => {
                self.key_entry.input = pop_char(&self.key_entry.input);
                Vec::new()
            },
            KeyCode::Char(c) => {
                string_push(&mut self.key_entry.input, c);
                Vec::new()
            },
            _ => Vec::new(),
        }
    }

    /// The five providers the connect modal offers, each marked connected when its key (or,
    /// for Ollama, the `LIGHT_OLLAMA=1` opt-in) is present.
    pub fn connect_rows<S: CredentialStore, F: Fn(&str) -> Option<String> + Copy>(
        store: &mut S,
        env: F,
    ) -> (rows: Vec<ProviderRow>)
        requires
            forall|v: &str| env.requires((v,)),
        ensures
            rows_v(rows@).map_values(|r: ProviderRowV| r.id) == provider_ids(),
            rows_readable(env, *old(store), *final(store), rows_v(rows@)),
    {
        let statuses = key_statuses(store, env);
        proof {
            reveal_strlit("LIGHT_OLLAMA");
        }
        let ollama = env("LIGHT_OLLAMA");
        provider_rows(&statuses, ollama)
    }

    /// A command typed on the command line (see [`command_ran`]).
    pub fn run_command<S: CredentialStore, F: Fn(&str) -> Option<String> + Copy>(
        &mut self,
        command: &str,
        store: &mut S,
        env: F,
    ) -> (effects: Vec<Effect>)
        requires
            has_room(*old(self)),
            forall|v: &str| env.requires((v,)),
        ensures
            command_ran(*old(self), *final(self), command@, effects@, env, *old(store), *final(store)),
    {
        self.error = None;
        let lang = self.config.lang;
        let cmd = string_of(&trim_chars(&chars_of(command)));
        let c = cmd.as_str();
        proof {
            reveal_strlit("/ask");
            reveal_strlit("/auth/login");
            reveal_strlit("/auth/logout");
            reveal_strlit("/lang ");
            reveal_strlit("status.ask_not_connected");
            reveal_strlit("status.ask_empty");
            reveal_strlit("status.connect_not_connected");
            reveal_strlit("status.models_not_connected");
            reveal_strlit("status.model_empty");
            reveal_strlit("status.unknown_command");
            reveal_strlit("command");
        }
        match parse_ask_command(c) {
            Some(prompt) => {
                if self.mode == Mode::Connected {
                    let mut effects: Vec<Effect> = Vec::new();
                    effects.push(Effect::Ask { prompt: string_of(&chars_of(prompt)) });
                    return effects;
                }
                self.error = Some(tr(lang, "status.ask_not_connected"));
                return Vec::new();
            },
            None => {},
        }
        let v = chars_of(c);
        if chars_start_with(&v, &chars_of("/ask")) {
            self.error = Some(tr(lang, "status.ask_empty"));
            return Vec::new();
        }
        if parse_connect_command(c) {
            if self.mode == Mode::Connected {
                let rows = Self::connect_rows(store, env);
                return self.enter_connect(rows);
            }
            self.error = Some(tr(lang, "status.connect_not_connected"));
            return Vec::new();
        }
        if parse_models_command(c) {
            if self.mode == Mode::Connected {
                return self.enter_models();
            }
            self.error = Some(tr(lang, "status.models_not_connected"));
            return Vec::new();
        }
        match parse_model_command(c) {
            Some(Some(id)) => {
                return self.set_model(id);
            },
            Some(None) => {
                self.error = Some(tr(lang, "status.model_empty"));
                return Vec::new();
            },
            None => {},
        }
        match parse_key_command(c) {
            Some(KeyCommand::List) => {
                let statuses = key_statuses(store, env);
                self.list_keys(&statuses);
                return Vec::new();
            },
            Some(KeyCommand::Store(provider)) => {
                self.begin_key_entry(provider);
                return Vec::new();
            },
            Some(KeyCommand::Clear(provider)) => {
                return self.clear_key(provider.as_str(), store);
            },
            None => {},
        }
        if str_eq(c, "/auth/login") {
            return self.start_device_login();
        }
        if str_eq(c, "/auth/logout") {
            return self.sign_out();
        }
        if v.len() == 0 {
            return Vec::new();
        }
        if chars_start_with(&v, &chars_of("/lang ")) {
            let arg = string_of(&trim_chars(&slice_chars(&v, 6, v.len())));
            assert(v@.subrange(6, v@.len() as int) =~= v@.skip(6));
            return self.set_lang(arg.as_str());
        }
        self.error = Some(t_with1(lang, "status.unknown_command", "command", c));
        Vec::new()
    }

    /// A key press while the command line is active: Enter runs the command, Esc abandons it,
    /// other characters edit it, Ctrl+C quits.
    pub fn handle_command_key<S: CredentialStore, F: Fn(&str) -> Option<String> + Copy>(
        &mut self,
        key: KeyEvent,
        store: &mut S,
        env: F,
    ) -> (effects: Vec<Effect>)
        requires
            has_room(*old(self)),
            forall|v: &str| env.requires((v,)),
        ensures
            command_key_handled(*old(self), *final(self), key, effects@, env, *old(store), *final(store)),
    {
        if ctrl_char(key, 'c') {
            let mut effects: Vec<Effect> = Vec::new();
            effects.push(Effect::Quit);
            return effects;
        }
        match key.code {
            KeyCode::Esc => {
                self.command = CommandLine { active: false, text: String::new() };
                Vec::new()
            },
            KeyCode::Enter => {
                let text = self.command.text.clone();
                self.command = CommandLine { active: false, text: String::new() };
                let ghost pre = *self;
                let ghost pre_store = *store;
                let effects = self.run_command(text.as_str(), store, env);
                proof {
                    lemma_command_ran_keeps_command_line(pre, *self, text@, effects@, env, pre_store, *store);
                }
                effects
            },
            KeyCode::Backspace => {
                self.command.text = pop_char(&self.command.text);
                Vec::new()
            },
            KeyCode::Char(c) => {
                string_push(&mut self.command.text, c);
                Vec::new()
            },
            _ => Vec::new(),
        }
    }

    /// A key press on a screen without a modal, help, command line, engine pane or key entry
    /// (see [`screen_key_handled`]).
    pub fn handle_screen_key(&mut self, key: KeyEvent) -> (effects: Vec<Effect>)
        requires
            has_room(*old(self)),
        ensures
            screen_key_handled(*old(self), *final(self), key, effects@),
    {
        let connected = self.mode == Mode::Connected;
        match key.code {
            KeyCode::Char(c) => {
                if c == 'c' && key.modifiers.control {
                    let mut effects: Vec<Effect> = Vec::new();
                    effects.push(Effect::Quit);
                    effects
                } else if c == '/' && (self.mode == Mode::SignIn || self.mode == Mode::Register
                    || self.mode == Mode::RegisterCode || connected) {
                    proof {
                        reveal_strlit("/");
                    }
                    self.command = CommandLine { active: true, text: string_of(&chars_of("/")) };
                    assert(self.command.text@ =~= seq!['/']);
                    self.error = None;
                    Vec::new()
                } else if c == 'q' && connected {
                    let mut effects: Vec<Effect> = Vec::new();
                    effects.push(Effect::Quit);
                    effects
                } else if c == 'p' && connected {
                    self.ping()
                } else if c == 'o' && connected {
                    self.sign_out()
                } else if c == 'e' && connected {
                    let mut effects: Vec<Effect> = Vec::new();
                    effects.push(Effect::StartEngine);
                    effects
                } else {
                    self.type_char(c);
                    Vec::new()
                }
            },
            KeyCode::Esc => self.escape(),
            KeyCode::Backspace => {
                self.backspace();
                Vec::new()
            },
            KeyCode::Tab | KeyCode::Up | KeyCode::Down => {
                self.cycle_focus();
                Vec::new()
            },
            KeyCode::Enter => self.submit(),
            _ => Vec::new(),
        }
    }

    /// One key press, routed to whatever owns the keyboard: help, an open modal, the command
    /// line, the engine pane, the key entry screen, or the screen itself. Ctrl+P opens help
    /// from anywhere but the command line.
    pub fn handle_key<S: CredentialStore, F: Fn(&str) -> Option<String> + Copy>(
        &mut self,
        key: KeyEvent,
        store: &mut S,
        env: F,
    ) -> (effects: Vec<Effect>)
        requires
            has_room(*old(self)),
            forall|v: &str| env.requires((v,)),
        ensures
            old(self).mode == Mode::Help ==> {
                &&& help_key_handled(*old(self), *final(self), key, effects@)
                &&& *final(store) == *old(store)
            },
            old(self).mode != Mode::Help && old(self).modal.current_v() is Some ==> modal_key_handled(
                *old(self),
                *final(self),
                key,
                effects@,
                *old(store),
                *final(store),
            ),
            old(self).mode != Mode::Help && old(self).modal.current_v() is None && is_ctrl_char(key, 'p')
                && !old(self).command.active ==> {
                &&& *final(self) == (App { mode: Mode::Help, help_return: old(self).mode, ..*old(self) })
                &&& effects@.len() == 0
                &&& *final(store) == *old(store)
            },
            old(self).mode != Mode::Help && old(self).modal.current_v() is None && !(is_ctrl_char(key, 'p')
                && !old(self).command.active) ==> {
                &&& old(self).command.active ==> command_key_handled(
                    *old(self),
                    *final(self),
                    key,
                    effects@,
                    env,
                    *old(store),
                    *final(store),
                )
                &&& !old(self).command.active && old(self).mode == Mode::Engine ==> {
                    &&& engine_key_handled(*old(self), *final(self), key, effects@)
                    &&& *final(store) == *old(store)
                }
                &&& !old(self).command.active && old(self).mode == Mode::Key ==> key_screen_handled(
                    *old(self),
                    *final(self),
                    key,
                    effects@,
                    *old(store),
                    *final(store),
                )
                &&& !old(self).command.active && old(self).mode != Mode::Engine && old(self).mode
                    != Mode::Key ==> {
                    &&& screen_key_handled(*old(self), *final(self), key, effects@)
                    &&& *final(store) == *old(store)
                }
            },
    {
        if self.mode == Mode::Help {
            return self.handle_help_key(key);
        }
        if self.modal.is_open() {
            return self.handle_modal_key(key, store);
        }
        if ctrl_char(key, 'p') && !self.command.active {
            self.open_help();
            return Vec::new();
        }
        if self.command.active {
            return self.handle_command_key(key, store, env);
        }
        if self.mode == Mode::Engine {
            return self.handle_engine_key(key);
        }
        if self.mode == Mode::Key {
            return self.handle_key_entry(key, store);
        }
        self.handle_screen_key(key)
    }

    /// Append a line to the activity log.
    pub fn push_log(&mut self, line: String)
        ensures
            *final(self) == (App {
                activity: Activity {
                    log: final(self).activity.log,
                    ..old(self).activity
                },
                ..*old(self)
            }),
            final(self).activity.log@ == capped(old(self).activity.log@.push(line)),
    {
        push_capped(&mut self.activity.log, line);
    }
}

} // verus!
