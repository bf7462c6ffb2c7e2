//! Properties of the client that span several calls: what a failed settings write undoes, what
//! a dismissed fetch or cancelled login can no longer change, and what the logs and renderings
//! never hold.

use vstd::prelude::*;

use crate::client::{
    App, ApprovalTarget, Effect, EngineCommand, Focus, Mode, engine_key_handled, submitted, StagedSave, aborts, applied, blank_key_enter, capped, connect_awaits,
    escaped, help_key_handled, key_submit, lang_switched, map_get, modal_key_handled,
    models_awaits, opened, saved_settings, stepped, LOG_CAPACITY,
};
use crate::credentials::{CredentialStore, MemStore, StoreError};
use crate::engine_view::{EventKind, described, prompt_for};
use crate::layout::{Rect, body_rows, bordered_inner, popup_of, popup_width, sat_sub, total};
use crate::modal_view::{StyledLine, connect_popup, help_body};
use crate::i18n::{Locale, law_every_key_in_use_is_catalogued, lookup, parsed_locale, translated};
use crate::keys::{KeyCode, KeyEvent, is_ctrl_char};
use crate::modal::{
    ConnectStepV, ModalApplyV, ModalV, ModelsStepV, ProviderRowV, TransitionV, modal_next, opt_str_v,
    step_text,
};
use crate::text::trim;

verus! {

/// The activity and engine logs keep at most [`LOG_CAPACITY`] lines, and what they keep is the
/// newest lines, in order.
pub proof fn law_log_keeps_the_newest_lines<A>(s: Seq<A>)
    ensures
        capped(s).len() <= LOG_CAPACITY,
        s.len() <= LOG_CAPACITY ==> capped(s) == s,
        s.len() > LOG_CAPACITY ==> capped(s) == s.subrange(s.len() - LOG_CAPACITY, s.len() as int),
{
    if s.len() > LOG_CAPACITY {
        assert(s.skip(s.len() - LOG_CAPACITY) =~= s.subrange(s.len() - LOG_CAPACITY, s.len() as int));
    }
}

/// A model pin whose settings write fails leaves the models exactly as they were before it was
/// staged, so a later unrelated write cannot persist it; a `/connect` apply also gets its
/// preferred provider back.
pub proof fn law_failed_model_save_rolls_back(
    before: App,
    staged: App,
    after: App,
    provider: Seq<char>,
    model: Seq<char>,
    reason: String,
    effects: Seq<Effect>,
)
    requires
        staged.settings.models@ == before.settings.models@.insert(provider, model),
        staged.staged matches Some(StagedSave::Model { provider: p, previous, previous_provider, .. })
            && p@ == provider && opt_str_v(previous) == map_get(before.settings.models@, provider)
            && (previous_provider is None ==> staged.settings.provider == before.settings.provider)
            && (previous_provider is Some ==> previous_provider == Some(before.settings.provider)),
        saved_settings(staged, after, Err(reason), effects),
    ensures
        after.settings.models@ == before.settings.models@,
        after.settings.provider == before.settings.provider,
        after.staged is None,
        after.error is Some,
        effects.len() == 0,
{
    assert(after.settings.models@ =~= before.settings.models@);
}

/// A `/connect` or `/models` apply, followed by a failed write, restores the settings it touched.
pub proof fn law_failed_apply_rolls_back(
    before: App,
    staged: App,
    after: App,
    a: ModalApplyV,
    e1: Seq<Effect>,
    reason: String,
    e2: Seq<Effect>,
)
    requires
        applied(before, staged, a, e1),
        saved_settings(staged, after, Err(reason), e2),
    ensures
        after.settings.models@ == before.settings.models@,
        after.settings.provider == before.settings.provider,
        after.error is Some,
{
    let (p, m) = match a {
        ModalApplyV::Provider { provider, model } => (provider, model),
        ModalApplyV::Model { provider, model, .. } => (provider, model),
    };
    law_failed_model_save_rolls_back(before, staged, after, p, m, reason, e2);
}

/// `/models` re-pins a model of the active provider and never changes which provider is
/// preferred; only `/connect` adopts one.
pub proof fn law_models_apply_keeps_the_preferred_provider(
    before: App,
    after: App,
    provider: Seq<char>,
    model: Seq<char>,
    verified: bool,
    effects: Seq<Effect>,
)
    requires
        applied(before, after, ModalApplyV::Model { provider, model, verified }, effects),
    ensures
        after.settings.provider == before.settings.provider,
        after.settings.models@ == before.settings.models@.insert(provider, model),
{
}

/// `/connect` adopts the provider it applies, together with its model.
pub proof fn law_connect_apply_adopts_the_provider(
    before: App,
    after: App,
    provider: Seq<char>,
    model: Seq<char>,
    effects: Seq<Effect>,
)
    requires
        applied(before, after, ModalApplyV::Provider { provider, model }, effects),
    ensures
        opt_str_v(after.settings.provider) == Some(provider),
        after.settings.models@ == before.settings.models@.insert(provider, model),
{
}

/// A language switch whose settings write fails leaves both the interface language and the saved
/// value as they were.
pub proof fn law_failed_lang_save_rolls_back(
    before: App,
    staged: App,
    after: App,
    arg: Seq<char>,
    e1: Seq<Effect>,
    reason: String,
    e2: Seq<Effect>,
)
    requires
        parsed_locale(arg) is Some,
        lang_switched(before, staged, arg, e1),
        saved_settings(staged, after, Err(reason), e2),
    ensures
        after.config.lang == before.config.lang,
        after.settings.lang == before.settings.lang,
        after.error is Some,
{
}

/// A model list fetched for a nonce the modal host has since moved past is never accepted by
/// either modal: closing, replacing, or walking away from an awaited list all bump the nonce.
pub proof fn law_a_superseded_fetch_is_ignored(a: App, nonce: u64, provider: Seq<char>)
    requires
        nonce != a.modal.nonce_v(),
    ensures
        !connect_awaits(a.modal.current_v(), a.modal.nonce_v(), nonce, provider),
        !models_awaits(a.modal.current_v(), a.modal.nonce_v(), nonce, provider),
{
}

/// Cancelling a device login moves its nonce, so the poll result of the cancelled login, which
/// carries the old nonce, is ignored when it lands.
pub proof fn law_a_cancelled_device_login_ignores_its_poll(
    before: App,
    after: App,
    effects: Seq<Effect>,
)
    requires
        before.mode == Mode::Device,
        before.device.nonce < u64::MAX,
        escaped(before, after, effects),
    ensures
        after.device.nonce != before.device.nonce,
        after.mode == Mode::SignIn,
        after.device.user_code is None,
{
}

/// Opening help and closing it again returns to the screen it was opened from, whatever that
/// screen was.
pub proof fn law_help_returns_to_where_it_was_opened(
    before: App,
    after: App,
    key: KeyEvent,
    effects: Seq<Effect>,
)
    requires
        key.code == KeyCode::Esc || is_ctrl_char(key, 'p'),
        help_key_handled(App { mode: Mode::Help, help_return: before.mode, ..before }, after, key, effects),
    ensures
        after == (App { help_return: before.mode, ..before }),
        effects.len() == 0,
{
}

/// The debugging text of the connect key-entry step does not depend on the typed key: two
/// steps that differ only in the key render identically, so the secret cannot leak through it.
pub proof fn law_the_typed_key_never_reaches_the_debug_text(
    rows: Seq<ProviderRowV>,
    provider: Seq<char>,
    key1: Seq<char>,
    key2: Seq<char>,
)
    ensures
        step_text(ConnectStepV::KeyEntry { rows, provider, input: key1 }) == step_text(
            ConnectStepV::KeyEntry { rows, provider, input: key2 },
        ),
{
}

/// While a popup is open it owns the keyboard: whatever key is pressed, the screen it floats
/// over keeps its mode, its forms and its command line, and Ctrl+C still quits.
pub proof fn law_a_modal_never_disturbs_the_screen_beneath<S: CredentialStore>(
    old: App,
    new: App,
    key: KeyEvent,
    effects: Seq<Effect>,
    before: S,
    after: S,
)
    requires
        old.modal.current_v() is Some,
        modal_key_handled(old, new, key, effects, before, after),
    ensures
        new.mode == old.mode,
        new.form == old.form,
        new.command == old.command,
        is_ctrl_char(key, 'c') ==> new == old && effects == seq![Effect::Quit],
        !is_ctrl_char(key, 'c') ==> !effects.contains(Effect::Quit),
{
    if !is_ctrl_char(key, 'c') {
        let current = old.modal.current_v()->0;
        lemma_aborts_quiet(old.modal.fetch_v());
        if blank_key_enter(current, key) {
        } else if key_submit(current, key) {
            let provider = current->Connect_0->KeyEntry_provider;
            let typed = trim(current->Connect_0->KeyEntry_input);
            let r = choose|r: Result<(), StoreError>|
                #[trigger] before.write_gives(after, provider, typed, r) && match r {
                    Ok(()) => {
                        &&& modal_next(current, key) matches TransitionV::Step(m)
                        &&& stepped(old, new, m, Some(typed), effects)
                    },
                    Err(e) => {
                        &&& new == (App { error: new.error, ..old })
                        &&& new.error matches Some(m) && m@ == crate::client::key_failed_text(
                            old.config.lang,
                            provider,
                            e.message@,
                        )
                        &&& effects.len() == 0
                    },
                };
            if r is Ok {
                let m = modal_next(current, key)->Step_0;
                lemma_stepped_quiet(old, new, m, Some(typed), effects);
            }
        } else {
            match modal_next(current, key) {
                TransitionV::Close => {},
                TransitionV::Apply(a) => {
                    assert(effects[effects.len() - 1] != Effect::Quit);
                },
                TransitionV::Step(m) => {
                    lemma_stepped_quiet(old, new, m, None, effects);
                },
            }
        }
    }
}

/// The cancellation of an awaited fetch never quits.
proof fn lemma_aborts_quiet(task: Option<u64>)
    ensures
        !aborts(task).contains(Effect::Quit),
{
    if task is Some {
        assert(aborts(task)[0] != Effect::Quit);
    }
}

/// Moving a modal to another step never quits.
proof fn lemma_stepped_quiet(old: App, new: App, m: ModalV, key: Option<Seq<char>>, effects: Seq<Effect>)
    requires
        stepped(old, new, m, key, effects),
    ensures
        !effects.contains(Effect::Quit),
{
    lemma_aborts_quiet(old.modal.fetch_v());
    if effects.len() > 0 && !(effects =~= aborts(old.modal.fetch_v())) {
        assert forall|i: int| 0 <= i < effects.len() implies effects[i] != Effect::Quit by {
            if i < effects.len() - 1 {
                assert(effects[i] == effects.take(effects.len() - 1)[i]);
            }
        }
    }
}

/// The sum of a sequence of positive numbers is at least its length.
proof fn lemma_total_at_least_len(s: Seq<int>)
    requires
        forall|i: int| 0 <= i < s.len() ==> s[i] >= 1,
    ensures
        total(s) >= s.len(),
    decreases s.len(),
{
    if s.len() > 0 {
        lemma_total_at_least_len(s.drop_last());
    }
}

/// A popup scrolls its body just far enough that the last wrapped row of the focused line is
/// on screen, as long as the rows up to it fit the terminal's row counter.
pub proof fn law_the_focused_line_stays_visible(area: Rect, body: Seq<StyledLine>, focus: usize)
    requires
        focus < body.len(),
        popup_of(area, body, Some(focus)).body is Some,
        total(body_rows(body, sat_sub(popup_width(area), 2) as u16).take(focus + 1)) <= u16::MAX,
    ensures
        ({
            let (rect, scroll) = popup_of(area, body, Some(focus)).body->0;
            let end = total(body_rows(body, sat_sub(popup_width(area), 2) as u16).take(focus + 1));
            scroll <= end - 1 < scroll + rect.height
        }),
{
    let rows = body_rows(body, sat_sub(popup_width(area), 2) as u16);
    let prefix = rows.take(focus + 1);
    assert forall|i: int| 0 <= i < prefix.len() implies prefix[i] >= 1 by {
        assert(prefix[i] == rows[i]);
    }
    lemma_total_at_least_len(prefix);
}

/// Only a proposed plan and a gated action wait on the human, and every question they put ends
/// with the approve/deny keys on a line of their own; an approval request opens with the
/// action's own description.
pub proof fn law_only_questions_wait_for_an_answer(locale: Locale, kind: EventKind)
    ensures
        (prompt_for(locale, kind) is Some) == (kind is PlanProposed || kind is ApprovalRequest),
        prompt_for(locale, kind) matches Some(p) ==> exists|head: Seq<char>|
            p == head + seq!['\n'] + translated(locale, "engine.approve_keys"@),
        kind matches EventKind::ApprovalRequest { detail, .. } ==> prompt_for(locale, kind)->0.take(
            detail@.len() as int + 1,
        ) == detail@ + seq!['\n'],
{
    match kind {
        EventKind::PlanProposed { .. } => {
            let p = prompt_for(locale, kind)->0;
            let keys = translated(locale, "engine.approve_keys"@);
            let head = p.take(p.len() - keys.len() - 1);
            assert(p == head + seq!['\n'] + keys);
        },
        EventKind::ApprovalRequest { detail, .. } => {
            let p = prompt_for(locale, kind)->0;
            let keys = translated(locale, "engine.approve_keys"@);
            let head = p.take(p.len() - keys.len() - 1);
            assert(p == head + seq!['\n'] + keys);
            assert(p.take(detail@.len() as int + 1) =~= detail@ + seq!['\n']);
        },
        _ => {},
    }
}

/// A call made on a credential store: writing a key for a provider, or removing it.
pub enum StoreCall {
    Write(Seq<char>, Seq<char>),
    Remove(Seq<char>),
}

/// Whether the in-memory store went from `before` to `after` by `call`, answering `r`.
pub open spec fn call_done(before: MemStore, after: MemStore, call: StoreCall, r: Result<(), StoreError>) -> bool {
    match call {
        StoreCall::Write(p, k) => before.write_gives(after, p, k, r),
        StoreCall::Remove(p) => before.delete_gives(after, p, r),
    }
}

/// The key the last call on `p` among `calls` left: the key of a final write, none after a
/// removal or when `p` was never written.
pub open spec fn last_write(calls: Seq<StoreCall>, p: Seq<char>) -> Option<Seq<char>>
    decreases calls.len(),
{
    if calls.len() == 0 {
        None
    } else {
        match calls.last() {
            StoreCall::Write(q, k) => if q == p {
                Some(k)
            } else {
                last_write(calls.drop_last(), p)
            },
            StoreCall::Remove(q) => if q == p {
                None
            } else {
                last_write(calls.drop_last(), p)
            },
        }
    }
}

/// The key `m` holds for `p`, if any.
pub open spec fn held(m: Map<Seq<char>, Seq<char>>, p: Seq<char>) -> Option<Seq<char>> {
    if m.contains_key(p) {
        Some(m[p])
    } else {
        None
    }
}

/// An in-memory store that starts empty and goes through any sequence of writes and removals
/// answers every one of them with success, and then holds for each provider exactly the key of
/// the last write to it, unless a removal came after; calls for other providers never change
/// what it holds for that one.
pub proof fn law_the_store_holds_the_last_write(
    stores: Seq<MemStore>,
    calls: Seq<StoreCall>,
    answers: Seq<Result<(), StoreError>>,
    p: Seq<char>,
)
    requires
        stores.len() == calls.len() + 1,
        answers.len() == calls.len(),
        stores[0]@ == Map::<Seq<char>, Seq<char>>::empty(),
        forall|i: int| 0 <= i < calls.len() ==> #[trigger] call_done(stores[i], stores[i + 1], calls[i], answers[i]),
    ensures
        forall|i: int| 0 <= i < answers.len() ==> #[trigger] answers[i] is Ok,
        held(stores.last()@, p) == last_write(calls, p),
    decreases calls.len(),
{
    if calls.len() > 0 {
        let n = calls.len() - 1;
        let s0 = stores.drop_last();
        let c0 = calls.drop_last();
        let a0 = answers.drop_last();
        assert forall|i: int| 0 <= i < c0.len() implies #[trigger] call_done(s0[i], s0[i + 1], c0[i], a0[i]) by {
            assert(call_done(stores[i], stores[i + 1], calls[i], answers[i]));
        }
        law_the_store_holds_the_last_write(s0, c0, a0, p);
        assert(call_done(stores[n], stores[n + 1], calls[n], answers[n]));
        assert(s0.last() == stores[n]);
        assert forall|i: int| 0 <= i < answers.len() implies #[trigger] answers[i] is Ok by {
            if i < n {
                assert(a0[i] == answers[i]);
            }
        }
    }
}

/// A popup with any inside shows its footer on the last row of that inside, across its full
/// width, and its body (when it has room for one) on the rows above.
pub proof fn law_the_footer_is_the_last_inner_row(area: Rect, body: Seq<StyledLine>, focus: Option<usize>)
    requires
        area.x + area.width <= u16::MAX,
        area.y + area.height <= u16::MAX,
    ensures
        ({
            let l = popup_of(area, body, focus);
            let inner = bordered_inner(l.popup);
            &&& (inner.height == 0 || inner.width == 0) <==> l.footer is None
            &&& l.footer matches Some(f) ==> f.x == inner.x && f.width == inner.width && f.height == 1
                && f.y == inner.y + inner.height - 1
            &&& l.body matches Some((b, s)) ==> b.x == inner.x && b.y == inner.y && b.width == inner.width
                && b.height == inner.height - 1
        }),
{
    let rows = body_rows(body, sat_sub(popup_width(area), 2) as u16);
    assert forall|i: int| 0 <= i < rows.len() implies rows[i] >= 1 by {}
    lemma_total_at_least_len(rows);
    let l = popup_of(area, body, focus);
    let inner = bordered_inner(l.popup);
    assert(l.popup.y + l.popup.height <= area.y + area.height);
    assert(l.popup.x + l.popup.width <= area.x + area.width);
    assert(inner.y + inner.height <= u16::MAX);
}

/// Whether `key` is one of the keys the help screen shows a line for.
pub open spec fn help_key(key: Seq<char>) -> bool {
    key == "help.section.global"@
        || key == "help.global.help"@
        || key == "help.global.quit"@
        || key == "help.section.forms"@
        || key == "help.forms.navigate"@
        || key == "help.forms.submit"@
        || key == "help.forms.command"@
        || key == "help.forms.back"@
        || key == "help.section.connected"@
        || key == "help.connected.ping"@
        || key == "help.connected.signout"@
        || key == "help.connected.engine"@
        || key == "help.connected.quit"@
        || key == "help.section.engine"@
        || key == "help.engine.send"@
        || key == "help.engine.back"@
        || key == "help.engine.approve"@
        || key == "help.section.commands"@
        || key == "help.commands.ask"@
        || key == "help.commands.connect"@
        || key == "help.commands.model"@
        || key == "help.commands.models"@
        || key == "help.commands.key"@
        || key == "help.commands.auth"@
        || key == "help.commands.lang"@
}

/// The help screen is never empty, has the same lines in every language, and every header and
/// entry on it is catalog text, never a raw key.
pub proof fn law_the_help_never_shows_a_raw_key(locale: Locale, key: Seq<char>)
    requires
        help_key(key),
    ensures
        help_body(locale).len() > 0,
        help_body(locale).len() == help_body(Locale::En).len(),
        lookup(locale, key) is Some,
        translated(locale, key) == lookup(locale, key)->0,
{
    law_every_key_in_use_is_catalogued(key);
}

/// The selection after a step down a list of `len` entries: the next entry, wrapping from the
/// last to the first.
pub open spec fn next_down(selected: int, len: int) -> int {
    if selected + 1 == len {
        0
    } else {
        selected + 1
    }
}

/// The selection after a step up a list of `len` entries: the previous entry, wrapping from the
/// first to the last.
pub open spec fn next_up(selected: int, len: int) -> int {
    if selected == 0 {
        len - 1
    } else {
        selected - 1
    }
}

/// In every list of the popups (the connect provider list, the connect model list and the
/// `/models` list) Down moves the selection to the next entry and Up to the previous one,
/// wrapping at the ends, and nothing else about the step changes.
pub proof fn law_down_moves_down_and_up_moves_up(
    rows: Seq<ProviderRowV>,
    provider: Seq<char>,
    models: Seq<Seq<char>>,
    selected: int,
    fetching: bool,
    error: Option<Seq<char>>,
    from_key: bool,
    key: KeyEvent,
)
    requires
        key.code == KeyCode::Down || key.code == KeyCode::Up,
    ensures
        0 <= selected < rows.len() ==> modal_next(
            ModalV::Connect(ConnectStepV::ProviderList { rows, selected }),
            key,
        ) == TransitionV::Step(
            ModalV::Connect(
                ConnectStepV::ProviderList {
                    rows,
                    selected: if key.code == KeyCode::Down {
                        next_down(selected, rows.len() as int)
                    } else {
                        next_up(selected, rows.len() as int)
                    },
                },
            ),
        ),
        0 <= selected < models.len() ==> modal_next(
            ModalV::Connect(
                ConnectStepV::ModelList { rows, provider, models, selected, fetching, error, from_key },
            ),
            key,
        ) == TransitionV::Step(
            ModalV::Connect(
                ConnectStepV::ModelList {
                    rows,
                    provider,
                    models,
                    selected: if key.code == KeyCode::Down {
                        next_down(selected, models.len() as int)
                    } else {
                        next_up(selected, models.len() as int)
                    },
                    fetching,
                    error,
                    from_key,
                },
            ),
        ),
        0 <= selected < models.len() ==> modal_next(
            ModalV::Models(ModelsStepV::ModelList { provider, models, selected, fetching: false }),
            key,
        ) == TransitionV::Step(
            ModalV::Models(
                ModelsStepV::ModelList {
                    provider,
                    models,
                    selected: if key.code == KeyCode::Down {
                        next_down(selected, models.len() as int)
                    } else {
                        next_up(selected, models.len() as int)
                    },
                    fetching: false,
                },
            ),
        ),
{
}

/// The answer sent for the engine's pending question is exactly the human's: `a` approves and
/// `d` denies the plan or action that question names, so a denial is never sent as an
/// approval, and the two keys always send different answers.
pub proof fn law_the_engine_gets_the_answer_that_was_given(
    old: App,
    new: App,
    effects: Seq<Effect>,
    c: char,
    key: KeyEvent,
)
    requires
        old.engine.active,
        old.engine.pending is Some,
        key.code == KeyCode::Char(c),
        c == 'a' || c == 'd',
        !is_ctrl_char(key, 'c'),
        engine_key_handled(old, new, key, effects),
    ensures
        effects.len() == 1,
        match old.engine.pending->0.target {
            ApprovalTarget::Plan { plan_id } => effects[0] == (Effect::Engine {
                command: EngineCommand::ApprovePlan { plan_id, approved: c == 'a' },
            }),
            ApprovalTarget::Action { request_id } => effects[0] == (Effect::Engine {
                command: EngineCommand::ApproveAction { request_id, approved: c == 'a' },
            }),
        },
        new.engine.pending is None,
{
}

/// A turn that ended without completing is logged with the catalog's "turn ended" text, and a
/// completed one with its "turn complete" text; likewise a rejected plan is logged as rejected
/// and an approved one as approved.
pub proof fn law_a_failed_turn_is_not_reported_complete(locale: Locale, plan_id: u128)
    ensures
        described(locale, EventKind::PlanDecided { plan_id, approved: false }) == translated(
            locale,
            "engine.plan_rejected"@,
        ),
        described(locale, EventKind::PlanDecided { plan_id, approved: true }) == translated(
            locale,
            "engine.plan_approved"@,
        ),
        described(locale, EventKind::TurnComplete { ok: false }) == translated(
            locale,
            "engine.turn_ended"@,
        ),
        described(locale, EventKind::TurnComplete { ok: true }) == translated(
            locale,
            "engine.turn_complete"@,
        ),
{
}

/// Enter on the last field of a form sends exactly what was typed: sign-in sends the typed
/// email and code, registration the typed email and name.
pub proof fn law_a_form_sends_what_was_typed(old: App, new: App, effects: Seq<Effect>)
    requires
        submitted(old, new, effects),
        old.form.email@.len() > 0,
    ensures
        old.mode == Mode::Register && old.form.focus == Focus::Name ==> effects == seq![
            Effect::Register { email: old.form.email, name: old.form.name },
        ],
        old.mode == Mode::SignIn && old.form.focus == Focus::Code && old.form.code@.len() > 0
            ==> effects == seq![Effect::Login { email: old.form.email, code: old.form.code }],
{
}

/// A row of the connect provider list reads as the provider's id after the selection marker,
/// followed by the catalog's "connected" note in brackets exactly when the row is connected.
pub proof fn law_only_connected_rows_say_so(
    locale: Locale,
    error: Option<Seq<char>>,
    rows: Seq<ProviderRowV>,
    selected: int,
    i: int,
)
    requires
        0 <= i < rows.len(),
    ensures
        ({
            let body = connect_popup(locale, error, ConnectStepV::ProviderList { rows, selected }).body;
            let mark = if i == selected {
                "> "@
            } else {
                "  "@
            };
            &&& body.len() == rows.len()
            &&& rows[i].connected ==> body[i].0 == mark + rows[i].id + " ("@ + translated(
                locale,
                "connect.connected"@,
            ) + ")"@
            &&& !rows[i].connected ==> body[i].0 == mark + rows[i].id
        }),
{
}

} // verus!
