//! How a failed model-list fetch is classified and reported: the failure class the modals branch
//! on, and one bounded, control-free line of provider text.

use vstd::prelude::*;

use crate::credentials::CredentialStore;
use crate::i18n::{Locale, interpolate, translated, t, t_with};
use crate::selection::{key_possible, opt_v, resolve_key};
use crate::text::{
    chars_of, drop_control_chars, drop_controls, first_line, first_line_chars, slice_chars,
    string_of, trim, trim_chars,
};

verus! {

/// The longest provider-supplied error text that may reach a rendered line.
pub const PROVIDER_ERROR_MAX_CHARS: usize = 120;

/// Why a model-list fetch failed, in the only terms the modal acts on.
#[derive(Debug, Clone, Copy, PartialEq, Eq, Structural)]
pub enum FetchFailure {
    /// No API key could be resolved for the provider at all.
    MissingKey,
    /// The provider refused the credential that was sent (401/403).
    Auth,
    /// Anything else: DNS, refused connection, TLS, timeout, 5xx, malformed body.
    Fetch,
}

/// Whether the remedy for `f` is a credential rather than a retry.
pub open spec fn credential_class(f: FetchFailure) -> bool {
    f == FetchFailure::MissingKey || f == FetchFailure::Auth
}

impl FetchFailure {
    /// Whether the remedy is a credential (`/connect`, `/key`) rather than a retry.
    pub fn needs_credentials(self) -> (r: bool)
        ensures
            r == credential_class(self),
    {
        match self {
            FetchFailure::MissingKey | FetchFailure::Auth => true,
            FetchFailure::Fetch => false,
        }
    }
}

/// A failed model-list fetch: the class plus the one line of detail to render.
#[derive(Debug, Clone, PartialEq, Eq)]
pub struct FetchError {
    pub class: FetchFailure,
    pub message: String,
}

/// The class of an HTTP status: only 401 and 403 mean the credential was refused.
pub open spec fn status_class(status: Option<u16>) -> FetchFailure {
    match status {
        Some(code) => if code == 401 || code == 403 {
            FetchFailure::Auth
        } else {
            FetchFailure::Fetch
        },
        None => FetchFailure::Fetch,
    }
}

/// The class of a fetch failure from `provider`: Ollama takes no key, so none of its failures
/// is repairable by a credential command.
pub open spec fn provider_class(provider: Seq<char>, status: Option<u16>) -> FetchFailure {
    if provider == "ollama"@ {
        FetchFailure::Fetch
    } else {
        status_class(status)
    }
}

/// Provider text reduced to one bounded line: the first line, without control characters,
/// trimmed, and cut to 120 characters plus an ellipsis when longer.
pub open spec fn summary(message: Seq<char>) -> Seq<char> {
    let first = trim(drop_controls(first_line(message)));
    if first.len() <= PROVIDER_ERROR_MAX_CHARS {
        first
    } else {
        first.take(PROVIDER_ERROR_MAX_CHARS as int).push('\u{2026}')
    }
}

/// Map an HTTP status (if the failure carried one) to a failure class.
pub fn class_for_status(status: Option<u16>) -> (r: FetchFailure)
    ensures
        r == status_class(status),
{
    match status {
        Some(401) | Some(403) => FetchFailure::Auth,
        _ => FetchFailure::Fetch,
    }
}

/// The failure class of a fetch error from `provider` carrying `status`.
pub fn class_for_provider(provider: &str, status: Option<u16>) -> (r: FetchFailure)
    ensures
        r == provider_class(provider@, status),
{
    if crate::text::str_eq(provider, "ollama") {
        FetchFailure::Fetch
    } else {
        class_for_status(status)
    }
}

/// Reduce provider-supplied error text to one bounded, control-free line before it becomes
/// user-visible: the text is remote-controlled, unbounded, and may carry escape sequences.
pub fn summarize_provider_error(message: &str) -> (r: String)
    ensures
        r@ == summary(message@),
        r@.len() <= PROVIDER_ERROR_MAX_CHARS + 1,
        control_free(r@),
{
    let line = first_line_chars(&chars_of(message));
    let visible = drop_control_chars(&line);
    let first = trim_chars(&visible);
    proof {
        lemma_drop_controls_clean(first_line(message@));
        lemma_trim_start_clean(drop_controls(first_line(message@)));
        lemma_trim_end_clean(crate::text::trim_start(drop_controls(first_line(message@))));
    }
    if first.len() <= PROVIDER_ERROR_MAX_CHARS {
        string_of(&first)
    } else {
        let mut kept = slice_chars(&first, 0, PROVIDER_ERROR_MAX_CHARS);
        kept.push('\u{2026}');
        assert(kept@ =~= first@.take(PROVIDER_ERROR_MAX_CHARS as int).push('\u{2026}'));
        string_of(&kept)
    }
}

proof fn lemma_drop_controls_clean(s: Seq<char>)
    ensures
        control_free(drop_controls(s)),
    decreases s.len(),
{
    if s.len() > 0 {
        lemma_drop_controls_clean(s.drop_first());
    }
}

/// Whether no character of `s` is a control character.
pub open spec fn control_free(s: Seq<char>) -> bool {
    forall|i: int| 0 <= i < s.len() ==> !crate::text::control(#[trigger] s[i])
}

proof fn lemma_trim_start_clean(s: Seq<char>)
    requires
        control_free(s),
    ensures
        control_free(crate::text::trim_start(s)),
    decreases s.len(),
{
    if s.len() > 0 && crate::text::ws(s[0]) {
        assert(control_free(s.drop_first()));
        lemma_trim_start_clean(s.drop_first());
    }
}

proof fn lemma_trim_end_clean(s: Seq<char>)
    requires
        control_free(s),
    ensures
        control_free(crate::text::trim_end(s)),
    decreases s.len(),
{
    if s.len() > 0 && crate::text::ws(s.last()) {
        assert(control_free(s.drop_last()));
        lemma_trim_end_clean(s.drop_last());
    }
}

/// Classify a provider's fetch failure and bound its text: the single place remote error text
/// crosses into the interface.
pub fn fetch_error(provider: &str, status: Option<u16>, message: &str) -> (r: FetchError)
    ensures
        r.class == provider_class(provider@, status),
        r.message@ == summary(message@),
{
    FetchError {
        class: class_for_provider(provider, status),
        message: summarize_provider_error(message),
    }
}

/// The failure when no key could be resolved for `provider`: the client's own sentence, so it
/// is not summarized.
pub fn missing_key_error(provider: &str, locale: Locale) -> (r: FetchError)
    ensures
        r.class == FetchFailure::MissingKey,
        r.message@ == interpolate(
            translated(locale, "connect.no_key"@),
            seq![("provider"@, provider@)],
        ),
{
    FetchError {
        class: FetchFailure::MissingKey,
        message: crate::i18n::t_with1(locale, "connect.no_key", "provider", provider),
    }
}

/// The failure reported for a fetch whose task panicked: it says nothing about the key, so it
/// is the retryable class.
pub fn panicked_fetch_error(locale: Locale) -> (r: FetchError)
    ensures
        r.class == FetchFailure::Fetch,
        r.message@ == translated(locale, "connect.fetch_panicked"@),
{
    FetchError {
        class: FetchFailure::Fetch,
        message: crate::i18n::tr(locale, "connect.fetch_panicked"),
    }
}

/// How a model list is to be fetched: from the local Ollama daemon (which takes no key), from a
/// remote provider with a key, or not at all because no key could be found.
#[derive(Debug, Clone, PartialEq, Eq)]
pub enum FetchPlan {
    Ollama,
    Remote { key: String },
    Refused(FetchError),
}

/// The plan for a remote provider given the key found for it.
pub open spec fn planned_with(provider: Seq<char>, key: Option<String>, locale: Locale, r: FetchPlan) -> bool {
    match key {
        Some(k) => r == FetchPlan::Remote { key: k },
        None => r matches FetchPlan::Refused(e) && e.class == FetchFailure::MissingKey
            && e.message@ == interpolate(
            translated(locale, "connect.no_key"@),
            seq![("provider"@, provider)],
        ),
    }
}

/// The fetch for `provider` given the key found for it (a just-typed key, or the resolved
/// one): Ollama needs none; a remote provider without one is refused as a credential failure.
pub fn plan_fetch(provider: &str, key: Option<String>, locale: Locale) -> (r: FetchPlan)
    ensures
        provider@ == "ollama"@ ==> r == FetchPlan::Ollama,
        provider@ != "ollama"@ ==> planned_with(provider@, key, locale, r),
{
    proof {
        reveal_strlit("ollama");
    }
    if crate::text::str_eq(provider, "ollama") {
        return FetchPlan::Ollama;
    }
    match key {
        Some(k) => FetchPlan::Remote { key: k },
        None => FetchPlan::Refused(missing_key_error(provider, locale)),
    }
}

/// The fetch for `provider`: a just-typed key wins; otherwise the key is resolved from the
/// environment (read through `env`) and the credential store. Ollama resolves no key at all.
pub fn model_fetch_plan<S: CredentialStore, F: Fn(&str) -> Option<String>>(
    provider: &str,
    key_override: Option<String>,
    store: &mut S,
    env: F,
    locale: Locale,
) -> (r: FetchPlan)
    requires
        forall|v: &str| env.requires((v,)),
    ensures
        provider@ == "ollama"@ ==> r == FetchPlan::Ollama && *final(store) == *old(store),
        provider@ != "ollama"@ && key_override is Some ==> r == (FetchPlan::Remote {
            key: key_override->0,
        }) && *final(store) == *old(store),
        provider@ != "ollama"@ && key_override is None ==> exists|key: Option<String>|
            #[trigger] key_possible(*old(store), *final(store), provider@, env, opt_v(key)) && planned_with(
                provider@,
                key,
                locale,
                r,
            ),
{
    proof {
        reveal_strlit("ollama");
    }
    if crate::text::str_eq(provider, "ollama") {
        return FetchPlan::Ollama;
    }
    let key = match key_override {
        Some(k) => Some(k),
        None => resolve_key(provider, store, env),
    };
    plan_fetch(provider, key, locale)
}

} // verus!
