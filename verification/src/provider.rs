//! The active provider's display record, and the localized notice that names why the client
//! fell back to the offline provider.

use vstd::prelude::*;

use crate::i18n::{Locale, interpolate, translated};
use crate::text::{chars_of, extend_chars, string_of};

verus! {

/// Why the offline provider was selected.
#[derive(Debug, Clone, PartialEq, Eq)]
pub enum OfflineReason {
    /// No provider is configured at all.
    NothingConfigured,
    /// A provider was named, but its key variable is unset.
    NamedProviderMissingKey { selector: String, key: String },
    /// A base-URL override was rejected.
    BaseUrlRejected { var: String },
}

/// What chose the active provider.
#[derive(Debug, Clone, Copy, PartialEq, Eq, Structural)]
pub enum SelectedBy {
    OllamaEnv,
    SelectorEnv,
    StoredPreference,
    KeyPrecedence,
}

/// The active provider's id and model, for the connected header.
#[derive(Debug, Clone, PartialEq, Eq)]
pub struct ProviderInfo {
    pub id: String,
    pub model: Option<String>,
    /// `Some(reason)` when the offline provider was selected; `None` for a live provider.
    pub offline: Option<OfflineReason>,
    /// What selected the provider, when one was selected rather than fallen back to.
    pub selected_by: Option<SelectedBy>,
    /// Human-readable selection warnings, for the engine pane to surface.
    pub warnings: Vec<String>,
}

/// `id` or `id (model)`.
pub open spec fn info_display(id: Seq<char>, model: Option<Seq<char>>) -> Seq<char> {
    match model {
        Some(m) => id + " ("@ + m + ")"@,
        None => id,
    }
}

/// The localized notice for an offline reason, naming the variable(s) to set.
pub open spec fn notice(locale: Locale, reason: OfflineReason) -> Seq<char> {
    match reason {
        OfflineReason::NothingConfigured => translated(locale, "provider.offline.nothing"@),
        OfflineReason::NamedProviderMissingKey { selector, key } => interpolate(
            translated(locale, "provider.offline.missing_key"@),
            seq![("selector"@, selector@), ("key"@, key@)],
        ),
        OfflineReason::BaseUrlRejected { var } => interpolate(
            translated(locale, "provider.offline.base_url"@),
            seq![("var"@, var@)],
        ),
    }
}

impl ProviderInfo {
    /// Render as `id` or `id (model)`.
    pub fn display(&self) -> (r: String)
        ensures
            r@ == info_display(
                self.id@,
                match self.model {
                    Some(m) => Some(m@),
                    None => None,
                },
            ),
    {
        match &self.model {
            Some(model) => {
                let mut v = chars_of(self.id.as_str());
                extend_chars(&mut v, &chars_of(" ("));
                extend_chars(&mut v, &chars_of(model.as_str()));
                extend_chars(&mut v, &chars_of(")"));
                string_of(&v)
            },
            None => string_of(&chars_of(self.id.as_str())),
        }
    }
}

/// Map an offline reason to a localized notice naming the variable(s) to set.
pub fn offline_notice(locale: Locale, reason: &OfflineReason) -> (r: String)
    ensures
        r@ == notice(locale, *reason),
{
    match reason {
        OfflineReason::NothingConfigured => crate::i18n::tr(locale, "provider.offline.nothing"),
        OfflineReason::NamedProviderMissingKey { selector, key } => crate::i18n::t_with2(
            locale,
            "provider.offline.missing_key",
            "selector",
            selector.as_str(),
            "key",
            key.as_str(),
        ),
        OfflineReason::BaseUrlRejected { var } => crate::i18n::t_with1(
            locale,
            "provider.offline.base_url",
            "var",
            var.as_str(),
        ),
    }
}

} // verus!
