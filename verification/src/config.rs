//! Client configuration resolved from the command line and environment: the server's base HTTP
//! URL and the WebSocket URL derived from it.

use vstd::prelude::*;

use crate::i18n::Locale;
use crate::text::{
    chars_of, chars_start_with, extend_chars, replace_all, replace_chars, starts_with, string_of,
    trim, trim_chars, trim_end_char, trim_end_char_chars,
};

verus! {

/// The base HTTP URL of the server, the derived WebSocket URL, and the interface locale.
#[derive(Debug, Clone)]
pub struct Config {
    pub http_base: String,
    pub ws_url: String,
    pub lang: Locale,
}

/// A base URL that names neither `http://` nor `https://`.
#[derive(Debug, Clone, PartialEq, Eq)]
pub struct ConfigError {
    pub message: String,
}

/// The base URL as the client keeps it: trimmed, without trailing slashes.
pub open spec fn http_base_of(base: Seq<char>) -> Seq<char> {
    trim_end_char(trim(base), '/')
}

/// The WebSocket base for an HTTP base: `https://` maps to `wss://`, `http://` to `ws://`;
/// anything else has none.
pub open spec fn ws_base_of(http_base: Seq<char>) -> Option<Seq<char>> {
    if starts_with(http_base, "https://"@) {
        Some(replace_all(http_base, "https://"@, "wss://"@))
    } else if starts_with(http_base, "http://"@) {
        Some(replace_all(http_base, "http://"@, "ws://"@))
    } else {
        None
    }
}

/// The rejection message for `base`.
pub open spec fn scheme_error(base: Seq<char>) -> Seq<char> {
    "URL must start with http:// or https://, got: "@ + base
}

impl Config {
    /// Build a configuration from a base URL: `http://` maps to `ws://` and `https://` to
    /// `wss://`, the WebSocket endpoint is `/ws`; anything else is rejected. The locale starts
    /// as English.
    pub fn from_url(base: &str) -> (r: Result<Config, ConfigError>)
        ensures
            match r {
                Ok(cfg) => {
                    &&& ws_base_of(http_base_of(base@)) is Some
                    &&& cfg.http_base@ == http_base_of(base@)
                    &&& cfg.ws_url@ == ws_base_of(http_base_of(base@))->0 + "/ws"@
                    &&& cfg.lang == Locale::En
                },
                Err(e) => {
                    &&& ws_base_of(http_base_of(base@)) is None
                    &&& e.message@ == scheme_error(base@)
                },
            },
    {
        let http = trim_end_char_chars(&trim_chars(&chars_of(base)), '/');
        proof {
            reveal_strlit("https://");
            reveal_strlit("http://");
        }
        let ws = if chars_start_with(&http, &chars_of("https://")) {
            replace_chars(&http, &chars_of("https://"), &chars_of("wss://"))
        } else if chars_start_with(&http, &chars_of("http://")) {
            replace_chars(&http, &chars_of("http://"), &chars_of("ws://"))
        } else {
            let mut msg = chars_of("URL must start with http:// or https://, got: ");
            extend_chars(&mut msg, &chars_of(base));
            return Err(ConfigError { message: string_of(&msg) });
        };
        let mut url = ws;
        extend_chars(&mut url, &chars_of("/ws"));
        Ok(Config { http_base: string_of(&http), ws_url: string_of(&url), lang: Locale::En })
    }

    /// This configuration with the interface locale set to `lang`.
    pub fn with_lang(self, lang: Locale) -> (r: Config)
        ensures
            r.http_base == self.http_base,
            r.ws_url == self.ws_url,
            r.lang == lang,
    {
        Config { lang, ..self }
    }
}

} // verus!
