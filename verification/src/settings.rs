//! The persisted user settings: the locale, the preferred provider, and per-provider model
//! overrides. Only non-secret values live here; API keys are held in the credential store. The
//! file itself is read and written by the terminal layer.

use vstd::prelude::*;

use crate::i18n::{Locale, locale_code, opt_view, parsed_locale, resolved_locale};
use crate::strmap::StrMap;
use crate::text::{chars_of, extend_chars, string_of};

verus! {

/// The persisted settings.
pub struct Settings {
    pub lang: String,
    pub provider: Option<String>,
    pub models: StrMap,
}

impl Settings {
    /// No language saved, no preferred provider, no model overrides.
    pub fn empty() -> (r: Settings)
        ensures
            r.lang@ == Seq::<char>::empty(),
            r.provider is None,
            r.models@ == Map::<Seq<char>, Seq<char>>::empty(),
    {
        Settings { lang: String::new(), provider: None, models: StrMap::new() }
    }
}

impl Default for Settings {
    fn default() -> (r: Settings)
        ensures
            r.lang@ == Seq::<char>::empty(),
            r.provider is None,
            r.models@ == Map::<Seq<char>, Seq<char>>::empty(),
    {
        Settings::empty()
    }
}

/// The settings together with the file they came from, so a caller never re-derives the path.
pub struct SettingsHandle {
    pub settings: Settings,
    pub path: String,
}

impl SettingsHandle {
    /// The handle for the settings file at `path`, given what reading it produced: the file's
    /// settings, or the defaults when the file was missing, unreadable, or malformed.
    pub fn load(path: String, loaded: Option<Settings>) -> (r: SettingsHandle)
        ensures
            r.path == path,
            match loaded {
                Some(s) => r.settings == s,
                None => {
                    &&& r.settings.lang@ == Seq::<char>::empty()
                    &&& r.settings.provider is None
                    &&& r.settings.models@ == Map::<Seq<char>, Seq<char>>::empty()
                },
            },
    {
        let settings = match loaded {
            Some(s) => s,
            None => Settings::empty(),
        };
        SettingsHandle { settings, path }
    }
}

/// A saved session: the opaque bearer token plus the identifying user fields.
#[derive(Debug, Clone, PartialEq, Eq)]
pub struct Session {
    pub token: String,
    pub expires_at: i64,
    pub email: String,
    pub display_name: String,
}

impl Session {
    /// A copy of this session.
    pub fn copy(&self) -> (r: Session)
        ensures
            r == *self,
    {
        Session {
            token: self.token.clone(),
            expires_at: self.expires_at,
            email: self.email.clone(),
            display_name: self.display_name.clone(),
        }
    }
}

/// The saved language as a locale source: absent when nothing was saved.
pub open spec fn saved_lang(lang: Seq<char>) -> Option<Seq<char>> {
    if lang.len() == 0 {
        None
    } else {
        Some(lang)
    }
}

/// Resolve the interface locale at startup from `--lang`, the saved preference, `LC_ALL` and
/// `LANG` (in that order), and pin a valid `--lang` into the settings so it persists. Returns
/// the locale and whether the settings changed and should be written.
pub fn startup_locale(
    settings: &mut Settings,
    cli: Option<&str>,
    lang_env: Option<&str>,
    lc_all_env: Option<&str>,
) -> (r: (Locale, bool))
    ensures
        r.0 == resolved_locale(opt_view(cli), saved_lang(old(settings).lang@), opt_view(lang_env), opt_view(lc_all_env)),
        match cli {
            Some(raw) => match parsed_locale(raw@) {
                Some(l) => {
                    &&& r.1
                    &&& final(settings).lang@ == locale_code(l)
                    &&& final(settings).provider == old(settings).provider
                    &&& final(settings).models@ == old(settings).models@
                },
                None => !r.1 && *final(settings) == *old(settings),
            },
            None => !r.1 && *final(settings) == *old(settings),
        },
{
    let saved_copy = string_of(&chars_of(settings.lang.as_str()));
    let saved = if chars_of(saved_copy.as_str()).len() == 0 {
        None
    } else {
        Some(saved_copy.as_str())
    };
    let locale = crate::i18n::resolve_locale(cli, saved, lang_env, lc_all_env);
    let mut pinned = false;
    if let Some(raw) = cli {
        if let Some(parsed) = Locale::parse(raw) {
            settings.lang = string_of(&chars_of(parsed.as_str()));
            pinned = true;
        }
    }
    (locale, pinned)
}

/// `dir` joined with the relative path component `name`, `/`-separated: no separator is added
/// after an empty directory or one that already ends in `/`.
pub open spec fn joined(dir: Seq<char>, name: Seq<char>) -> Seq<char> {
    if dir.len() == 0 || dir.last() == '/' {
        dir + name
    } else {
        dir + seq!['/'] + name
    }
}

/// The configuration directory's base: `$XDG_CONFIG_HOME` when set, else `$HOME/.config`, else
/// the working directory.
pub open spec fn config_base(xdg: Option<Seq<char>>, home: Option<Seq<char>>) -> Seq<char> {
    match xdg {
        Some(x) => x,
        None => match home {
            Some(h) => h + "/.config"@,
            None => "."@,
        },
    }
}

/// The path of the client's file `name` (`config.json` or `session.json`) in its
/// configuration directory.
pub open spec fn config_path(xdg: Option<Seq<char>>, home: Option<Seq<char>>, name: Seq<char>) -> Seq<char> {
    joined(joined(config_base(xdg, home), "light-factory"@), name)
}

/// `dir` joined with `name`.
fn join_path(dir: &Vec<char>, name: &str) -> (r: Vec<char>)
    ensures
        r@ == joined(dir@, name@),
{
    let mut v = dir.clone();
    assert(v@ == dir@);
    let n = v.len();
    if n > 0 && v[n - 1] != '/' {
        v.push('/');
    }
    extend_chars(&mut v, &chars_of(name));
    v
}

/// The path of the client's file `name` in its configuration directory, given the values of
/// `XDG_CONFIG_HOME` and `HOME` (when set).
pub fn config_file(xdg: Option<String>, home: Option<String>, name: &str) -> (r: String)
    ensures
        r@ == config_path(opt_string_v(xdg), opt_string_v(home), name@),
{
    proof {
        reveal_strlit("/.config");
        reveal_strlit(".");
        reveal_strlit("light-factory");
    }
    let base: Vec<char> = match &xdg {
        Some(x) => chars_of(x.as_str()),
        None => match &home {
            Some(h) => {
                let mut v = chars_of(h.as_str());
                extend_chars(&mut v, &chars_of("/.config"));
                v
            },
            None => chars_of("."),
        },
    };
    let dir = join_path(&base, "light-factory");
    string_of(&join_path(&dir, name))
}

/// The view of an optional string.
pub open spec fn opt_string_v(o: Option<String>) -> Option<Seq<char>> {
    match o {
        Some(s) => Some(s@),
        None => None,
    }
}

} // verus!
