use light_factory_tui::config::Config;
use light_factory_tui::i18n::Locale;
use light_factory_tui::settings::{config_file, startup_locale, Settings};

#[test]
fn maps_http_to_ws() {
    let cfg = Config::from_url("http://localhost:8080").unwrap();
    assert_eq!(cfg.http_base, "http://localhost:8080");
    assert_eq!(cfg.ws_url, "ws://localhost:8080/ws");
}

#[test]
fn maps_https_to_wss_and_trims_trailing_slash() {
    let cfg = Config::from_url("https://light-factory.fly.dev/").unwrap();
    assert_eq!(cfg.http_base, "https://light-factory.fly.dev");
    assert_eq!(cfg.ws_url, "wss://light-factory.fly.dev/ws");
}

#[test]
fn rejects_unknown_scheme() {
    assert!(Config::from_url("ftp://example.com").is_err());
}

#[test]
fn the_error_names_the_rejected_url() {
    let err = Config::from_url("ftp://example.com").unwrap_err();
    assert_eq!(err.message, "URL must start with http:// or https://, got: ftp://example.com");
}

#[test]
fn surrounding_space_and_every_trailing_slash_are_dropped() {
    let cfg = Config::from_url("  http://h:1//  ").unwrap();
    assert_eq!(cfg.http_base, "http://h:1");
    assert_eq!(cfg.ws_url, "ws://h:1/ws");
    assert_eq!(cfg.lang, Locale::En);
    assert_eq!(cfg.with_lang(Locale::Es).lang, Locale::Es);
}

#[test]
fn a_valid_lang_flag_wins_and_is_pinned() {
    let mut settings = Settings::empty();
    settings.lang = "en".to_string();
    assert_eq!(startup_locale(&mut settings, Some("es-419"), Some("en"), None), (Locale::Es, true));
    assert_eq!(settings.lang, "es");
    assert_eq!(startup_locale(&mut settings, Some("fr"), None, None), (Locale::Es, false));
    assert_eq!(settings.lang, "es");
    let mut fresh = Settings::empty();
    assert_eq!(startup_locale(&mut fresh, None, Some("es_ES.UTF-8"), None), (Locale::Es, false));
    assert_eq!(fresh.lang, "");
}

#[test]
fn the_settings_path_follows_xdg_then_home() {
    let s = |v: &str| Some(v.to_string());
    assert_eq!(config_file(s("/x"), s("/h"), "config.json"), "/x/light-factory/config.json");
    assert_eq!(config_file(s("/x/"), None, "session.json"), "/x/light-factory/session.json");
    assert_eq!(config_file(None, s("/h"), "config.json"), "/h/.config/light-factory/config.json");
    assert_eq!(config_file(None, None, "config.json"), "./light-factory/config.json");
    assert_eq!(config_file(s(""), s("/h"), "config.json"), "light-factory/config.json");
}
