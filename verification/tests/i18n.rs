use light_factory_tui::i18n::{catalog_keys, error_message, resolve_locale, t, t_with, Locale};

fn keys(locale: Locale) -> Vec<&'static str> {
    let mut v = catalog_keys(locale);
    v.sort_unstable();
    v
}

#[test]
fn es_mirrors_en_exactly() {
    assert_eq!(keys(Locale::Es), keys(Locale::En), "ES must define exactly the EN key set");
}

#[test]
fn parses_locales() {
    assert_eq!(Locale::parse("en"), Some(Locale::En));
    assert_eq!(Locale::parse("EN"), Some(Locale::En));
    assert_eq!(Locale::parse("en-US"), Some(Locale::En));
    assert_eq!(Locale::parse("en_US.UTF-8"), Some(Locale::En));
    assert_eq!(Locale::parse("es"), Some(Locale::Es));
    assert_eq!(Locale::parse("es-419"), Some(Locale::Es));
    assert_eq!(Locale::parse("fr"), None);
    assert_eq!(Locale::parse("C"), Some(Locale::En));
    assert_eq!(Locale::parse("C.UTF-8"), Some(Locale::En));
    assert_eq!(Locale::parse("POSIX"), Some(Locale::En));
    assert_eq!(Locale::parse(""), None);
}

#[test]
fn resolves_with_precedence() {
    assert_eq!(resolve_locale(Some("es"), Some("en"), Some("en"), Some("en")), Locale::Es);
    assert_eq!(resolve_locale(None, Some("es"), Some("en"), Some("en")), Locale::Es);
    assert_eq!(resolve_locale(None, None, Some("es"), None), Locale::Es);
    assert_eq!(resolve_locale(None, None, Some("en"), Some("es")), Locale::Es);
    assert_eq!(resolve_locale(None, None, Some("es"), Some("C.UTF-8")), Locale::En);
    assert_eq!(resolve_locale(None, None, None, None), Locale::En);
    assert_eq!(resolve_locale(Some("fr"), None, None, None), Locale::En);
}

#[test]
fn translates_and_falls_back() {
    assert_ne!(t(Locale::Es, "screen.sign_in"), t(Locale::En, "screen.sign_in"));
    assert_eq!(t(Locale::En, "screen.sign_in"), "Sign in");
    assert_eq!(t(Locale::Es, "screen.sign_in"), "Iniciar sesión");
    assert_eq!(t(Locale::Es, "definitely.missing"), "definitely.missing");
}

#[test]
fn interpolates_params() {
    assert_eq!(
        t_with(Locale::En, "status.connected_as", &[("email", "a@b.c")]),
        "Connected as a@b.c"
    );
    assert_eq!(
        t_with(Locale::Es, "status.connected_as", &[("email", "a@b.c")]),
        "Conectado como a@b.c"
    );
}

#[test]
fn translates_known_error_codes_only() {
    assert_eq!(error_message(Locale::Es, "invalid_credentials"), Some("Correo o código no válidos"));
    assert_eq!(error_message(Locale::En, "invalid_credentials"), Some("Invalid email or code"));
    assert_eq!(error_message(Locale::Es, "no_such_code"), None);
    assert_eq!(error_message(Locale::En, "no_such_code"), None);
}

#[test]
fn a_locale_names_its_short_code() {
    assert_eq!(Locale::En.as_str(), "en");
    assert_eq!(Locale::Es.as_str(), "es");
    assert_eq!(Locale::parse(Locale::Es.as_str()), Some(Locale::Es));
}

#[test]
fn parameters_apply_in_order_and_unknown_placeholders_stay() {
    assert_eq!(
        t_with(Locale::En, "status.ready", &[("name", "Ann"), ("email", "a@b.c")]),
        "Ready: Ann <a@b.c>"
    );
    assert_eq!(t_with(Locale::En, "status.ready", &[]), "Ready: {name} <{email}>");
}
