//! Translation catalog and locale resolution for the client.
//!
//! Every user-facing string lives in one table whose rows hold a key with its English and
//! Spanish text, so the two languages define exactly the same key set. A missing key falls back
//! to the key itself, a loud sentinel for a developer. Server errors are translated by their
//! stable `code`; an unknown code yields `None` so the caller can show the server's own message.

use vstd::prelude::*;

use crate::text::{chars_of, replace_chars, replace_all, str_eq, string_of};

verus! {

/// The supported locales.
#[derive(Debug, Clone, Copy, PartialEq, Eq, Structural)]
pub enum Locale {
    En,
    Es,
}

/// A catalog row: the key, its English text, its Spanish text.
pub type CatalogRow = (Seq<char>, Seq<char>, Seq<char>);

/// Whether `c` separates the primary language subtag from the rest (`-`, `_` or `.`).
pub open spec fn subtag_separator(c: char) -> bool {
    c == '-' || c == '_' || c == '.'
}

/// The primary subtag of a locale string: everything before the first separator.
pub open spec fn primary_subtag(s: Seq<char>) -> Seq<char>
    decreases s.len(),
{
    if s.len() == 0 || subtag_separator(s[0]) {
        Seq::empty()
    } else {
        seq![s[0]] + primary_subtag(s.drop_first())
    }
}

/// ASCII lowercase of one character.
pub open spec fn ascii_lower(c: char) -> char {
    if 'A' <= c <= 'Z' {
        ((c as u32) + 32) as char
    } else {
        c
    }
}

/// The locale a `--lang`, saved or environment value names, if any: the primary subtag,
/// lowercased, must be `en` or `es`; `c` and `posix` name the default (English) locale.
pub open spec fn parsed_locale(s: Seq<char>) -> Option<Locale> {
    let p = primary_subtag(s).map_values(|c: char| ascii_lower(c));
    if p == seq!['e', 'n'] || p == seq!['c'] || p == seq!['p', 'o', 's', 'i', 'x'] {
        Some(Locale::En)
    } else if p == seq!['e', 's'] {
        Some(Locale::Es)
    } else {
        None
    }
}

/// The short code of a locale.
pub open spec fn locale_code(l: Locale) -> Seq<char> {
    match l {
        Locale::En => seq!['e', 'n'],
        Locale::Es => seq!['e', 's'],
    }
}

/// The first locale named by the given sources, tried in order, or English.
pub open spec fn resolved_locale(
    cli: Option<Seq<char>>,
    saved: Option<Seq<char>>,
    lang_env: Option<Seq<char>>,
    lc_all_env: Option<Seq<char>>,
) -> Locale {
    if cli is Some && parsed_locale(cli->0) is Some {
        parsed_locale(cli->0)->0
    } else if saved is Some && parsed_locale(saved->0) is Some {
        parsed_locale(saved->0)->0
    } else if lc_all_env is Some && parsed_locale(lc_all_env->0) is Some {
        parsed_locale(lc_all_env->0)->0
    } else if lang_env is Some && parsed_locale(lang_env->0) is Some {
        parsed_locale(lang_env->0)->0
    } else {
        Locale::En
    }
}

/// The text of a row in `locale`.
pub open spec fn column(e: CatalogRow, locale: Locale) -> Seq<char> {
    match locale {
        Locale::En => e.1,
        Locale::Es => e.2,
    }
}

/// The text of the first row of `cat` whose key is `key`, in `locale`.
pub open spec fn lookup_in(cat: Seq<CatalogRow>, locale: Locale, key: Seq<char>) -> Option<Seq<char>>
    decreases cat.len(),
{
    if cat.len() == 0 {
        None
    } else if cat[0].0 == key {
        Some(column(cat[0], locale))
    } else {
        lookup_in(cat.drop_first(), locale, key)
    }
}

/// The catalog text for `key` in `locale`, if the key is defined.
pub open spec fn lookup(locale: Locale, key: Seq<char>) -> Option<Seq<char>> {
    lookup_in(catalog(), locale, key)
}

/// What `t` gives: the catalog text, or the key itself when the key is undefined.
pub open spec fn translated(locale: Locale, key: Seq<char>) -> Seq<char> {
    match lookup(locale, key) {
        Some(text) => text,
        None => key,
    }
}

/// The placeholder `{name}`.
pub open spec fn placeholder(name: Seq<char>) -> Seq<char> {
    seq!['{'] + name + seq!['}']
}

/// `s` with each `{name}` replaced by its value, the parameters applied in order.
pub open spec fn interpolate(s: Seq<char>, params: Seq<(Seq<char>, Seq<char>)>) -> Seq<char>
    decreases params.len(),
{
    if params.len() == 0 {
        s
    } else {
        interpolate(
            replace_all(s, placeholder(params[0].0), params[0].1),
            params.drop_first(),
        )
    }
}

/// The views of a parameter list.
pub open spec fn param_views(params: Seq<(&str, &str)>) -> Seq<(Seq<char>, Seq<char>)> {
    params.map_values(|p: (&str, &str)| (p.0@, p.1@))
}

/// The catalog key under which the error `code` is translated.
pub open spec fn error_key(code: Seq<char>) -> Seq<char> {
    seq!['e', 'r', 'r', 'o', 'r', '.'] + code
}

/// The translation of the error `code`, present only when the code is defined.
pub open spec fn error_text(locale: Locale, code: Seq<char>) -> Option<Seq<char>> {
    lookup(locale, error_key(code))
}

/// The views of the catalog rows.
pub open spec fn rows_view(rows: Seq<(&str, &str, &str)>) -> Seq<CatalogRow> {
    rows.map_values(|r: (&str, &str, &str)| (r.0@, r.1@, r.2@))
}

impl Locale {
    /// Parse a locale from a `--lang`, saved or environment value, taking the primary subtag
    /// before `-`, `_`, or `.`. `en-US`, `en_US.UTF-8` → `En`; `es-419` → `Es`; the POSIX `C`,
    /// `C.UTF-8` and `POSIX` → `En`; anything else → `None`.
    pub fn parse(raw: &str) -> (r: Option<Locale>)
        ensures
            r == parsed_locale(raw@),
    {
        let v = chars_of(raw);
        let mut n: usize = 0;
        while n < v.len() && !(v[n] == '-' || v[n] == '_' || v[n] == '.')
            invariant
                n <= v.len(),
                forall|k: int| 0 <= k < n ==> !subtag_separator(#[trigger] v@[k]),
            decreases v.len() - n,
        {
            n = n + 1;
        }
        proof {
            lemma_primary_subtag(v@, n as int);
        }
        let ghost p = primary_subtag(raw@).map_values(|c: char| ascii_lower(c));
        assert(p.len() == n);
        if n == 2 && lower_is(v[0], 'e') && lower_is(v[1], 'n') {
            assert(p =~= seq!['e', 'n']);
            Some(Locale::En)
        } else if n == 2 && lower_is(v[0], 'e') && lower_is(v[1], 's') {
            assert(p =~= seq!['e', 's']);
            Some(Locale::Es)
        } else if n == 1 && lower_is(v[0], 'c') {
            assert(p =~= seq!['c']);
            Some(Locale::En)
        } else if n == 5 && lower_is(v[0], 'p') && lower_is(v[1], 'o') && lower_is(v[2], 's')
            && lower_is(v[3], 'i') && lower_is(v[4], 'x') {
            assert(p =~= seq!['p', 'o', 's', 'i', 'x']);
            Some(Locale::En)
        } else {
            proof {
                if n == 2 {
                    assert(p[0] != 'e' || p[1] != 'n');
                    assert(p[0] != 'e' || p[1] != 's');
                } else if n == 1 {
                    assert(p[0] != 'c');
                } else if n == 5 {
                    assert(p[0] != 'p' || p[1] != 'o' || p[2] != 's' || p[3] != 'i' || p[4]
                        != 'x');
                }
                assert(p != seq!['e', 'n']);
                assert(p != seq!['e', 's']);
                assert(p != seq!['c']);
                assert(p != seq!['p', 'o', 's', 'i', 'x']);
            }
            None
        }
    }

    /// The short code of this locale: `"en"` or `"es"`.
    pub fn as_str(self) -> (r: &'static str)
        ensures
            r@ == locale_code(self),
    {
        match self {
            Locale::En => {
                proof {
                    reveal_strlit("en");
                }
                "en"
            },
            Locale::Es => {
                proof {
                    reveal_strlit("es");
                }
                "es"
            },
        }
    }
}

/// Whether the ASCII lowercase of `c` is the lowercase letter `lower`.
fn lower_is(c: char, lower: char) -> (r: bool)
    requires
        'a' <= lower <= 'z',
    ensures
        r == (ascii_lower(c) == lower),
{
    let u = c as u32;
    let l = lower as u32;
    assert(('A' <= c <= 'Z') == (65 <= u <= 90));
    u == l || u + 32 == l
}

proof fn lemma_primary_subtag(s: Seq<char>, n: int)
    requires
        0 <= n <= s.len(),
        forall|k: int| 0 <= k < n ==> !subtag_separator(#[trigger] s[k]),
        n == s.len() || subtag_separator(s[n]),
    ensures
        primary_subtag(s) == s.take(n),
    decreases n,
{
    if n > 0 {
        lemma_primary_subtag(s.drop_first(), n - 1);
        assert(seq![s[0]] + s.drop_first().take(n - 1) =~= s.take(n));
    } else {
        assert(s.take(0) =~= Seq::<char>::empty());
    }
}

/// The catalog text for `key` in `locale`, if the key is defined.
pub fn lookup_key(locale: Locale, key: &str) -> (r: Option<&'static str>)
    ensures
        match r {
            Some(text) => lookup(locale, key@) == Some(text@),
            None => lookup(locale, key@) is None,
        },
{
    let rows = catalog_rows();
    let mut i: usize = 0;
    proof {
        assert(rows_view(rows@).skip(0) =~= catalog());
    }
    while i < rows.len()
        invariant
            i <= rows.len(),
            rows_view(rows@) == catalog(),
            lookup_in(catalog(), locale, key@) == lookup_in(
                rows_view(rows@).skip(i as int),
                locale,
                key@,
            ),
        decreases rows.len() - i,
    {
        let row = rows[i];
        let ghost rest = rows_view(rows@).skip(i as int);
        assert(rest[0] == (row.0@, row.1@, row.2@));
        assert(rest.drop_first() =~= rows_view(rows@).skip(i + 1));
        if str_eq(row.0, key) {
            return match locale {
                Locale::En => Some(row.1),
                Locale::Es => Some(row.2),
            };
        }
        i = i + 1;
    }
    None
}

/// Translate `key` for `locale`, falling back to `key` itself when it is undefined.
pub fn t(locale: Locale, key: &str) -> (r: &str)
    ensures
        r@ == translated(locale, key@),
{
    match lookup_key(locale, key) {
        Some(text) => text,
        None => key,
    }
}

/// Translate `key` and substitute each `{name}` placeholder with its value from `params`.
pub fn t_with(locale: Locale, key: &str, params: &[(&str, &str)]) -> (r: String)
    ensures
        r@ == interpolate(translated(locale, key@), param_views(params@)),
{
    let mut out = chars_of(t(locale, key));
    let mut i: usize = 0;
    let ghost views = param_views(params@);
    assert(views.skip(0) =~= views);
    while i < params.len()
        invariant
            i <= params.len(),
            views == param_views(params@),
            interpolate(out@, views.skip(i as int)) == interpolate(
                translated(locale, key@),
                views,
            ),
        decreases params.len() - i,
    {
        let (name, value) = params[i];
        let mut pat: Vec<char> = Vec::new();
        pat.push('{');
        let name_chars = chars_of(name);
        crate::text::extend_chars(&mut pat, &name_chars);
        pat.push('}');
        proof {
            assert(views[i as int] == (name@, value@));
            assert(pat@ =~= placeholder(name@));
            assert(views.skip(i as int).drop_first() =~= views.skip(i + 1));
        }
        out = replace_chars(&out, &pat, &chars_of(value));
        i = i + 1;
    }
    proof {
        assert(views.skip(params.len() as int) =~= Seq::<(Seq<char>, Seq<char>)>::empty());
    }
    string_of(&out)
}

/// Translate `key` into an owned string.
pub fn tr(locale: Locale, key: &str) -> (r: String)
    ensures
        r@ == translated(locale, key@),
{
    string_of(&chars_of(t(locale, key)))
}

/// Translate `key` with the single parameter `{name}` = `value`.
pub fn t_with1(locale: Locale, key: &str, name: &str, value: &str) -> (r: String)
    ensures
        r@ == interpolate(translated(locale, key@), seq![(name@, value@)]),
{
    let params = [(name, value)];
    assert(param_views(params@) =~= seq![(name@, value@)]);
    t_with(locale, key, &params)
}

/// Translate `key` with the two parameters `{n1}` = `v1` and `{n2}` = `v2`, applied in order.
pub fn t_with2(locale: Locale, key: &str, n1: &str, v1: &str, n2: &str, v2: &str) -> (r: String)
    ensures
        r@ == interpolate(translated(locale, key@), seq![(n1@, v1@), (n2@, v2@)]),
{
    let params = [(n1, v1), (n2, v2)];
    assert(param_views(params@) =~= seq![(n1@, v1@), (n2@, v2@)]);
    t_with(locale, key, &params)
}

/// Translate a stable server or client error `code`, or `None` when the code is unknown (the
/// caller then shows the server's message verbatim).
pub fn error_message(locale: Locale, code: &str) -> (r: Option<&'static str>)
    ensures
        match r {
            Some(text) => error_text(locale, code@) == Some(text@),
            None => error_text(locale, code@) is None,
        },
{
    let mut key = chars_of("error.");
    proof {
        reveal_strlit("error.");
    }
    crate::text::extend_chars(&mut key, &chars_of(code));
    let key = string_of(&key);
    assert(key@ =~= error_key(code@));
    lookup_key(locale, key.as_str())
}

/// Resolve the interface locale: `--lang`, then the saved preference, then `LC_ALL`, then
/// `LANG`, then English. A value that names no locale falls through to the next source.
pub fn resolve_locale(
    cli: Option<&str>,
    saved: Option<&str>,
    lang_env: Option<&str>,
    lc_all_env: Option<&str>,
) -> (r: Locale)
    ensures
        r == resolved_locale(
            opt_view(cli),
            opt_view(saved),
            opt_view(lang_env),
            opt_view(lc_all_env),
        ),
{
    if let Some(raw) = cli {
        if let Some(locale) = Locale::parse(raw) {
            return locale;
        }
    }
    if let Some(raw) = saved {
        if let Some(locale) = Locale::parse(raw) {
            return locale;
        }
    }
    if let Some(raw) = lc_all_env {
        if let Some(locale) = Locale::parse(raw) {
            return locale;
        }
    }
    if let Some(raw) = lang_env {
        if let Some(locale) = Locale::parse(raw) {
            return locale;
        }
    }
    Locale::En
}

/// The view of an optional string.
pub open spec fn opt_view(s: Option<&str>) -> Option<Seq<char>> {
    match s {
        Some(x) => Some(x@),
        None => None,
    }
}

/// The keys that have a translation in `locale`, in catalog order.
pub fn catalog_keys(locale: Locale) -> (r: Vec<&'static str>)
    ensures
        r@.len() == catalog().len(),
        forall|i: int| 0 <= i < r@.len() ==> (#[trigger] r@[i])@ == catalog()[i].0,
{
    let rows = catalog_rows();
    let mut keys: Vec<&'static str> = Vec::new();
    let mut i: usize = 0;
    while i < rows.len()
        invariant
            i <= rows.len(),
            rows_view(rows@) == catalog(),
            keys@.len() == i,
            forall|k: int| 0 <= k < i ==> (#[trigger] keys@[k])@ == catalog()[k].0,
        decreases rows.len() - i,
    {
        assert(rows_view(rows@)[i as int].0 == rows@[i as int].0@);
        keys.push(rows[i].0);
        i = i + 1;
    }
    keys
}

/// Every key is defined in Spanish exactly when it is defined in English: the two languages
/// share one key set.
pub proof fn lemma_es_mirrors_en(key: Seq<char>)
    ensures
        (lookup(Locale::Es, key) is Some) == (lookup(Locale::En, key) is Some),
{
    lemma_lookup_defined(catalog(), key);
}

proof fn lemma_lookup_defined(cat: Seq<CatalogRow>, key: Seq<char>)
    ensures
        (lookup_in(cat, Locale::Es, key) is Some) == (lookup_in(cat, Locale::En, key) is Some),
    decreases cat.len(),
{
    if cat.len() > 0 && cat[0].0 != key {
        lemma_lookup_defined(cat.drop_first(), key);
    }
}

/// A translated error code is always a defined catalog text in English too; an unknown code is
/// unknown in every locale.
pub proof fn lemma_error_codes_share_locales(code: Seq<char>)
    ensures
        (error_text(Locale::Es, code) is Some) == (error_text(Locale::En, code) is Some),
{
    lemma_lookup_defined(catalog(), error_key(code));
}

/// The translation catalog.
pub open spec fn catalog() -> Seq<CatalogRow> {
    seq![
        ("status.not_signed_in"@, "Not signed in"@, "Sin iniciar sesión"@),
        ("status.device_cancelled"@, "Device login cancelled"@, "Inicio de sesión del dispositivo cancelado"@),
        ("status.unknown_command"@, "unknown command: {command}"@, "comando desconocido: {command}"@),
        ("status.requesting_device_code"@, "Requesting device code..."@, "Solicitando código del dispositivo..."@),
        ("status.waiting_approval"@, "Waiting for browser approval..."@, "Esperando aprobación en el navegador..."@),
        ("status.device_failed"@, "Device login failed"@, "Falló el inicio de sesión del dispositivo"@),
        ("status.email_required"@, "Email is required"@, "El correo electrónico es obligatorio"@),
        ("status.code_required"@, "TOTP code is required"@, "El código TOTP es obligatorio"@),
        ("status.signing_in"@, "Signing in..."@, "Iniciando sesión..."@),
        ("status.creating_account"@, "Creating account..."@, "Creando cuenta..."@),
        ("status.scan_confirm"@, "Scan the QR / enter the secret, then confirm"@, "Escanea el QR o introduce el secreto y confirma"@),
        ("status.confirming"@, "Confirming..."@, "Confirmando..."@),
        ("status.connecting"@, "Connecting..."@, "Conectando..."@),
        ("status.connected_as"@, "Connected as {email}"@, "Conectado como {email}"@),
        ("status.connect_failed"@, "could not connect: {error}"@, "no se pudo conectar: {error}"@),
        ("status.ws_failed"@, "Signed in, but the WebSocket failed"@, "Sesión iniciada, pero el WebSocket falló"@),
        ("status.signed_out"@, "Signed out"@, "Sesión cerrada"@),
        ("status.ready"@, "Ready: {name} <{email}>"@, "Listo: {name} <{email}>"@),
        ("status.pong"@, "Pong {nonce}"@, "Pong {nonce}"@),
        ("status.ping"@, "Ping {nonce}"@, "Ping {nonce}"@),
        ("status.disconnected"@, "Disconnected: {reason}"@, "Desconectado: {reason}"@),
        ("status.lang_set"@, "Language set to {lang}"@, "Idioma cambiado a {lang}"@),
        ("status.lang_invalid"@, "Unknown language; use 'en' or 'es'"@, "Idioma desconocido; usa 'en' o 'es'"@),
        ("logout_done"@, "Logged out."@, "Sesión cerrada."@),
        ("screen.sign_in"@, "Sign in"@, "Iniciar sesión"@),
        ("screen.create_account"@, "Create account"@, "Crear cuenta"@),
        ("screen.complete_registration"@, "Complete registration"@, "Completar registro"@),
        ("screen.device_login"@, "Device login"@, "Inicio de sesión del dispositivo"@),
        ("field.email"@, "Email"@, "Correo electrónico"@),
        ("field.code"@, "Code"@, "Código"@),
        ("field.name"@, "Name"@, "Nombre"@),
        ("hint.sign_in"@, "Passwordless: enter the 6-digit code from your authenticator app"@, "Sin contraseña: introduce el código de 6 dígitos de tu aplicación de autenticación"@),
        ("hint.register"@, "Registering sends a TOTP secret to pair with your authenticator app"@, "Al registrarte se envía un secreto TOTP para vincular tu aplicación de autenticación"@),
        ("hint.account"@, "Account: {email}"@, "Cuenta: {email}"@),
        ("hint.open_url"@, "Open this URL (or scan it as a QR code) in your authenticator app:"@, "Abre esta URL (o escanéala como código QR) en tu aplicación de autenticación:"@),
        ("hint.manual_secret"@, "Manual secret: "@, "Secreto manual: "@),
        ("hint.device_line1"@, "A browser window should have opened. Sign in — or create an"@, "Se debería haber abierto una ventana del navegador. Inicia sesión — o crea una"@),
        ("hint.device_line2"@, "account — there, then click Authorize."@, "cuenta — allí, y luego haz clic en Autorizar."@),
        ("hint.device_visit"@, "If the browser did not open, visit:"@, "Si el navegador no se abrió, visita:"@),
        ("hint.device_code_filled"@, "This device code is already filled in on the page:"@, "Este código de dispositivo ya está rellenado en la página:"@),
        ("hint.device_waiting"@, "Waiting for approval in your browser..."@, "Esperando aprobación en tu navegador..."@),
        ("hint.not_signed_in"@, "not signed in"@, "sin iniciar sesión"@),
        ("hint.no_messages"@, "No messages yet — press 'p' to ping the server"@, "Aún no hay mensajes: pulsa 'p' para hacer ping al servidor"@),
        ("hint.help"@, "Ctrl-P: help"@, "Ctrl-P: ayuda"@),
        ("hint.help_close"@, "Ctrl-P / Esc: close"@, "Ctrl-P / Esc: cerrar"@),
        ("hint.device_cancel"@, "Esc: cancel device login"@, "Esc: cancelar inicio de sesión del dispositivo"@),
        ("title.activity"@, "Activity"@, "Actividad"@),
        ("info.connected"@, "{name} <{email}>  ·  provider: {provider}  ·  pongs: {pongs}"@, "{name} <{email}>  ·  proveedor: {provider}  ·  pongs: {pongs}"@),
        ("provider.offline.nothing"@, "No provider configured — set ANTHROPIC_API_KEY (or another provider's key) or LIGHT_OLLAMA=1"@, "No hay proveedor configurado — define ANTHROPIC_API_KEY (o la clave de otro proveedor) o LIGHT_OLLAMA=1"@),
        ("provider.offline.missing_key"@, "Provider '{selector}' selected but {key} is not set — falling back to offline"@, "Proveedor '{selector}' seleccionado pero {key} no está definida — usando modo sin conexión"@),
        ("provider.offline.base_url"@, "{var} was rejected — falling back to offline"@, "{var} fue rechazada — usando modo sin conexión"@),
        ("status.ask_empty"@, "Usage: /ask <prompt>"@, "Uso: /ask <indicación>"@),
        ("status.ask_not_connected"@, "/ask is available after you sign in"@, "/ask está disponible después de iniciar sesión"@),
        ("error.invalid_credentials"@, "Invalid email or code"@, "Correo o código no válidos"@),
        ("error.email_taken"@, "An account with that email already exists"@, "Ya existe una cuenta con ese correo electrónico"@),
        ("error.invalid_email"@, "Invalid email address"@, "Dirección de correo electrónico no válida"@),
        ("error.invalid_totp_code"@, "Invalid TOTP code"@, "Código TOTP no válido"@),
        ("error.invalid_challenge"@, "Invalid or expired challenge"@, "Desafío no válido o caducado"@),
        ("error.invalid_session"@, "Invalid or expired session"@, "Sesión no válida o caducada"@),
        ("error.invalid_grant"@, "Invalid device code"@, "Código de dispositivo no válido"@),
        ("error.expired_token"@, "Device authorization expired"@, "La autorización del dispositivo ha caducado"@),
        ("error.storage_error"@, "Storage error"@, "Error de almacenamiento"@),
        ("error.internal_error"@, "Internal server error"@, "Error interno del servidor"@),
        ("error.invalid_json"@, "Invalid request"@, "Solicitud no válida"@),
        ("error.network"@, "Could not reach the server"@, "No se pudo contactar con el servidor"@),
        ("error.decode"@, "Unexpected response from the server"@, "Respuesta inesperada del servidor"@),
        ("error.bad_message"@, "Could not parse server message"@, "No se pudo analizar el mensaje del servidor"@),
        ("error.ws_closed"@, "Connection closed"@, "Conexión cerrada"@),
        ("error.turn_in_progress"@, "a turn is already running; prompt ignored"@, "ya hay un turno en curso; indicación ignorada"@),
        ("error.no_provider_configured"@, "No provider configured — set an API key or LIGHT_OLLAMA=1"@, "No hay proveedor configurado — define una clave de API o LIGHT_OLLAMA=1"@),
        ("engine.plan_proposed"@, "plan proposed: {summary}"@, "plan propuesto: {summary}"@),
        ("engine.plan_approved"@, "plan approved"@, "plan aprobado"@),
        ("engine.plan_rejected"@, "plan rejected"@, "plan rechazado"@),
        ("engine.file_edit"@, "wrote {path} ({bytes} bytes)"@, "escrito {path} ({bytes} bytes)"@),
        ("engine.command_run"@, "ran {command} (exit {code})"@, "ejecutado {command} (salida {code})"@),
        ("engine.approval_needed"@, "approval needed: {detail}"@, "se requiere aprobación: {detail}"@),
        ("engine.token_usage"@, "tokens: {input} in / {output} out"@, "tokens: {input} entrada / {output} salida"@),
        ("engine.turn_complete"@, "turn complete"@, "turno completado"@),
        ("engine.turn_ended"@, "turn ended"@, "turno finalizado"@),
        ("engine.plan_prompt"@, "Plan: {summary}\n{steps} step(s), {paths} write path(s), {commands} command(s)"@, "Plan: {summary}\n{steps} paso(s), {paths} ruta(s) de escritura, {commands} comando(s)"@),
        ("engine.reason_outside_scope"@, "outside the approved scope: {what}"@, "fuera del alcance aprobado: {what}"@),
        ("engine.reason_sensitive"@, "sensitive path: {path}"@, "ruta sensible: {path}"@),
        ("engine.approve_keys"@, "[a] approve  [d] deny"@, "[a] aprobar  [d] denegar"@),
        ("engine.dropped_events"@, "dropped {count} engine event(s)"@, "se omitieron {count} evento(s) del motor"@),
        ("title.engine"@, "Engine"@, "Motor"@),
        ("status.engine_started"@, "Engine session started"@, "Sesión del motor iniciada"@),
        ("provider.reason.ollama_env"@, "LIGHT_OLLAMA"@, "LIGHT_OLLAMA"@),
        ("provider.reason.selector_env"@, "LIGHT_REMOTE_PROVIDER"@, "LIGHT_REMOTE_PROVIDER"@),
        ("provider.reason.stored"@, "stored preference"@, "preferencia guardada"@),
        ("provider.reason.key_precedence"@, "key precedence"@, "precedencia de claves"@),
        ("provider.reason.offline"@, "offline"@, "sin conexión"@),
        ("provider.key.env"@, "env"@, "entorno"@),
        ("provider.key.keyring"@, "keyring"@, "llavero"@),
        ("provider.key.none"@, "none"@, "ninguna"@),
        ("provider.list_active"@, "active: {provider} ({reason})"@, "activo: {provider} ({reason})"@),
        ("provider.list_available"@, "available: {list}"@, "disponibles: {list}"@),
        ("key.list"@, "keys: {list}"@, "claves: {list}"@),
        ("status.provider_set"@, "Provider set to {provider}"@, "Proveedor cambiado a {provider}"@),
        ("status.provider_invalid"@, "Unknown provider; use anthropic|openai|gemini|deepseek|ollama"@, "Proveedor desconocido; usa anthropic|openai|gemini|deepseek|ollama"@),
        ("status.model_set"@, "Model set to {model}"@, "Modelo cambiado a {model}"@),
        ("status.model_empty"@, "Usage: /model <id>"@, "Uso: /model <id>"@),
        ("status.model_unsupported"@, "The active provider has no model to set"@, "El proveedor activo no tiene modelo que configurar"@),
        ("status.key_set"@, "API key saved for {provider}"@, "Clave de API guardada para {provider}"@),
        ("status.key_cleared"@, "API key cleared for {provider}"@, "Clave de API eliminada para {provider}"@),
        ("status.key_failed"@, "Could not save the API key for {provider}: {error}"@, "No se pudo guardar la clave de API para {provider}: {error}"@),
        ("status.key_unsupported"@, "{provider} does not take an API key"@, "{provider} no usa una clave de API"@),
        ("status.key_enter"@, "Enter API key for {provider} (input hidden)"@, "Introduce la clave de API para {provider} (entrada oculta)"@),
        ("status.key_empty"@, "No key entered; nothing saved"@, "No se introdujo ninguna clave; no se guardó nada"@),
        ("field.key"@, "API key"@, "Clave de API"@),
        ("hint.key"@, "Enter: save · Esc: cancel"@, "Enter: guardar · Esc: cancelar"@),
        ("title.help"@, "Help"@, "Ayuda"@),
        ("help.section.global"@, "Global"@, "Global"@),
        ("help.global.help"@, "Ctrl-P  this help"@, "Ctrl-P  esta ayuda"@),
        ("help.global.quit"@, "Ctrl-C  quit"@, "Ctrl-C  salir"@),
        ("help.section.forms"@, "Forms"@, "Formularios"@),
        ("help.forms.navigate"@, "Tab / ↑↓  next field"@, "Tab / ↑↓  siguiente campo"@),
        ("help.forms.submit"@, "Enter  submit"@, "Enter  enviar"@),
        ("help.forms.command"@, "/  command"@, "/  comando"@),
        ("help.forms.back"@, "Esc  back / close"@, "Esc  atrás / cerrar"@),
        ("help.section.connected"@, "Connected"@, "Conectado"@),
        ("help.connected.ping"@, "p  ping server"@, "p  ping al servidor"@),
        ("help.connected.signout"@, "o  sign out"@, "o  cerrar sesión"@),
        ("help.connected.engine"@, "e  engine mode"@, "e  modo motor"@),
        ("help.connected.quit"@, "q  quit"@, "q  salir"@),
        ("help.section.engine"@, "Engine"@, "Motor"@),
        ("help.engine.send"@, "Enter  send prompt"@, "Enter  enviar indicación"@),
        ("help.engine.back"@, "Esc  back"@, "Esc  volver"@),
        ("help.engine.approve"@, "a / d  approve / deny (while a decision is pending)"@, "a / d  aprobar / denegar (solo con una decisión pendiente)"@),
        ("help.section.commands"@, "Commands"@, "Comandos"@),
        ("help.commands.ask"@, "/ask <prompt>  completion"@, "/ask <indicación>  completar"@),
        ("help.commands.provider"@, "/provider [name]  select provider"@, "/provider [nombre]  seleccionar proveedor"@),
        ("help.commands.model"@, "/model <id>  set model"@, "/model <id>  configurar modelo"@),
        ("help.commands.key"@, "/key [provider] [clear]  API key"@, "/key [proveedor] [clear]  clave de API"@),
        ("help.commands.auth"@, "/auth/login  /auth/logout  sign in / out"@, "/auth/login  /auth/logout  iniciar / cerrar sesión"@),
        ("help.commands.lang"@, "/lang <en|es>  language"@, "/lang <en|es>  idioma"@),
        ("connect.title"@, "Connect a provider"@, "Conectar un proveedor"@),
        ("connect.connected"@, "connected"@, "conectado"@),
        ("connect.key_heading"@, "API key"@, "Clave de API"@),
        ("connect.models_heading"@, "Models for {provider}"@, "Modelos de {provider}"@),
        ("connect.fetching"@, "Fetching models..."@, "Obteniendo modelos..."@),
        ("connect.no_models"@, "No models available"@, "No hay modelos disponibles"@),
        ("connect.fetch_error"@, "Couldn't fetch models: {error}"@, "No se pudieron obtener los modelos: {error}"@),
        ("connect.fetch_panicked"@, "the fetch task failed unexpectedly"@, "la tarea de obtención falló inesperadamente"@),
        ("connect.no_key"@, "No API key for {provider}"@, "No hay clave de API para {provider}"@),
        ("connect.footer_list"@, "Enter: select · Esc: close"@, "Enter: seleccionar · Esc: cerrar"@),
        ("connect.footer_key"@, "Enter: continue · Esc: back"@, "Enter: continuar · Esc: atrás"@),
        ("connect.footer_fetching"@, "Esc: cancel"@, "Esc: cancelar"@),
        ("connect.footer_models"@, "Enter: select · Esc: back"@, "Enter: seleccionar · Esc: atrás"@),
        ("models.title"@, "Select a model"@, "Selecciona un modelo"@),
        ("models.offline"@, "No active provider to list models for"@, "No hay un proveedor activo del que listar modelos"@),
        ("models.footer_offline"@, "Esc: close"@, "Esc: cerrar"@),
        ("models.footer_list"@, "Enter: select · ↑↓: move · Esc: close"@, "Enter: seleccionar · ↑↓: mover · Esc: cerrar"@),
        ("models.footer_retry"@, "Ctrl+R: retry · Esc: close"@, "Ctrl+R: reintentar · Esc: cerrar"@),
        ("models.footer_manual"@, "Enter: use this id · Ctrl+R: retry · Esc: close"@, "Enter: usar este id · Ctrl+R: reintentar · Esc: cerrar"@),
        ("models.credentials_hint"@, "The provider did not accept the credential"@, "El proveedor no aceptó la credencial"@),
        ("models.credentials_remedy"@, "Use /connect or /key {provider} to set a key"@, "Usa /connect o /key {provider} para configurar una clave"@),
        ("models.manual_unverified"@, "Could not list {provider} models; type a model id (unverified):"@, "No se pudieron listar los modelos de {provider}; escribe un id de modelo (sin verificar):"@),
        ("help.commands.connect"@, "/connect  connect a provider"@, "/connect  conectar un proveedor"@),
        ("help.commands.models"@, "/models  select a model"@, "/models  seleccionar un modelo"@),
        ("status.connect_not_connected"@, "/connect is available after you sign in"@, "/connect está disponible después de iniciar sesión"@),
        ("status.models_not_connected"@, "/models is available after you sign in"@, "/models está disponible después de iniciar sesión"@),
        ("status.settings_save_failed"@, "Could not save settings: {error}"@, "No se pudo guardar la configuración: {error}"@),
    ]
}

/// The catalog rows.
pub fn catalog_rows() -> (r: Vec<(&'static str, &'static str, &'static str)>)
    ensures
        rows_view(r@) == catalog(),
{
    let r = vec![
        ("status.not_signed_in", "Not signed in", "Sin iniciar sesión"),
        ("status.device_cancelled", "Device login cancelled", "Inicio de sesión del dispositivo cancelado"),
        ("status.unknown_command", "unknown command: {command}", "comando desconocido: {command}"),
        ("status.requesting_device_code", "Requesting device code...", "Solicitando código del dispositivo..."),
        ("status.waiting_approval", "Waiting for browser approval...", "Esperando aprobación en el navegador..."),
        ("status.device_failed", "Device login failed", "Falló el inicio de sesión del dispositivo"),
        ("status.email_required", "Email is required", "El correo electrónico es obligatorio"),
        ("status.code_required", "TOTP code is required", "El código TOTP es obligatorio"),
        ("status.signing_in", "Signing in...", "Iniciando sesión..."),
        ("status.creating_account", "Creating account...", "Creando cuenta..."),
        ("status.scan_confirm", "Scan the QR / enter the secret, then confirm", "Escanea el QR o introduce el secreto y confirma"),
        ("status.confirming", "Confirming...", "Confirmando..."),
        ("status.connecting", "Connecting...", "Conectando..."),
        ("status.connected_as", "Connected as {email}", "Conectado como {email}"),
        ("status.connect_failed", "could not connect: {error}", "no se pudo conectar: {error}"),
        ("status.ws_failed", "Signed in, but the WebSocket failed", "Sesión iniciada, pero el WebSocket falló"),
        ("status.signed_out", "Signed out", "Sesión cerrada"),
        ("status.ready", "Ready: {name} <{email}>", "Listo: {name} <{email}>"),
        ("status.pong", "Pong {nonce}", "Pong {nonce}"),
        ("status.ping", "Ping {nonce}", "Ping {nonce}"),
        ("status.disconnected", "Disconnected: {reason}", "Desconectado: {reason}"),
        ("status.lang_set", "Language set to {lang}", "Idioma cambiado a {lang}"),
        ("status.lang_invalid", "Unknown language; use 'en' or 'es'", "Idioma desconocido; usa 'en' o 'es'"),
        ("logout_done", "Logged out.", "Sesión cerrada."),
        ("screen.sign_in", "Sign in", "Iniciar sesión"),
        ("screen.create_account", "Create account", "Crear cuenta"),
        ("screen.complete_registration", "Complete registration", "Completar registro"),
        ("screen.device_login", "Device login", "Inicio de sesión del dispositivo"),
        ("field.email", "Email", "Correo electrónico"),
        ("field.code", "Code", "Código"),
        ("field.name", "Name", "Nombre"),
        ("hint.sign_in", "Passwordless: enter the 6-digit code from your authenticator app", "Sin contraseña: introduce el código de 6 dígitos de tu aplicación de autenticación"),
        ("hint.register", "Registering sends a TOTP secret to pair with your authenticator app", "Al registrarte se envía un secreto TOTP para vincular tu aplicación de autenticación"),
        ("hint.account", "Account: {email}", "Cuenta: {email}"),
        ("hint.open_url", "Open this URL (or scan it as a QR code) in your authenticator app:", "Abre esta URL (o escanéala como código QR) en tu aplicación de autenticación:"),
        ("hint.manual_secret", "Manual secret: ", "Secreto manual: "),
        ("hint.device_line1", "A browser window should have opened. Sign in — or create an", "Se debería haber abierto una ventana del navegador. Inicia sesión — o crea una"),
        ("hint.device_line2", "account — there, then click Authorize.", "cuenta — allí, y luego haz clic en Autorizar."),
        ("hint.device_visit", "If the browser did not open, visit:", "Si el navegador no se abrió, visita:"),
        ("hint.device_code_filled", "This device code is already filled in on the page:", "Este código de dispositivo ya está rellenado en la página:"),
        ("hint.device_waiting", "Waiting for approval in your browser...", "Esperando aprobación en tu navegador..."),
        ("hint.not_signed_in", "not signed in", "sin iniciar sesión"),
        ("hint.no_messages", "No messages yet — press 'p' to ping the server", "Aún no hay mensajes: pulsa 'p' para hacer ping al servidor"),
        ("hint.help", "Ctrl-P: help", "Ctrl-P: ayuda"),
        ("hint.help_close", "Ctrl-P / Esc: close", "Ctrl-P / Esc: cerrar"),
        ("hint.device_cancel", "Esc: cancel device login", "Esc: cancelar inicio de sesión del dispositivo"),
        ("title.activity", "Activity", "Actividad"),
        ("info.connected", "{name} <{email}>  ·  provider: {provider}  ·  pongs: {pongs}", "{name} <{email}>  ·  proveedor: {provider}  ·  pongs: {pongs}"),
        ("provider.offline.nothing", "No provider configured — set ANTHROPIC_API_KEY (or another provider's key) or LIGHT_OLLAMA=1", "No hay proveedor configurado — define ANTHROPIC_API_KEY (o la clave de otro proveedor) o LIGHT_OLLAMA=1"),
        ("provider.offline.missing_key", "Provider '{selector}' selected but {key} is not set — falling back to offline", "Proveedor '{selector}' seleccionado pero {key} no está definida — usando modo sin conexión"),
        ("provider.offline.base_url", "{var} was rejected — falling back to offline", "{var} fue rechazada — usando modo sin conexión"),
        ("status.ask_empty", "Usage: /ask <prompt>", "Uso: /ask <indicación>"),
        ("status.ask_not_connected", "/ask is available after you sign in", "/ask está disponible después de iniciar sesión"),
        ("error.invalid_credentials", "Invalid email or code", "Correo o código no válidos"),
        ("error.email_taken", "An account with that email already exists", "Ya existe una cuenta con ese correo electrónico"),
        ("error.invalid_email", "Invalid email address", "Dirección de correo electrónico no válida"),
        ("error.invalid_totp_code", "Invalid TOTP code", "Código TOTP no válido"),
        ("error.invalid_challenge", "Invalid or expired challenge", "Desafío no válido o caducado"),
        ("error.invalid_session", "Invalid or expired session", "Sesión no válida o caducada"),
        ("error.invalid_grant", "Invalid device code", "Código de dispositivo no válido"),
        ("error.expired_token", "Device authorization expired", "La autorización del dispositivo ha caducado"),
        ("error.storage_error", "Storage error", "Error de almacenamiento"),
        ("error.internal_error", "Internal server error", "Error interno del servidor"),
        ("error.invalid_json", "Invalid request", "Solicitud no válida"),
        ("error.network", "Could not reach the server", "No se pudo contactar con el servidor"),
        ("error.decode", "Unexpected response from the server", "Respuesta inesperada del servidor"),
        ("error.bad_message", "Could not parse server message", "No se pudo analizar el mensaje del servidor"),
        ("error.ws_closed", "Connection closed", "Conexión cerrada"),
        ("error.turn_in_progress", "a turn is already running; prompt ignored", "ya hay un turno en curso; indicación ignorada"),
        ("error.no_provider_configured", "No provider configured — set an API key or LIGHT_OLLAMA=1", "No hay proveedor configurado — define una clave de API o LIGHT_OLLAMA=1"),
        ("engine.plan_proposed", "plan proposed: {summary}", "plan propuesto: {summary}"),
        ("engine.plan_approved", "plan approved", "plan aprobado"),
        ("engine.plan_rejected", "plan rejected", "plan rechazado"),
        ("engine.file_edit", "wrote {path} ({bytes} bytes)", "escrito {path} ({bytes} bytes)"),
        ("engine.command_run", "ran {command} (exit {code})", "ejecutado {command} (salida {code})"),
        ("engine.approval_needed", "approval needed: {detail}", "se requiere aprobación: {detail}"),
        ("engine.token_usage", "tokens: {input} in / {output} out", "tokens: {input} entrada / {output} salida"),
        ("engine.turn_complete", "turn complete", "turno completado"),
        ("engine.turn_ended", "turn ended", "turno finalizado"),
        ("engine.plan_prompt", "Plan: {summary}\n{steps} step(s), {paths} write path(s), {commands} command(s)", "Plan: {summary}\n{steps} paso(s), {paths} ruta(s) de escritura, {commands} comando(s)"),
        ("engine.reason_outside_scope", "outside the approved scope: {what}", "fuera del alcance aprobado: {what}"),
        ("engine.reason_sensitive", "sensitive path: {path}", "ruta sensible: {path}"),
        ("engine.approve_keys", "[a] approve  [d] deny", "[a] aprobar  [d] denegar"),
        ("engine.dropped_events", "dropped {count} engine event(s)", "se omitieron {count} evento(s) del motor"),
        ("title.engine", "Engine", "Motor"),
        ("status.engine_started", "Engine session started", "Sesión del motor iniciada"),
        ("provider.reason.ollama_env", "LIGHT_OLLAMA", "LIGHT_OLLAMA"),
        ("provider.reason.selector_env", "LIGHT_REMOTE_PROVIDER", "LIGHT_REMOTE_PROVIDER"),
        ("provider.reason.stored", "stored preference", "preferencia guardada"),
        ("provider.reason.key_precedence", "key precedence", "precedencia de claves"),
        ("provider.reason.offline", "offline", "sin conexión"),
        ("provider.key.env", "env", "entorno"),
        ("provider.key.keyring", "keyring", "llavero"),
        ("provider.key.none", "none", "ninguna"),
        ("provider.list_active", "active: {provider} ({reason})", "activo: {provider} ({reason})"),
        ("provider.list_available", "available: {list}", "disponibles: {list}"),
        ("key.list", "keys: {list}", "claves: {list}"),
        ("status.provider_set", "Provider set to {provider}", "Proveedor cambiado a {provider}"),
        ("status.provider_invalid", "Unknown provider; use anthropic|openai|gemini|deepseek|ollama", "Proveedor desconocido; usa anthropic|openai|gemini|deepseek|ollama"),
        ("status.model_set", "Model set to {model}", "Modelo cambiado a {model}"),
        ("status.model_empty", "Usage: /model <id>", "Uso: /model <id>"),
        ("status.model_unsupported", "The active provider has no model to set", "El proveedor activo no tiene modelo que configurar"),
        ("status.key_set", "API key saved for {provider}", "Clave de API guardada para {provider}"),
        ("status.key_cleared", "API key cleared for {provider}", "Clave de API eliminada para {provider}"),
        ("status.key_failed", "Could not save the API key for {provider}: {error}", "No se pudo guardar la clave de API para {provider}: {error}"),
        ("status.key_unsupported", "{provider} does not take an API key", "{provider} no usa una clave de API"),
        ("status.key_enter", "Enter API key for {provider} (input hidden)", "Introduce la clave de API para {provider} (entrada oculta)"),
        ("status.key_empty", "No key entered; nothing saved", "No se introdujo ninguna clave; no se guardó nada"),
        ("field.key", "API key", "Clave de API"),
        ("hint.key", "Enter: save · Esc: cancel", "Enter: guardar · Esc: cancelar"),
        ("title.help", "Help", "Ayuda"),
        ("help.section.global", "Global", "Global"),
        ("help.global.help", "Ctrl-P  this help", "Ctrl-P  esta ayuda"),
        ("help.global.quit", "Ctrl-C  quit", "Ctrl-C  salir"),
        ("help.section.forms", "Forms", "Formularios"),
        ("help.forms.navigate", "Tab / ↑↓  next field", "Tab / ↑↓  siguiente campo"),
        ("help.forms.submit", "Enter  submit", "Enter  enviar"),
        ("help.forms.command", "/  command", "/  comando"),
        ("help.forms.back", "Esc  back / close", "Esc  atrás / cerrar"),
        ("help.section.connected", "Connected", "Conectado"),
        ("help.connected.ping", "p  ping server", "p  ping al servidor"),
        ("help.connected.signout", "o  sign out", "o  cerrar sesión"),
        ("help.connected.engine", "e  engine mode", "e  modo motor"),
        ("help.connected.quit", "q  quit", "q  salir"),
        ("help.section.engine", "Engine", "Motor"),
        ("help.engine.send", "Enter  send prompt", "Enter  enviar indicación"),
        ("help.engine.back", "Esc  back", "Esc  volver"),
        ("help.engine.approve", "a / d  approve / deny (while a decision is pending)", "a / d  aprobar / denegar (solo con una decisión pendiente)"),
        ("help.section.commands", "Commands", "Comandos"),
        ("help.commands.ask", "/ask <prompt>  completion", "/ask <indicación>  completar"),
        ("help.commands.provider", "/provider [name]  select provider", "/provider [nombre]  seleccionar proveedor"),
        ("help.commands.model", "/model <id>  set model", "/model <id>  configurar modelo"),
        ("help.commands.key", "/key [provider] [clear]  API key", "/key [proveedor] [clear]  clave de API"),
        ("help.commands.auth", "/auth/login  /auth/logout  sign in / out", "/auth/login  /auth/logout  iniciar / cerrar sesión"),
        ("help.commands.lang", "/lang <en|es>  language", "/lang <en|es>  idioma"),
        ("connect.title", "Connect a provider", "Conectar un proveedor"),
        ("connect.connected", "connected", "conectado"),
        ("connect.key_heading", "API key", "Clave de API"),
        ("connect.models_heading", "Models for {provider}", "Modelos de {provider}"),
        ("connect.fetching", "Fetching models...", "Obteniendo modelos..."),
        ("connect.no_models", "No models available", "No hay modelos disponibles"),
        ("connect.fetch_error", "Couldn't fetch models: {error}", "No se pudieron obtener los modelos: {error}"),
        ("connect.fetch_panicked", "the fetch task failed unexpectedly", "la tarea de obtención falló inesperadamente"),
        ("connect.no_key", "No API key for {provider}", "No hay clave de API para {provider}"),
        ("connect.footer_list", "Enter: select · Esc: close", "Enter: seleccionar · Esc: cerrar"),
        ("connect.footer_key", "Enter: continue · Esc: back", "Enter: continuar · Esc: atrás"),
        ("connect.footer_fetching", "Esc: cancel", "Esc: cancelar"),
        ("connect.footer_models", "Enter: select · Esc: back", "Enter: seleccionar · Esc: atrás"),
        ("models.title", "Select a model", "Selecciona un modelo"),
        ("models.offline", "No active provider to list models for", "No hay un proveedor activo del que listar modelos"),
        ("models.footer_offline", "Esc: close", "Esc: cerrar"),
        ("models.footer_list", "Enter: select · ↑↓: move · Esc: close", "Enter: seleccionar · ↑↓: mover · Esc: cerrar"),
        ("models.footer_retry", "Ctrl+R: retry · Esc: close", "Ctrl+R: reintentar · Esc: cerrar"),
        ("models.footer_manual", "Enter: use this id · Ctrl+R: retry · Esc: close", "Enter: usar este id · Ctrl+R: reintentar · Esc: cerrar"),
        ("models.credentials_hint", "The provider did not accept the credential", "El proveedor no aceptó la credencial"),
        ("models.credentials_remedy", "Use /connect or /key {provider} to set a key", "Usa /connect o /key {provider} para configurar una clave"),
        ("models.manual_unverified", "Could not list {provider} models; type a model id (unverified):", "No se pudieron listar los modelos de {provider}; escribe un id de modelo (sin verificar):"),
        ("help.commands.connect", "/connect  connect a provider", "/connect  conectar un proveedor"),
        ("help.commands.models", "/models  select a model", "/models  seleccionar un modelo"),
        ("status.connect_not_connected", "/connect is available after you sign in", "/connect está disponible después de iniciar sesión"),
        ("status.models_not_connected", "/models is available after you sign in", "/models está disponible después de iniciar sesión"),
        ("status.settings_save_failed", "Could not save settings: {error}", "No se pudo guardar la configuración: {error}"),
    ];
    assert(rows_view(r@) =~= catalog());
    r
}

/// Whether `key` is one of the catalog keys the client's code looks up by name.
pub open spec fn key_in_use(key: Seq<char>) -> bool {
    key == "status.not_signed_in"@
        || key == "status.device_cancelled"@
        || key == "status.unknown_command"@
        || key == "status.requesting_device_code"@
        || key == "status.waiting_approval"@
        || key == "status.device_failed"@
        || key == "status.email_required"@
        || key == "status.code_required"@
        || key == "status.signing_in"@
        || key == "status.creating_account"@
        || key == "status.scan_confirm"@
        || key == "status.confirming"@
        || key == "status.connecting"@
        || key == "status.connected_as"@
        || key == "status.connect_failed"@
        || key == "status.ws_failed"@
        || key == "status.signed_out"@
        || key == "status.ready"@
        || key == "status.pong"@
        || key == "status.ping"@
        || key == "status.disconnected"@
        || key == "status.lang_set"@
        || key == "status.lang_invalid"@
        || key == "screen.sign_in"@
        || key == "screen.create_account"@
        || key == "screen.complete_registration"@
        || key == "screen.device_login"@
        || key == "field.email"@
        || key == "field.code"@
        || key == "field.name"@
        || key == "hint.sign_in"@
        || key == "hint.register"@
        || key == "hint.account"@
        || key == "hint.open_url"@
        || key == "hint.manual_secret"@
        || key == "hint.device_visit"@
        || key == "hint.device_code_filled"@
        || key == "hint.device_waiting"@
        || key == "hint.not_signed_in"@
        || key == "hint.no_messages"@
        || key == "hint.help"@
        || key == "hint.help_close"@
        || key == "hint.device_cancel"@
        || key == "title.activity"@
        || key == "info.connected"@
        || key == "provider.offline.nothing"@
        || key == "provider.offline.missing_key"@
        || key == "provider.offline.base_url"@
        || key == "status.ask_empty"@
        || key == "status.ask_not_connected"@
        || key == "engine.plan_proposed"@
        || key == "engine.plan_approved"@
        || key == "engine.plan_rejected"@
        || key == "engine.file_edit"@
        || key == "engine.command_run"@
        || key == "engine.approval_needed"@
        || key == "engine.token_usage"@
        || key == "engine.turn_complete"@
        || key == "engine.turn_ended"@
        || key == "engine.plan_prompt"@
        || key == "engine.reason_outside_scope"@
        || key == "engine.reason_sensitive"@
        || key == "engine.approve_keys"@
        || key == "engine.dropped_events"@
        || key == "title.engine"@
        || key == "status.engine_started"@
        || key == "provider.reason.ollama_env"@
        || key == "provider.reason.selector_env"@
        || key == "provider.reason.stored"@
        || key == "provider.reason.key_precedence"@
        || key == "provider.reason.offline"@
        || key == "provider.key.env"@
        || key == "provider.key.keyring"@
        || key == "provider.key.none"@
        || key == "key.list"@
        || key == "status.model_set"@
        || key == "status.model_empty"@
        || key == "status.model_unsupported"@
        || key == "status.key_set"@
        || key == "status.key_cleared"@
        || key == "status.key_failed"@
        || key == "status.key_unsupported"@
        || key == "status.key_enter"@
        || key == "status.key_empty"@
        || key == "field.key"@
        || key == "hint.key"@
        || key == "title.help"@
        || key == "help.section.global"@
        || key == "help.global.help"@
        || key == "help.global.quit"@
        || key == "help.section.forms"@
        || key == "help.forms.navigate"@
        || key == "help.forms.submit"@
        || key == "help.forms.command"@
        || key == "help.forms.back"@
        || key == "help.section.connected"@
        || key == "help.connected.ping"@
        || key == "help.connected.signout"@
        || key == "help.connected.engine"@
        || key == "help.connected.quit"@
        || key == "help.section.engine"@
        || key == "help.engine.send"@
        || key == "help.engine.back"@
        || key == "help.engine.approve"@
        || key == "help.section.commands"@
        || key == "help.commands.ask"@
        || key == "help.commands.model"@
        || key == "help.commands.key"@
        || key == "help.commands.auth"@
        || key == "help.commands.lang"@
        || key == "connect.title"@
        || key == "connect.connected"@
        || key == "connect.key_heading"@
        || key == "connect.models_heading"@
        || key == "connect.fetching"@
        || key == "connect.no_models"@
        || key == "connect.fetch_error"@
        || key == "connect.fetch_panicked"@
        || key == "connect.no_key"@
        || key == "connect.footer_list"@
        || key == "connect.footer_key"@
        || key == "connect.footer_fetching"@
        || key == "connect.footer_models"@
        || key == "models.title"@
        || key == "models.offline"@
        || key == "models.footer_offline"@
        || key == "models.footer_list"@
        || key == "models.footer_retry"@
        || key == "models.footer_manual"@
        || key == "models.credentials_hint"@
        || key == "models.credentials_remedy"@
        || key == "models.manual_unverified"@
        || key == "help.commands.connect"@
        || key == "help.commands.models"@
        || key == "status.connect_not_connected"@
        || key == "status.models_not_connected"@
        || key == "status.settings_save_failed"@
}

/// The row of `cat` at `j` holds `key`, so `key` is found in `cat`.
proof fn lemma_found(cat: Seq<CatalogRow>, locale: Locale, key: Seq<char>, j: int)
    requires
        0 <= j < cat.len(),
        cat[j].0 == key,
    ensures
        lookup_in(cat, locale, key) is Some,
    decreases j,
{
    if cat[0].0 != key {
        lemma_found(cat.drop_first(), locale, key, j - 1);
    }
}

/// The keys in use numbered 0 on, in catalog order, are in the catalog.
#[verifier::rlimit(50)]
proof fn lemma_keys_in_use_part0(key: Seq<char>)
    requires
        key == "status.not_signed_in"@ || key == "status.device_cancelled"@ || key == "status.unknown_command"@ || key == "status.requesting_device_code"@ || key == "status.waiting_approval"@ || key == "status.device_failed"@ || key == "status.email_required"@ || key == "status.code_required"@ || key == "status.signing_in"@ || key == "status.creating_account"@ || key == "status.scan_confirm"@ || key == "status.confirming"@ || key == "status.connecting"@ || key == "status.connected_as"@ || key == "status.connect_failed"@ || key == "status.ws_failed"@ || key == "status.signed_out"@ || key == "status.ready"@ || key == "status.pong"@ || key == "status.ping"@ || key == "status.disconnected"@ || key == "status.lang_set"@ || key == "status.lang_invalid"@ || key == "screen.sign_in"@ || key == "screen.create_account"@ || key == "screen.complete_registration"@ || key == "screen.device_login"@ || key == "field.email"@ || key == "field.code"@ || key == "field.name"@ || key == "hint.sign_in"@ || key == "hint.register"@ || key == "hint.account"@ || key == "hint.open_url"@ || key == "hint.manual_secret"@,
    ensures
        lookup(Locale::En, key) is Some,
{
    if key == "status.not_signed_in"@ {
        lemma_found(catalog(), Locale::En, key, 0);
    } else if key == "status.device_cancelled"@ {
        lemma_found(catalog(), Locale::En, key, 1);
    } else if key == "status.unknown_command"@ {
        lemma_found(catalog(), Locale::En, key, 2);
    } else if key == "status.requesting_device_code"@ {
        lemma_found(catalog(), Locale::En, key, 3);
    } else if key == "status.waiting_approval"@ {
        lemma_found(catalog(), Locale::En, key, 4);
    } else if key == "status.device_failed"@ {
        lemma_found(catalog(), Locale::En, key, 5);
    } else if key == "status.email_required"@ {
        lemma_found(catalog(), Locale::En, key, 6);
    } else if key == "status.code_required"@ {
        lemma_found(catalog(), Locale::En, key, 7);
    } else if key == "status.signing_in"@ {
        lemma_found(catalog(), Locale::En, key, 8);
    } else if key == "status.creating_account"@ {
        lemma_found(catalog(), Locale::En, key, 9);
    } else if key == "status.scan_confirm"@ {
        lemma_found(catalog(), Locale::En, key, 10);
    } else if key == "status.confirming"@ {
        lemma_found(catalog(), Locale::En, key, 11);
    } else if key == "status.connecting"@ {
        lemma_found(catalog(), Locale::En, key, 12);
    } else if key == "status.connected_as"@ {
        lemma_found(catalog(), Locale::En, key, 13);
    } else if key == "status.connect_failed"@ {
        lemma_found(catalog(), Locale::En, key, 14);
    } else if key == "status.ws_failed"@ {
        lemma_found(catalog(), Locale::En, key, 15);
    } else if key == "status.signed_out"@ {
        lemma_found(catalog(), Locale::En, key, 16);
    } else if key == "status.ready"@ {
        lemma_found(catalog(), Locale::En, key, 17);
    } else if key == "status.pong"@ {
        lemma_found(catalog(), Locale::En, key, 18);
    } else if key == "status.ping"@ {
        lemma_found(catalog(), Locale::En, key, 19);
    } else if key == "status.disconnected"@ {
        lemma_found(catalog(), Locale::En, key, 20);
    } else if key == "status.lang_set"@ {
        lemma_found(catalog(), Locale::En, key, 21);
    } else if key == "status.lang_invalid"@ {
        lemma_found(catalog(), Locale::En, key, 22);
    } else if key == "screen.sign_in"@ {
        lemma_found(catalog(), Locale::En, key, 24);
    } else if key == "screen.create_account"@ {
        lemma_found(catalog(), Locale::En, key, 25);
    } else if key == "screen.complete_registration"@ {
        lemma_found(catalog(), Locale::En, key, 26);
    } else if key == "screen.device_login"@ {
        lemma_found(catalog(), Locale::En, key, 27);
    } else if key == "field.email"@ {
        lemma_found(catalog(), Locale::En, key, 28);
    } else if key == "field.code"@ {
        lemma_found(catalog(), Locale::En, key, 29);
    } else if key == "field.name"@ {
        lemma_found(catalog(), Locale::En, key, 30);
    } else if key == "hint.sign_in"@ {
        lemma_found(catalog(), Locale::En, key, 31);
    } else if key == "hint.register"@ {
        lemma_found(catalog(), Locale::En, key, 32);
    } else if key == "hint.account"@ {
        lemma_found(catalog(), Locale::En, key, 33);
    } else if key == "hint.open_url"@ {
        lemma_found(catalog(), Locale::En, key, 34);
    } else if key == "hint.manual_secret"@ {
        lemma_found(catalog(), Locale::En, key, 35);
    }
}

/// The keys in use numbered 35 on, in catalog order, are in the catalog.
#[verifier::rlimit(50)]
proof fn lemma_keys_in_use_part1(key: Seq<char>)
    requires
        key == "hint.device_visit"@ || key == "hint.device_code_filled"@ || key == "hint.device_waiting"@ || key == "hint.not_signed_in"@ || key == "hint.no_messages"@ || key == "hint.help"@ || key == "hint.help_close"@ || key == "hint.device_cancel"@ || key == "title.activity"@ || key == "info.connected"@ || key == "provider.offline.nothing"@ || key == "provider.offline.missing_key"@ || key == "provider.offline.base_url"@ || key == "status.ask_empty"@ || key == "status.ask_not_connected"@ || key == "engine.plan_proposed"@ || key == "engine.plan_approved"@ || key == "engine.plan_rejected"@ || key == "engine.file_edit"@ || key == "engine.command_run"@ || key == "engine.approval_needed"@ || key == "engine.token_usage"@ || key == "engine.turn_complete"@ || key == "engine.turn_ended"@ || key == "engine.plan_prompt"@ || key == "engine.reason_outside_scope"@ || key == "engine.reason_sensitive"@ || key == "engine.approve_keys"@ || key == "engine.dropped_events"@ || key == "title.engine"@ || key == "status.engine_started"@ || key == "provider.reason.ollama_env"@ || key == "provider.reason.selector_env"@ || key == "provider.reason.stored"@ || key == "provider.reason.key_precedence"@,
    ensures
        lookup(Locale::En, key) is Some,
{
    if key == "hint.device_visit"@ {
        lemma_found(catalog(), Locale::En, key, 38);
    } else if key == "hint.device_code_filled"@ {
        lemma_found(catalog(), Locale::En, key, 39);
    } else if key == "hint.device_waiting"@ {
        lemma_found(catalog(), Locale::En, key, 40);
    } else if key == "hint.not_signed_in"@ {
        lemma_found(catalog(), Locale::En, key, 41);
    } else if key == "hint.no_messages"@ {
        lemma_found(catalog(), Locale::En, key, 42);
    } else if key == "hint.help"@ {
        lemma_found(catalog(), Locale::En, key, 43);
    } else if key == "hint.help_close"@ {
        lemma_found(catalog(), Locale::En, key, 44);
    } else if key == "hint.device_cancel"@ {
        lemma_found(catalog(), Locale::En, key, 45);
    } else if key == "title.activity"@ {
        lemma_found(catalog(), Locale::En, key, 46);
    } else if key == "info.connected"@ {
        lemma_found(catalog(), Locale::En, key, 47);
    } else if key == "provider.offline.nothing"@ {
        lemma_found(catalog(), Locale::En, key, 48);
    } else if key == "provider.offline.missing_key"@ {
        lemma_found(catalog(), Locale::En, key, 49);
    } else if key == "provider.offline.base_url"@ {
        lemma_found(catalog(), Locale::En, key, 50);
    } else if key == "status.ask_empty"@ {
        lemma_found(catalog(), Locale::En, key, 51);
    } else if key == "status.ask_not_connected"@ {
        lemma_found(catalog(), Locale::En, key, 52);
    } else if key == "engine.plan_proposed"@ {
        lemma_found(catalog(), Locale::En, key, 70);
    } else if key == "engine.plan_approved"@ {
        lemma_found(catalog(), Locale::En, key, 71);
    } else if key == "engine.plan_rejected"@ {
        lemma_found(catalog(), Locale::En, key, 72);
    } else if key == "engine.file_edit"@ {
        lemma_found(catalog(), Locale::En, key, 73);
    } else if key == "engine.command_run"@ {
        lemma_found(catalog(), Locale::En, key, 74);
    } else if key == "engine.approval_needed"@ {
        lemma_found(catalog(), Locale::En, key, 75);
    } else if key == "engine.token_usage"@ {
        lemma_found(catalog(), Locale::En, key, 76);
    } else if key == "engine.turn_complete"@ {
        lemma_found(catalog(), Locale::En, key, 77);
    } else if key == "engine.turn_ended"@ {
        lemma_found(catalog(), Locale::En, key, 78);
    } else if key == "engine.plan_prompt"@ {
        lemma_found(catalog(), Locale::En, key, 79);
    } else if key == "engine.reason_outside_scope"@ {
        lemma_found(catalog(), Locale::En, key, 80);
    } else if key == "engine.reason_sensitive"@ {
        lemma_found(catalog(), Locale::En, key, 81);
    } else if key == "engine.approve_keys"@ {
        lemma_found(catalog(), Locale::En, key, 82);
    } else if key == "engine.dropped_events"@ {
        lemma_found(catalog(), Locale::En, key, 83);
    } else if key == "title.engine"@ {
        lemma_found(catalog(), Locale::En, key, 84);
    } else if key == "status.engine_started"@ {
        lemma_found(catalog(), Locale::En, key, 85);
    } else if key == "provider.reason.ollama_env"@ {
        lemma_found(catalog(), Locale::En, key, 86);
    } else if key == "provider.reason.selector_env"@ {
        lemma_found(catalog(), Locale::En, key, 87);
    } else if key == "provider.reason.stored"@ {
        lemma_found(catalog(), Locale::En, key, 88);
    } else if key == "provider.reason.key_precedence"@ {
        lemma_found(catalog(), Locale::En, key, 89);
    }
}

/// The keys in use numbered 70 on, in catalog order, are in the catalog.
#[verifier::rlimit(50)]
proof fn lemma_keys_in_use_part2(key: Seq<char>)
    requires
        key == "provider.reason.offline"@ || key == "provider.key.env"@ || key == "provider.key.keyring"@ || key == "provider.key.none"@ || key == "key.list"@ || key == "status.model_set"@ || key == "status.model_empty"@ || key == "status.model_unsupported"@ || key == "status.key_set"@ || key == "status.key_cleared"@ || key == "status.key_failed"@ || key == "status.key_unsupported"@ || key == "status.key_enter"@ || key == "status.key_empty"@ || key == "field.key"@ || key == "hint.key"@ || key == "title.help"@ || key == "help.section.global"@ || key == "help.global.help"@ || key == "help.global.quit"@ || key == "help.section.forms"@ || key == "help.forms.navigate"@ || key == "help.forms.submit"@ || key == "help.forms.command"@ || key == "help.forms.back"@ || key == "help.section.connected"@ || key == "help.connected.ping"@ || key == "help.connected.signout"@ || key == "help.connected.engine"@ || key == "help.connected.quit"@ || key == "help.section.engine"@ || key == "help.engine.send"@ || key == "help.engine.back"@ || key == "help.engine.approve"@ || key == "help.section.commands"@,
    ensures
        lookup(Locale::En, key) is Some,
{
    if key == "provider.reason.offline"@ {
        lemma_found(catalog(), Locale::En, key, 90);
    } else if key == "provider.key.env"@ {
        lemma_found(catalog(), Locale::En, key, 91);
    } else if key == "provider.key.keyring"@ {
        lemma_found(catalog(), Locale::En, key, 92);
    } else if key == "provider.key.none"@ {
        lemma_found(catalog(), Locale::En, key, 93);
    } else if key == "key.list"@ {
        lemma_found(catalog(), Locale::En, key, 96);
    } else if key == "status.model_set"@ {
        lemma_found(catalog(), Locale::En, key, 99);
    } else if key == "status.model_empty"@ {
        lemma_found(catalog(), Locale::En, key, 100);
    } else if key == "status.model_unsupported"@ {
        lemma_found(catalog(), Locale::En, key, 101);
    } else if key == "status.key_set"@ {
        lemma_found(catalog(), Locale::En, key, 102);
    } else if key == "status.key_cleared"@ {
        lemma_found(catalog(), Locale::En, key, 103);
    } else if key == "status.key_failed"@ {
        lemma_found(catalog(), Locale::En, key, 104);
    } else if key == "status.key_unsupported"@ {
        lemma_found(catalog(), Locale::En, key, 105);
    } else if key == "status.key_enter"@ {
        lemma_found(catalog(), Locale::En, key, 106);
    } else if key == "status.key_empty"@ {
        lemma_found(catalog(), Locale::En, key, 107);
    } else if key == "field.key"@ {
        lemma_found(catalog(), Locale::En, key, 108);
    } else if key == "hint.key"@ {
        lemma_found(catalog(), Locale::En, key, 109);
    } else if key == "title.help"@ {
        lemma_found(catalog(), Locale::En, key, 110);
    } else if key == "help.section.global"@ {
        lemma_found(catalog(), Locale::En, key, 111);
    } else if key == "help.global.help"@ {
        lemma_found(catalog(), Locale::En, key, 112);
    } else if key == "help.global.quit"@ {
        lemma_found(catalog(), Locale::En, key, 113);
    } else if key == "help.section.forms"@ {
        lemma_found(catalog(), Locale::En, key, 114);
    } else if key == "help.forms.navigate"@ {
        lemma_found(catalog(), Locale::En, key, 115);
    } else if key == "help.forms.submit"@ {
        lemma_found(catalog(), Locale::En, key, 116);
    } else if key == "help.forms.command"@ {
        lemma_found(catalog(), Locale::En, key, 117);
    } else if key == "help.forms.back"@ {
        lemma_found(catalog(), Locale::En, key, 118);
    } else if key == "help.section.connected"@ {
        lemma_found(catalog(), Locale::En, key, 119);
    } else if key == "help.connected.ping"@ {
        lemma_found(catalog(), Locale::En, key, 120);
    } else if key == "help.connected.signout"@ {
        lemma_found(catalog(), Locale::En, key, 121);
    } else if key == "help.connected.engine"@ {
        lemma_found(catalog(), Locale::En, key, 122);
    } else if key == "help.connected.quit"@ {
        lemma_found(catalog(), Locale::En, key, 123);
    } else if key == "help.section.engine"@ {
        lemma_found(catalog(), Locale::En, key, 124);
    } else if key == "help.engine.send"@ {
        lemma_found(catalog(), Locale::En, key, 125);
    } else if key == "help.engine.back"@ {
        lemma_found(catalog(), Locale::En, key, 126);
    } else if key == "help.engine.approve"@ {
        lemma_found(catalog(), Locale::En, key, 127);
    } else if key == "help.section.commands"@ {
        lemma_found(catalog(), Locale::En, key, 128);
    }
}

/// The keys in use numbered 105 on, in catalog order, are in the catalog.
#[verifier::rlimit(50)]
proof fn lemma_keys_in_use_part3(key: Seq<char>)
    requires
        key == "help.commands.ask"@ || key == "help.commands.model"@ || key == "help.commands.key"@ || key == "help.commands.auth"@ || key == "help.commands.lang"@ || key == "connect.title"@ || key == "connect.connected"@ || key == "connect.key_heading"@ || key == "connect.models_heading"@ || key == "connect.fetching"@ || key == "connect.no_models"@ || key == "connect.fetch_error"@ || key == "connect.fetch_panicked"@ || key == "connect.no_key"@ || key == "connect.footer_list"@ || key == "connect.footer_key"@ || key == "connect.footer_fetching"@ || key == "connect.footer_models"@ || key == "models.title"@ || key == "models.offline"@ || key == "models.footer_offline"@ || key == "models.footer_list"@ || key == "models.footer_retry"@ || key == "models.footer_manual"@ || key == "models.credentials_hint"@ || key == "models.credentials_remedy"@ || key == "models.manual_unverified"@ || key == "help.commands.connect"@ || key == "help.commands.models"@ || key == "status.connect_not_connected"@ || key == "status.models_not_connected"@ || key == "status.settings_save_failed"@,
    ensures
        lookup(Locale::En, key) is Some,
{
    if key == "help.commands.ask"@ {
        lemma_found(catalog(), Locale::En, key, 129);
    } else if key == "help.commands.model"@ {
        lemma_found(catalog(), Locale::En, key, 131);
    } else if key == "help.commands.key"@ {
        lemma_found(catalog(), Locale::En, key, 132);
    } else if key == "help.commands.auth"@ {
        lemma_found(catalog(), Locale::En, key, 133);
    } else if key == "help.commands.lang"@ {
        lemma_found(catalog(), Locale::En, key, 134);
    } else if key == "connect.title"@ {
        lemma_found(catalog(), Locale::En, key, 135);
    } else if key == "connect.connected"@ {
        lemma_found(catalog(), Locale::En, key, 136);
    } else if key == "connect.key_heading"@ {
        lemma_found(catalog(), Locale::En, key, 137);
    } else if key == "connect.models_heading"@ {
        lemma_found(catalog(), Locale::En, key, 138);
    } else if key == "connect.fetching"@ {
        lemma_found(catalog(), Locale::En, key, 139);
    } else if key == "connect.no_models"@ {
        lemma_found(catalog(), Locale::En, key, 140);
    } else if key == "connect.fetch_error"@ {
        lemma_found(catalog(), Locale::En, key, 141);
    } else if key == "connect.fetch_panicked"@ {
        lemma_found(catalog(), Locale::En, key, 142);
    } else if key == "connect.no_key"@ {
        lemma_found(catalog(), Locale::En, key, 143);
    } else if key == "connect.footer_list"@ {
        lemma_found(catalog(), Locale::En, key, 144);
    } else if key == "connect.footer_key"@ {
        lemma_found(catalog(), Locale::En, key, 145);
    } else if key == "connect.footer_fetching"@ {
        lemma_found(catalog(), Locale::En, key, 146);
    } else if key == "connect.footer_models"@ {
        lemma_found(catalog(), Locale::En, key, 147);
    } else if key == "models.title"@ {
        lemma_found(catalog(), Locale::En, key, 148);
    } else if key == "models.offline"@ {
        lemma_found(catalog(), Locale::En, key, 149);
    } else if key == "models.footer_offline"@ {
        lemma_found(catalog(), Locale::En, key, 150);
    } else if key == "models.footer_list"@ {
        lemma_found(catalog(), Locale::En, key, 151);
    } else if key == "models.footer_retry"@ {
        lemma_found(catalog(), Locale::En, key, 152);
    } else if key == "models.footer_manual"@ {
        lemma_found(catalog(), Locale::En, key, 153);
    } else if key == "models.credentials_hint"@ {
        lemma_found(catalog(), Locale::En, key, 154);
    } else if key == "models.credentials_remedy"@ {
        lemma_found(catalog(), Locale::En, key, 155);
    } else if key == "models.manual_unverified"@ {
        lemma_found(catalog(), Locale::En, key, 156);
    } else if key == "help.commands.connect"@ {
        lemma_found(catalog(), Locale::En, key, 157);
    } else if key == "help.commands.models"@ {
        lemma_found(catalog(), Locale::En, key, 158);
    } else if key == "status.connect_not_connected"@ {
        lemma_found(catalog(), Locale::En, key, 159);
    } else if key == "status.models_not_connected"@ {
        lemma_found(catalog(), Locale::En, key, 160);
    } else if key == "status.settings_save_failed"@ {
        lemma_found(catalog(), Locale::En, key, 161);
    }
}

/// Every catalog key the client's code looks up by name is defined in both languages, so the
/// raw-key fallback of `t` never reaches the screen.
pub proof fn law_every_key_in_use_is_catalogued(key: Seq<char>)
    requires
        key_in_use(key),
    ensures
        lookup(Locale::En, key) is Some,
        lookup(Locale::Es, key) is Some,
{
    if key == "status.not_signed_in"@ || key == "status.device_cancelled"@ || key == "status.unknown_command"@ || key == "status.requesting_device_code"@ || key == "status.waiting_approval"@ || key == "status.device_failed"@ || key == "status.email_required"@ || key == "status.code_required"@ || key == "status.signing_in"@ || key == "status.creating_account"@ || key == "status.scan_confirm"@ || key == "status.confirming"@ || key == "status.connecting"@ || key == "status.connected_as"@ || key == "status.connect_failed"@ || key == "status.ws_failed"@ || key == "status.signed_out"@ || key == "status.ready"@ || key == "status.pong"@ || key == "status.ping"@ || key == "status.disconnected"@ || key == "status.lang_set"@ || key == "status.lang_invalid"@ || key == "screen.sign_in"@ || key == "screen.create_account"@ || key == "screen.complete_registration"@ || key == "screen.device_login"@ || key == "field.email"@ || key == "field.code"@ || key == "field.name"@ || key == "hint.sign_in"@ || key == "hint.register"@ || key == "hint.account"@ || key == "hint.open_url"@ || key == "hint.manual_secret"@ {
        lemma_keys_in_use_part0(key);
    }
    if key == "hint.device_visit"@ || key == "hint.device_code_filled"@ || key == "hint.device_waiting"@ || key == "hint.not_signed_in"@ || key == "hint.no_messages"@ || key == "hint.help"@ || key == "hint.help_close"@ || key == "hint.device_cancel"@ || key == "title.activity"@ || key == "info.connected"@ || key == "provider.offline.nothing"@ || key == "provider.offline.missing_key"@ || key == "provider.offline.base_url"@ || key == "status.ask_empty"@ || key == "status.ask_not_connected"@ || key == "engine.plan_proposed"@ || key == "engine.plan_approved"@ || key == "engine.plan_rejected"@ || key == "engine.file_edit"@ || key == "engine.command_run"@ || key == "engine.approval_needed"@ || key == "engine.token_usage"@ || key == "engine.turn_complete"@ || key == "engine.turn_ended"@ || key == "engine.plan_prompt"@ || key == "engine.reason_outside_scope"@ || key == "engine.reason_sensitive"@ || key == "engine.approve_keys"@ || key == "engine.dropped_events"@ || key == "title.engine"@ || key == "status.engine_started"@ || key == "provider.reason.ollama_env"@ || key == "provider.reason.selector_env"@ || key == "provider.reason.stored"@ || key == "provider.reason.key_precedence"@ {
        lemma_keys_in_use_part1(key);
    }
    if key == "provider.reason.offline"@ || key == "provider.key.env"@ || key == "provider.key.keyring"@ || key == "provider.key.none"@ || key == "key.list"@ || key == "status.model_set"@ || key == "status.model_empty"@ || key == "status.model_unsupported"@ || key == "status.key_set"@ || key == "status.key_cleared"@ || key == "status.key_failed"@ || key == "status.key_unsupported"@ || key == "status.key_enter"@ || key == "status.key_empty"@ || key == "field.key"@ || key == "hint.key"@ || key == "title.help"@ || key == "help.section.global"@ || key == "help.global.help"@ || key == "help.global.quit"@ || key == "help.section.forms"@ || key == "help.forms.navigate"@ || key == "help.forms.submit"@ || key == "help.forms.command"@ || key == "help.forms.back"@ || key == "help.section.connected"@ || key == "help.connected.ping"@ || key == "help.connected.signout"@ || key == "help.connected.engine"@ || key == "help.connected.quit"@ || key == "help.section.engine"@ || key == "help.engine.send"@ || key == "help.engine.back"@ || key == "help.engine.approve"@ || key == "help.section.commands"@ {
        lemma_keys_in_use_part2(key);
    }
    if key == "help.commands.ask"@ || key == "help.commands.model"@ || key == "help.commands.key"@ || key == "help.commands.auth"@ || key == "help.commands.lang"@ || key == "connect.title"@ || key == "connect.connected"@ || key == "connect.key_heading"@ || key == "connect.models_heading"@ || key == "connect.fetching"@ || key == "connect.no_models"@ || key == "connect.fetch_error"@ || key == "connect.fetch_panicked"@ || key == "connect.no_key"@ || key == "connect.footer_list"@ || key == "connect.footer_key"@ || key == "connect.footer_fetching"@ || key == "connect.footer_models"@ || key == "models.title"@ || key == "models.offline"@ || key == "models.footer_offline"@ || key == "models.footer_list"@ || key == "models.footer_retry"@ || key == "models.footer_manual"@ || key == "models.credentials_hint"@ || key == "models.credentials_remedy"@ || key == "models.manual_unverified"@ || key == "help.commands.connect"@ || key == "help.commands.models"@ || key == "status.connect_not_connected"@ || key == "status.models_not_connected"@ || key == "status.settings_save_failed"@ {
        lemma_keys_in_use_part3(key);
    }
    lemma_es_mirrors_en(key);
}

} // verus!
