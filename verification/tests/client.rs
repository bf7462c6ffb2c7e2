use light_factory_tui::api::{ApiError, DeviceGrant, Registration};
use light_factory_tui::client::{App, Effect, EngineCommand, Focus, Mode, ServerMessage};
use light_factory_tui::config::Config;
use light_factory_tui::credentials::{CredentialStore, MemStore, StoreError};
use light_factory_tui::engine_view::{EventKind, Plan, Scope};
use light_factory_tui::fetch::{FetchError, FetchFailure};
use light_factory_tui::i18n::{t, Locale};
use light_factory_tui::keys::{KeyCode, KeyEvent, KeyModifiers};
use light_factory_tui::layout::{popup_layout, Rect};
use light_factory_tui::modal::{ConnectStep, FetchSink, Modal, ModelsStep};
use light_factory_tui::modal_view::{help_lines, ModalContext, ModalView, PopupView};
use light_factory_tui::provider::{OfflineReason, ProviderInfo};
use light_factory_tui::settings::{Session, Settings};

fn test_app() -> App {
    let config = Config::from_url("http://localhost:8080").unwrap();
    let provider_info = ProviderInfo {
        id: "local".to_string(),
        model: None,
        offline: None,
        selected_by: None,
        warnings: Vec::new(),
    };
    App::new(config, provider_info, Settings::empty(), None)
}

/// A store whose writes always fail, for the keyring-failure branch.
struct FailingStore;

impl CredentialStore for FailingStore {
    fn get(&mut self, _provider: &str) -> Result<Option<String>, StoreError> {
        Ok(None)
    }

    fn set(&mut self, _provider: &str, _key: &str) -> Result<(), StoreError> {
        Err(StoreError { message: "keyring unavailable".to_string() })
    }

    fn delete(&mut self, _provider: &str) -> Result<(), StoreError> {
        Ok(())
    }
}

fn no_env(_: &str) -> Option<String> {
    None
}

fn key(code: KeyCode) -> KeyEvent {
    KeyEvent::new(code, KeyModifiers::none())
}

fn ctrl(c: char) -> KeyEvent {
    KeyEvent::new(KeyCode::Char(c), KeyModifiers::control())
}

/// Open a modal directly on the host and return the nonce a fetch started for it would carry.
fn open(app: &mut App, modal: Modal) -> u64 {
    app.modal.open(modal);
    app.modal.nonce()
}

fn connect_step(app: &App) -> Option<&ConnectStep> {
    match app.modal.current() {
        Some(Modal::Connect(step)) => Some(step),
        _ => None,
    }
}

fn models_step(app: &App) -> Option<&ModelsStep> {
    match app.modal.current() {
        Some(Modal::Models(step)) => Some(step),
        _ => None,
    }
}

fn model_list_step(models: Vec<String>, fetching: bool) -> ConnectStep {
    ConnectStep::ModelList {
        rows: vec![],
        provider: "openai".to_string(),
        models,
        selected: 0,
        fetching,
        error: None,
        from_key: false,
    }
}

fn models_list_step(models: Vec<String>, fetching: bool) -> ModelsStep {
    ModelsStep::ModelList { provider: "openai".to_string(), models, selected: 0, fetching }
}

fn models_manual_step(input: &str) -> ModelsStep {
    ModelsStep::Manual { provider: "openai".to_string(), input: input.to_string(), error: None }
}

fn fetch_failed(message: &str) -> FetchError {
    FetchError { class: FetchFailure::Fetch, message: message.to_string() }
}

/// The open modal's popup, rendered for the app's locale and offline reason.
fn popup(app: &App) -> PopupView {
    let ctx = ModalContext {
        locale: app.config.lang,
        error: app.error.as_deref(),
        offline: app.provider_info.offline.as_ref(),
    };
    match app.modal.current().unwrap().render(&ctx) {
        ModalView::Popup(p) => p,
        ModalView::FullScreen(_) => panic!("expected a popup"),
    }
}

fn session() -> Session {
    Session {
        token: "tok".to_string(),
        expires_at: 0,
        email: "a@b.c".to_string(),
        display_name: "Ann".to_string(),
    }
}

#[test]
fn handle_connect_models_ignores_stale_nonces() {
    let mut app = test_app();
    let nonce = open(&mut app, Modal::Connect(model_list_step(vec![], true)));
    app.connect_models_fetched(nonce - 1, "openai".to_string(), Ok(vec!["gpt-4o".to_string()]));
    assert!(matches!(
        connect_step(&app),
        Some(ConnectStep::ModelList { fetching: true, models, .. }) if models.is_empty()
    ));
}

#[test]
fn handle_connect_models_fills_models_for_a_matching_nonce() {
    let mut app = test_app();
    let nonce = open(&mut app, Modal::Connect(model_list_step(vec![], true)));
    app.connect_models_fetched(
        nonce,
        "openai".to_string(),
        Ok(vec!["gpt-4o".to_string(), "gpt-4o-mini".to_string()]),
    );
    assert!(matches!(
        connect_step(&app),
        Some(ConnectStep::ModelList { fetching: false, error: None, models, .. })
            if *models == vec!["gpt-4o".to_string(), "gpt-4o-mini".to_string()]
    ));
}

#[test]
fn handle_connect_models_surfaces_a_fetch_error() {
    let mut app = test_app();
    let nonce = open(&mut app, Modal::Connect(model_list_step(vec![], true)));
    app.connect_models_fetched(nonce, "openai".to_string(), Err(fetch_failed("bad key")));
    assert!(matches!(
        connect_step(&app),
        Some(ConnectStep::ModelList { fetching: false, error: Some(_), .. })
    ));
}

#[test]
fn models_modal_renders_its_own_header() {
    let mut app = test_app();
    app.mode = Mode::Connected;
    open(&mut app, Modal::Models(models_list_step(vec!["gpt-4o".to_string()], false)));
    let view = popup(&app);
    assert!(view.title.contains("Select a model"), "{}", view.title);
    assert!(view.body.iter().any(|l| l.text.contains("gpt-4o")));
}

#[test]
fn a_long_model_list_keeps_the_selection_and_footer_on_screen() {
    let mut app = test_app();
    app.mode = Mode::Connected;
    let models: Vec<String> = (0..80).map(|i| format!("model-{i:03}")).collect();
    open(
        &mut app,
        Modal::Models(ModelsStep::ModelList {
            provider: "openai".to_string(),
            models,
            selected: 60,
            fetching: false,
        }),
    );
    let view = popup(&app);
    // The screen between the status line and the hint line of an 80x24 terminal.
    let area = Rect { x: 0, y: 1, width: 80, height: 22 };
    let layout = popup_layout(area, &view.body, view.focus);
    let (body, scroll) = layout.body.expect("the body has room");
    let focused = view.focus.unwrap();
    assert!(view.body[focused].text.contains("> model-060"));
    assert!(
        (scroll as usize) <= focused && focused < scroll as usize + body.height as usize,
        "the highlighted row scrolled off screen"
    );
    assert!(layout.footer.is_some(), "the footer scrolled off screen");
    assert!(view.footer.contains("Enter: select"));
}

#[test]
fn an_empty_list_does_not_advertise_enter() {
    let mut app = test_app();
    app.mode = Mode::Connected;
    open(&mut app, Modal::Models(models_list_step(vec![], false)));
    let view = popup(&app);
    assert!(!view.footer.contains("Enter: select"), "Enter is a no-op with nothing to select");
    assert!(view.footer.contains("Esc: close"));
}

#[test]
fn the_offline_modal_names_the_actual_reason() {
    let mut app = test_app();
    app.mode = Mode::Connected;
    app.provider_info.offline = Some(OfflineReason::NamedProviderMissingKey {
        selector: "openai".to_string(),
        key: "OPENAI_API_KEY".to_string(),
    });
    open(&mut app, Modal::Models(ModelsStep::Offline));
    let view = popup(&app);
    assert!(view.body.iter().any(|l| l.text.contains("OPENAI_API_KEY")));
}

#[test]
fn a_popup_on_a_tiny_terminal_does_not_panic() {
    let mut app = test_app();
    app.mode = Mode::Connected;
    open(&mut app, Modal::Models(models_list_step(vec!["gpt-4o".to_string()], false)));
    let view = popup(&app);
    for (w, h) in [(4u16, 3u16), (10, 4), (80, 5)] {
        let area = Rect { x: 0, y: 1, width: w, height: h.saturating_sub(2) };
        let layout = popup_layout(area, &view.body, view.focus);
        assert!(layout.popup.width <= w && layout.popup.height <= h);
    }
}

#[test]
fn models_fetch_result_is_ignored_when_the_provider_does_not_match() {
    let mut app = test_app();
    let nonce = open(&mut app, Modal::Models(models_list_step(vec![], true)));
    app.models_fetched(nonce, "anthropic".to_string(), Ok(vec!["other-model".to_string()]));
    assert!(
        matches!(models_step(&app), Some(ModelsStep::ModelList { fetching: true, models, .. }) if models.is_empty()),
        "a result for another provider must not populate this modal"
    );
}

#[test]
fn models_fetch_result_does_not_clobber_manual_entry() {
    let mut app = test_app();
    open(
        &mut app,
        Modal::Models(ModelsStep::Manual {
            provider: "openai".to_string(),
            input: "gpt-4".to_string(),
            error: None,
        }),
    );
    let nonce = app.modal.nonce();
    app.models_fetched(nonce, "openai".to_string(), Ok(vec!["gpt-4o".to_string()]));
    assert!(
        matches!(models_step(&app), Some(ModelsStep::Manual { input, .. }) if input == "gpt-4"),
        "a late result must not discard what the user typed"
    );
}

#[test]
fn an_empty_but_successful_fetch_stays_a_list() {
    let mut app = test_app();
    let nonce = open(&mut app, Modal::Models(models_list_step(vec![], true)));
    app.models_fetched(nonce, "openai".to_string(), Ok(vec![]));
    assert!(
        matches!(
            models_step(&app),
            Some(ModelsStep::ModelList { fetching: false, models, .. }) if models.is_empty()
        ),
        "an empty list is not a fetch failure and must not route to manual entry"
    );
}

#[test]
fn models_command_opens_a_fetching_list_for_the_active_provider() {
    let mut app = test_app();
    app.mode = Mode::Connected;
    app.provider_info.id = "local".to_string();
    let effects = app.run_command("/models", &mut MemStore::new(), no_env);
    assert!(
        matches!(
            models_step(&app),
            Some(ModelsStep::ModelList { provider, fetching: true, .. }) if provider == "local"
        ),
        "expected a fetching list scoped to provider_info.id, got {:?}",
        models_step(&app)
    );
    assert_ne!(app.modal.nonce(), 0, "the fetch nonce must be bumped");
    assert!(effects.iter().any(|e| matches!(
        e,
        Effect::FetchModels { provider, key: None, sink: FetchSink::Models, .. } if provider == "local"
    )));
}

#[test]
fn closing_the_modal_returns_to_the_mode_it_was_opened_from() {
    let mut app = test_app();
    app.mode = Mode::Engine;
    open(&mut app, Modal::Models(models_list_step(vec!["gpt-4o".to_string()], false)));
    app.handle_modal_key(key(KeyCode::Esc), &mut MemStore::new());
    assert!(app.modal.current().is_none());
    assert!(app.mode == Mode::Engine, "a modal never disturbs the mode it is opened over");
}

#[test]
fn losing_the_session_dismisses_an_open_models_modal() {
    let mut app = test_app();
    app.mode = Mode::Connected;
    open(&mut app, Modal::Models(models_list_step(vec!["gpt-4o".to_string()], false)));
    app.handle_server(ServerMessage::Error {
        code: "ws_closed".to_string(),
        message: "server closed the connection".to_string(),
    });
    assert!(app.modal.current().is_none(), "modal must not survive a sign-out");
    assert!(app.mode == Mode::SignIn);
}

#[test]
fn a_failed_save_rolls_back_the_staged_model() {
    let mut app = test_app();
    app.mode = Mode::Connected;
    app.provider_info.model = Some("stale-sentinel".to_string());
    open(
        &mut app,
        Modal::Models(ModelsStep::Manual {
            provider: "openai".to_string(),
            input: "o3".to_string(),
            error: None,
        }),
    );
    let effects = app.handle_modal_key(key(KeyCode::Enter), &mut MemStore::new());
    assert!(effects.iter().any(|e| matches!(e, Effect::SaveSettings { .. })));
    // The write fails, the way a path under a non-directory always does.
    let after = app.settings_saved(Err("Not a directory (os error 20)".to_string()));
    assert!(after.is_empty(), "a failed write rebuilds nothing");
    assert!(
        app.settings.models.is_empty(),
        "a model that failed to save must not linger and be persisted by a later write"
    );
    assert!(app.error.is_some(), "the failure must be surfaced");
    assert_eq!(
        app.provider_info.model.as_deref(),
        Some("stale-sentinel"),
        "a failed save must not activate the model"
    );
}

#[test]
fn models_command_error_names_the_models_command() {
    let mut app = test_app();
    app.mode = Mode::SignIn;
    let expected = t(app.config.lang, "status.models_not_connected").to_string();
    app.run_command("/models", &mut MemStore::new(), no_env);
    assert_eq!(app.error.as_deref(), Some(expected.as_str()));
}

#[test]
fn handle_models_fetched_ignores_stale_nonces() {
    let mut app = test_app();
    let nonce = open(&mut app, Modal::Models(models_list_step(vec![], true)));
    app.models_fetched(nonce - 1, "openai".to_string(), Ok(vec!["gpt-4o".to_string()]));
    assert!(matches!(
        models_step(&app),
        Some(ModelsStep::ModelList { fetching: true, models, .. }) if models.is_empty()
    ));
}

#[test]
fn handle_models_fetched_pre_highlights_the_current_model() {
    let mut app = test_app();
    app.provider_info.model = Some("o3".to_string());
    let nonce = open(&mut app, Modal::Models(models_list_step(vec![], true)));
    app.models_fetched(
        nonce,
        "openai".to_string(),
        Ok(vec!["gpt-4o".to_string(), "o3".to_string()]),
    );
    assert!(matches!(
        models_step(&app),
        Some(ModelsStep::ModelList { fetching: false, selected: 1, models, .. }) if models.len() == 2
    ));
}

#[test]
fn handle_models_fetched_falls_back_to_the_first_row_when_the_model_is_absent() {
    let mut app = test_app();
    app.provider_info.model = Some("not-listed".to_string());
    let nonce = open(&mut app, Modal::Models(models_list_step(vec![], true)));
    app.models_fetched(
        nonce,
        "openai".to_string(),
        Ok(vec!["gpt-4o".to_string(), "o3".to_string()]),
    );
    assert!(matches!(
        models_step(&app),
        Some(ModelsStep::ModelList { fetching: false, selected: 0, .. })
    ));
}

#[test]
fn handle_models_fetched_falls_back_to_manual_entry_on_a_fetch_error() {
    let mut app = test_app();
    let nonce = open(&mut app, Modal::Models(models_list_step(vec![], true)));
    app.models_fetched(nonce, "openai".to_string(), Err(fetch_failed("bad key")));
    assert!(matches!(
        models_step(&app),
        Some(ModelsStep::Manual { provider, input, error: Some(_) })
            if provider == "openai" && input.is_empty()
    ));
}

#[test]
fn a_credential_failure_shows_the_remedy_instead_of_manual_entry() {
    let mut app = test_app();
    let nonce = open(&mut app, Modal::Models(models_list_step(vec![], true)));
    let err = FetchError { class: FetchFailure::Auth, message: "refused".to_string() };
    app.models_fetched(nonce, "openai".to_string(), Err(err));
    assert!(matches!(
        models_step(&app),
        Some(ModelsStep::Credentials { provider, error })
            if provider == "openai" && error == "Couldn't fetch models: refused"
    ));
}

#[test]
fn models_enter_persists_the_highlighted_model_and_rebuilds() {
    let mut app = test_app();
    app.mode = Mode::Connected;
    open(
        &mut app,
        Modal::Models(ModelsStep::ModelList {
            provider: "openai".to_string(),
            models: vec!["gpt-4o".to_string(), "o3".to_string()],
            selected: 1,
            fetching: false,
        }),
    );
    let effects = app.handle_modal_key(key(KeyCode::Enter), &mut MemStore::new());
    assert!(app.modal.current().is_none());
    assert_eq!(app.settings.models.get("openai").map(String::as_str), Some("o3"));
    assert!(app.settings.provider.is_none(), "/models must not activate a provider");
    assert!(effects.iter().any(|e| matches!(e, Effect::SaveSettings { .. })), "settings were saved");
    let after = app.settings_saved(Ok(()));
    assert_eq!(after, vec![Effect::RebuildProvider]);
    assert_eq!(app.status, "Model set to o3");
}

#[test]
fn models_manual_enter_persists_the_trimmed_id() {
    let mut app = test_app();
    app.mode = Mode::Connected;
    open(
        &mut app,
        Modal::Models(ModelsStep::Manual {
            provider: "openai".to_string(),
            input: "  o3-mini  ".to_string(),
            error: None,
        }),
    );
    app.handle_modal_key(key(KeyCode::Enter), &mut MemStore::new());
    assert!(app.modal.current().is_none());
    assert_eq!(app.settings.models.get("openai").map(String::as_str), Some("o3-mini"));
    assert!(app.settings.provider.is_none());
}

#[test]
fn models_apply_rebuilds_the_active_provider() {
    let mut app = test_app();
    app.mode = Mode::Connected;
    app.provider_info.model = Some("stale-sentinel".to_string());
    open(
        &mut app,
        Modal::Models(ModelsStep::Manual {
            provider: "ollama".to_string(),
            input: "llama3".to_string(),
            error: None,
        }),
    );
    app.handle_modal_key(key(KeyCode::Enter), &mut MemStore::new());
    assert_eq!(app.settings.models.get("ollama").map(String::as_str), Some("llama3"));
    let after = app.settings_saved(Ok(()));
    assert_eq!(after, vec![Effect::RebuildProvider], "apply must rebuild the active provider");
    app.provider_rebuilt(ProviderInfo {
        id: "ollama".to_string(),
        model: Some("llama3".to_string()),
        offline: None,
        selected_by: None,
        warnings: Vec::new(),
    });
    assert_ne!(app.provider_info.model.as_deref(), Some("stale-sentinel"));
}

#[test]
fn models_esc_closes_without_touching_settings() {
    let mut app = test_app();
    app.mode = Mode::Connected;
    open(&mut app, Modal::Models(models_list_step(vec!["gpt-4o".to_string()], false)));
    app.handle_modal_key(key(KeyCode::Esc), &mut MemStore::new());
    assert!(app.modal.current().is_none());
    assert!(app.mode == Mode::Connected);
    assert!(app.settings.models.is_empty());
}

#[test]
fn models_blank_manual_enter_stays_open_without_touching_settings() {
    let mut app = test_app();
    app.mode = Mode::Connected;
    open(&mut app, Modal::Models(models_manual_step("   ")));
    app.handle_modal_key(key(KeyCode::Enter), &mut MemStore::new());
    assert!(matches!(models_step(&app), Some(ModelsStep::Manual { .. })));
    assert!(app.settings.models.is_empty());
}

#[test]
fn opening_the_models_modal_replaces_an_open_connect_modal() {
    let mut app = test_app();
    open(&mut app, Modal::Connect(ConnectStep::ProviderList { rows: vec![], selected: 0 }));
    app.provider_info.offline = Some(OfflineReason::NothingConfigured);
    app.enter_models();
    assert!(matches!(app.modal.current(), Some(Modal::Models(_))), "only one modal can be open at a time");
}

#[test]
fn opening_a_second_modal_invalidates_the_first_modals_fetch() {
    let mut app = test_app();
    let stale = open(&mut app, Modal::Models(models_list_step(vec![], true)));
    app.enter_connect(vec![]);
    app.models_fetched(stale, "openai".to_string(), Ok(vec!["m".to_string()]));
    assert!(
        matches!(app.modal.current(), Some(Modal::Connect(ConnectStep::ProviderList { .. }))),
        "a fetch from the replaced modal must not reach the new one"
    );
}

#[test]
fn closing_the_models_modal_invalidates_an_in_flight_fetch() {
    let mut app = test_app();
    app.mode = Mode::Connected;
    let nonce = open(&mut app, Modal::Models(models_list_step(vec![], true)));
    app.handle_modal_key(key(KeyCode::Esc), &mut MemStore::new());
    assert!(app.modal.current().is_none());
    assert_ne!(app.modal.nonce(), nonce, "the in-flight fetch must be invalidated");
}

#[test]
fn models_command_requires_a_connected_session() {
    let mut app = test_app();
    app.mode = Mode::SignIn;
    app.run_command("/models", &mut MemStore::new(), no_env);
    assert!(app.modal.current().is_none());
    assert!(app.error.is_some());
}

#[test]
fn models_command_opens_the_modal_offline_when_no_provider_is_active() {
    let mut app = test_app();
    app.mode = Mode::Connected;
    app.provider_info.offline = Some(OfflineReason::NothingConfigured);
    app.run_command("/models", &mut MemStore::new(), no_env);
    assert_eq!(models_step(&app), Some(&ModelsStep::Offline));
    assert!(app.settings.models.is_empty());
}

#[test]
fn app_help_lists_the_models_command() {
    let lines = help_lines(Locale::En);
    assert!(lines.iter().any(|l| l.contains("/models")));
}

#[test]
fn handle_connect_key_blank_key_stays_on_key_entry() {
    let mut app = test_app();
    open(
        &mut app,
        Modal::Connect(ConnectStep::KeyEntry {
            rows: vec![],
            provider: "openai".to_string(),
            input: "  ".to_string(),
        }),
    );
    app.handle_modal_key(key(KeyCode::Enter), &mut MemStore::new());
    assert!(matches!(connect_step(&app), Some(ConnectStep::KeyEntry { .. })));
}

#[test]
fn handle_connect_key_keyring_failure_sets_error_and_stays() {
    let mut app = test_app();
    open(
        &mut app,
        Modal::Connect(ConnectStep::KeyEntry {
            rows: vec![],
            provider: "openai".to_string(),
            input: "sk-x".to_string(),
        }),
    );
    app.handle_modal_key(key(KeyCode::Enter), &mut FailingStore);
    assert!(matches!(connect_step(&app), Some(ConnectStep::KeyEntry { .. })));
    assert!(app.error.is_some());
}

#[test]
fn a_stored_connect_key_goes_with_the_fetch_it_starts() {
    let mut app = test_app();
    let mut store = MemStore::new();
    open(
        &mut app,
        Modal::Connect(ConnectStep::KeyEntry {
            rows: vec![],
            provider: "openai".to_string(),
            input: " sk-x ".to_string(),
        }),
    );
    let effects = app.handle_modal_key(key(KeyCode::Enter), &mut store);
    assert_eq!(store.get("openai").unwrap(), Some("sk-x".to_string()));
    assert!(effects.iter().any(|e| matches!(
        e,
        Effect::FetchModels { provider, key: Some(k), sink: FetchSink::Connect, .. }
            if provider == "openai" && k == "sk-x"
    )));
    assert!(app.modal.tracks_fetch());
}

#[test]
fn help_modal_opens_and_restores_the_prior_mode() {
    let mut app = test_app();
    assert!(matches!(app.mode, Mode::SignIn));
    app.open_help();
    assert!(matches!(app.mode, Mode::Help));
    assert!(matches!(app.help_return, Mode::SignIn));
    app.close_help();
    assert!(matches!(app.mode, Mode::SignIn));
}

#[test]
fn help_modal_returns_to_the_mode_it_was_opened_from() {
    let mut app = test_app();
    app.mode = Mode::Connected;
    app.open_help();
    assert!(matches!(app.help_return, Mode::Connected));
    app.close_help();
    assert!(matches!(app.mode, Mode::Connected));
}

#[test]
fn esc_and_ctrl_p_close_help_but_ctrl_c_quits() {
    let mut app = test_app();

    app.open_help();
    assert!(app.handle_help_key(KeyEvent::new(KeyCode::Esc, KeyModifiers::none())).is_empty());
    assert!(matches!(app.mode, Mode::SignIn));

    app.open_help();
    assert!(app.handle_help_key(ctrl('p')).is_empty());
    assert!(matches!(app.mode, Mode::SignIn));

    app.open_help();
    assert_eq!(app.handle_help_key(ctrl('c')), vec![Effect::Quit]);
}

#[test]
fn typing_fills_the_focused_field_and_tab_moves_between_them() {
    let mut app = test_app();
    let mut store = MemStore::new();
    for c in "a@b.c".chars() {
        app.handle_key(key(KeyCode::Char(c)), &mut store, no_env);
    }
    app.handle_key(key(KeyCode::Tab), &mut store, no_env);
    assert_eq!(app.form.focus, Focus::Code);
    for c in "123456".chars() {
        app.handle_key(key(KeyCode::Char(c)), &mut store, no_env);
    }
    app.handle_key(key(KeyCode::Backspace), &mut store, no_env);
    assert_eq!(app.form.email, "a@b.c");
    assert_eq!(app.form.code, "12345");
    let effects = app.handle_key(key(KeyCode::Enter), &mut store, no_env);
    assert_eq!(
        effects,
        vec![Effect::Login { email: "a@b.c".to_string(), code: "12345".to_string() }]
    );
    assert_eq!(app.status, "Signing in...");
}

#[test]
fn submitting_without_a_code_names_it() {
    let mut app = test_app();
    app.form.email = "a@b.c".to_string();
    app.form.focus = Focus::Code;
    assert!(app.submit().is_empty());
    assert_eq!(app.error.as_deref(), Some("TOTP code is required"));
}

#[test]
fn a_successful_sign_in_saves_the_session_and_opens_the_socket() {
    let mut app = test_app();
    let effects = app.auth_finished(Ok(session()));
    assert_eq!(
        effects,
        vec![
            Effect::SaveSession { session: session() },
            Effect::ConnectWs { token: "tok".to_string() },
        ]
    );
    assert!(app.mode == Mode::Connected);
    app.ws_finished(Ok(()));
    assert!(app.ws_connected);
    assert_eq!(app.status, "Connected as a@b.c");
}

#[test]
fn a_refused_sign_in_shows_the_translated_error() {
    let mut app = test_app();
    app.auth_finished(Err(ApiError {
        code: "invalid_credentials".to_string(),
        message: "raw".to_string(),
    }));
    assert_eq!(app.error.as_deref(), Some("Invalid email or code"));
    app.auth_finished(Err(ApiError { code: "teapot".to_string(), message: "raw".to_string() }));
    assert_eq!(app.error.as_deref(), Some("raw"));
}

#[test]
fn registration_asks_for_the_first_code() {
    let mut app = test_app();
    app.mode = Mode::Register;
    app.register_finished(Ok(Registration {
        setup_token: "st".to_string(),
        secret: "S3CR3T".to_string(),
        otpauth_url: "otpauth://x".to_string(),
    }));
    assert!(app.mode == Mode::RegisterCode);
    assert_eq!(app.form.focus, Focus::Code);
    app.form.code = "111111".to_string();
    assert_eq!(
        app.submit(),
        vec![Effect::ConfirmRegistration { setup_token: "st".to_string(), code: "111111".to_string() }]
    );
}

#[test]
fn a_device_login_polls_and_a_cancelled_one_ignores_its_result() {
    let mut app = test_app();
    assert_eq!(app.resume(None), vec![Effect::RequestDeviceCode]);
    let effects = app.device_started(Ok(DeviceGrant {
        device_code: "dc".to_string(),
        user_code: "ABCD-EFGH".to_string(),
        verification_uri: "https://x/device".to_string(),
        verification_uri_complete: "https://x/device?code=ABCD-EFGH".to_string(),
        interval: 0,
    }));
    assert_eq!(
        effects,
        vec![
            Effect::OpenBrowser { url: "https://x/device?code=ABCD-EFGH".to_string() },
            Effect::PollDevice { nonce: 1, device_code: "dc".to_string(), interval_secs: 1 },
        ]
    );
    assert!(app.mode == Mode::Device);
    app.handle_key(key(KeyCode::Esc), &mut MemStore::new(), no_env);
    assert!(app.mode == Mode::SignIn);
    assert!(app.device_finished(1, Ok(session())).is_empty(), "the cancelled login's grant is ignored");
    assert!(app.session.is_none());
}

#[test]
fn a_closed_socket_signs_out_with_the_reason() {
    let mut app = test_app();
    app.enter(session());
    app.ws_finished(Ok(()));
    let effects = app.handle_server(ServerMessage::Error {
        code: "ws_closed".to_string(),
        message: "connection closed".to_string(),
    });
    assert_eq!(effects, vec![Effect::DropWs]);
    assert_eq!(app.status, "Disconnected: Connection closed");
    assert_eq!(app.activity.log, vec!["[ws_closed] connection closed".to_string()]);
}

#[test]
fn pings_are_numbered_and_pongs_counted() {
    let mut app = test_app();
    app.enter(session());
    app.ws_finished(Ok(()));
    assert!(app.tick(29).is_empty());
    assert_eq!(app.tick(30), vec![Effect::SendPing { nonce: "1".to_string() }]);
    app.handle_server(ServerMessage::Pong { nonce: "1".to_string() });
    assert_eq!(app.activity.pongs, 1);
    assert_eq!(app.activity.log, vec!["Ping 1".to_string(), "Pong 1".to_string()]);
}

#[test]
fn the_activity_log_keeps_the_newest_two_hundred_lines() {
    let mut app = test_app();
    for i in 0..250 {
        app.push_log(format!("line {i}"));
    }
    assert_eq!(app.activity.log.len(), 200);
    assert_eq!(app.activity.log[0], "line 50");
    assert_eq!(app.activity.log[199], "line 249");
}

#[test]
fn commands_route_and_refuse_what_needs_a_session() {
    let mut app = test_app();
    let mut store = MemStore::new();
    app.run_command("/ask hi", &mut store, no_env);
    assert_eq!(app.error.as_deref(), Some("/ask is available after you sign in"));
    app.run_command("/ask", &mut store, no_env);
    assert_eq!(app.error.as_deref(), Some("Usage: /ask <prompt>"));
    app.run_command("/nope", &mut store, no_env);
    assert_eq!(app.error.as_deref(), Some("unknown command: /nope"));
    app.mode = Mode::Connected;
    assert_eq!(
        app.run_command("  /ask  hi there ", &mut store, no_env),
        vec![Effect::Ask { prompt: "hi there".to_string() }]
    );
    assert_eq!(app.run_command("/auth/login", &mut store, no_env), vec![Effect::RequestDeviceCode]);
}

#[test]
fn the_key_commands_list_enter_and_clear_keys() {
    let mut app = test_app();
    let mut store = MemStore::new();
    store.set("openai", "sk").unwrap();
    let only_gemini = |v: &str| if v == "GEMINI_API_KEY" { Some("g".to_string()) } else { None };
    app.run_command("/key", &mut store, only_gemini);
    assert_eq!(
        app.activity.log,
        vec!["keys: anthropic: none, openai: keyring, gemini: env, deepseek: none".to_string()]
    );
    app.run_command("/key ollama", &mut store, no_env);
    assert_eq!(app.error.as_deref(), Some("ollama does not take an API key"));
    app.run_command("/key deepseek", &mut store, no_env);
    assert!(app.mode == Mode::Key);
    let mut effects = Vec::new();
    for c in "sk-d".chars() {
        effects.extend(app.handle_key(key(KeyCode::Char(c)), &mut store, no_env));
    }
    effects.extend(app.handle_key(key(KeyCode::Enter), &mut store, no_env));
    assert_eq!(effects, vec![Effect::RebuildProvider]);
    assert_eq!(store.get("deepseek").unwrap(), Some("sk-d".to_string()));
    assert_eq!(app.status, "API key saved for deepseek");
    assert_eq!(app.run_command("/key openai clear", &mut store, no_env), vec![Effect::RebuildProvider]);
    assert_eq!(store.get("openai").unwrap(), None);
}

#[test]
fn the_connect_command_lists_every_provider_with_its_state() {
    let mut app = test_app();
    app.mode = Mode::Connected;
    let mut store = MemStore::new();
    store.set("gemini", "k").unwrap();
    let ollama_on = |v: &str| if v == "LIGHT_OLLAMA" { Some("1".to_string()) } else { None };
    app.run_command("/connect", &mut store, ollama_on);
    let Some(ConnectStep::ProviderList { rows, selected: 0 }) = connect_step(&app) else {
        panic!("expected the provider list");
    };
    let listed: Vec<(&str, bool)> = rows.iter().map(|r| (r.id.as_str(), r.connected)).collect();
    assert_eq!(
        listed,
        vec![("anthropic", false), ("openai", false), ("gemini", true), ("deepseek", false), ("ollama", true)]
    );
}

#[test]
fn a_connect_apply_adopts_the_provider_and_rolls_back_on_a_failed_write() {
    let mut app = test_app();
    app.mode = Mode::Connected;
    app.settings.provider = Some("anthropic".to_string());
    open(
        &mut app,
        Modal::Connect(ConnectStep::ModelList {
            rows: vec![],
            provider: "openai".to_string(),
            models: vec!["gpt-5".to_string()],
            selected: 0,
            fetching: false,
            error: None,
            from_key: false,
        }),
    );
    app.handle_modal_key(key(KeyCode::Enter), &mut MemStore::new());
    assert_eq!(app.settings.provider.as_deref(), Some("openai"));
    app.settings_saved(Err("disk full".to_string()));
    assert_eq!(app.settings.provider.as_deref(), Some("anthropic"));
    assert!(app.settings.models.is_empty());
    assert_eq!(app.error.as_deref(), Some("Could not save settings: disk full"));
}

#[test]
fn lang_switches_and_is_restored_when_the_write_fails() {
    let mut app = test_app();
    let mut store = MemStore::new();
    app.run_command("/lang es", &mut store, no_env);
    assert_eq!(app.config.lang, Locale::Es);
    assert_eq!(app.settings.lang, "es");
    app.settings_saved(Ok(()));
    assert_eq!(app.status, "Idioma cambiado a es");
    app.run_command("/lang en", &mut store, no_env);
    app.settings_saved(Err("nope".to_string()));
    assert_eq!(app.config.lang, Locale::Es);
    assert_eq!(app.settings.lang, "es");
    app.run_command("/lang xx", &mut store, no_env);
    assert_eq!(app.error.as_deref(), Some("Idioma desconocido; usa 'en' o 'es'"));
}

#[test]
fn the_engine_pane_logs_events_and_answers_a_pending_plan() {
    let mut app = test_app();
    app.enter(session());
    app.provider_info.warnings = vec!["careful".to_string()];
    app.provider_info.offline = Some(OfflineReason::NothingConfigured);
    app.engine_started(Ok(()));
    assert!(app.mode == Mode::Engine);
    assert_eq!(app.engine.log.len(), 2);
    app.engine_event(EventKind::PlanProposed {
        plan_id: 9,
        plan: Plan {
            id: 9,
            summary: "s".to_string(),
            steps: vec![],
            scope: Scope { write_paths: vec![], commands: vec![] },
        },
    });
    assert!(app.engine.pending.is_some());
    let effects = app.handle_key(key(KeyCode::Char('a')), &mut MemStore::new(), no_env);
    assert_eq!(
        effects,
        vec![Effect::Engine { command: EngineCommand::ApprovePlan { plan_id: 9, approved: true } }]
    );
    assert!(app.engine.pending.is_none());
    for c in " go ".chars() {
        app.handle_key(key(KeyCode::Char(c)), &mut MemStore::new(), no_env);
    }
    let effects = app.handle_key(key(KeyCode::Enter), &mut MemStore::new(), no_env);
    assert_eq!(
        effects,
        vec![Effect::Engine { command: EngineCommand::SendPrompt { text: "go".to_string() } }]
    );
    assert_eq!(app.engine.log.last().map(String::as_str), Some("> go"));
    assert_eq!(app.handle_key(key(KeyCode::Esc), &mut MemStore::new(), no_env), vec![Effect::StopEngine]);
    assert!(app.mode == Mode::Connected);
    assert_eq!(app.status, "Connected as a@b.c");
}

#[test]
fn ctrl_p_opens_help_from_a_screen_and_the_command_line_edits() {
    let mut app = test_app();
    let mut store = MemStore::new();
    app.handle_key(ctrl('p'), &mut store, no_env);
    assert!(app.mode == Mode::Help);
    app.handle_key(key(KeyCode::Esc), &mut store, no_env);
    assert!(app.mode == Mode::SignIn);
    app.handle_key(key(KeyCode::Char('/')), &mut store, no_env);
    assert!(app.command.active);
    for c in "modelx".chars() {
        app.handle_key(key(KeyCode::Char(c)), &mut store, no_env);
    }
    app.handle_key(key(KeyCode::Backspace), &mut store, no_env);
    assert_eq!(app.command.text, "/model");
    app.handle_key(key(KeyCode::Enter), &mut store, no_env);
    assert!(!app.command.active);
    assert_eq!(app.error.as_deref(), Some("Usage: /model <id>"));
    assert_eq!(app.handle_key(ctrl('c'), &mut store, no_env), vec![Effect::Quit]);
}

#[test]
fn sign_out_clears_the_session_and_the_log() {
    let mut app = test_app();
    app.enter(session());
    app.ws_finished(Ok(()));
    app.push_log("x".to_string());
    let effects = app.sign_out();
    assert_eq!(
        effects,
        vec![Effect::Logout { token: "tok".to_string() }, Effect::ClearSession, Effect::DropWs]
    );
    assert!(app.session.is_none() && !app.ws_connected);
    assert!(app.activity.log.is_empty());
    assert_eq!(app.status, "Signed out");
}

/// A store whose writes fail, recording what it was asked to write.
struct RecordingFailStore {
    writes: Vec<(String, String)>,
}

impl CredentialStore for RecordingFailStore {
    fn get(&mut self, _provider: &str) -> Result<Option<String>, StoreError> {
        Ok(None)
    }

    fn set(&mut self, provider: &str, key: &str) -> Result<(), StoreError> {
        self.writes.push((provider.to_string(), key.to_string()));
        Err(StoreError { message: "keyring unavailable".to_string() })
    }

    fn delete(&mut self, _provider: &str) -> Result<(), StoreError> {
        Ok(())
    }
}

#[test]
fn a_failed_connect_key_write_asks_once_and_shows_the_store_reason() {
    let mut app = test_app();
    open(
        &mut app,
        Modal::Connect(ConnectStep::KeyEntry {
            rows: vec![],
            provider: "openai".to_string(),
            input: "  sk-x ".to_string(),
        }),
    );
    let mut store = RecordingFailStore { writes: Vec::new() };
    let effects = app.handle_modal_key(key(KeyCode::Enter), &mut store);
    assert!(effects.is_empty());
    assert_eq!(store.writes, vec![("openai".to_string(), "sk-x".to_string())]);
    let error = app.error.clone().unwrap();
    assert!(error.contains("openai") && error.contains("keyring unavailable"), "{error}");
    assert!(matches!(connect_step(&app), Some(ConnectStep::KeyEntry { .. })));
}
