use light_factory_tui::credentials::{CredentialStore, MemStore};
use light_factory_tui::fetch::{model_fetch_plan, FetchPlan, 
    class_for_provider, class_for_status, fetch_error, missing_key_error, panicked_fetch_error,
    summarize_provider_error, FetchError, FetchFailure, PROVIDER_ERROR_MAX_CHARS,
};
use light_factory_tui::i18n::Locale;
use light_factory_tui::keys::{KeyCode, KeyEvent, KeyModifiers};
use light_factory_tui::modal::{
    connect_step_next, cycle_index, models_step_next, ConnectStep, FetchSink, Modal, ModalApply,
    ModalHost, ModalTransition, ModelsStep, ProviderRow,
};
use light_factory_tui::modal_view::{help_lines, mask, ModalContext};

fn ctx() -> ModalContext<'static> {
    ModalContext { locale: Locale::En, error: None, offline: None }
}

fn model_apply(provider: &str, model: &str, verified: bool) -> ModalTransition {
    ModalTransition::Apply(ModalApply::Model {
        provider: provider.to_string(),
        model: model.to_string(),
        verified,
    })
}

fn refetch_step(provider: &str) -> ModalTransition {
    ModalTransition::Step(Modal::Models(ModelsStep::ModelList {
        provider: provider.to_string(),
        models: Vec::new(),
        selected: 0,
        fetching: true,
    }))
}

fn key(code: KeyCode) -> KeyEvent {
    KeyEvent::new(code, KeyModifiers::none())
}

fn ctrl_key(code: KeyCode) -> KeyEvent {
    KeyEvent::new(code, KeyModifiers::control())
}

fn row(id: &str, connected: bool) -> ProviderRow {
    ProviderRow { id: id.to_string(), connected }
}

fn model_list_step(models: Vec<String>, fetching: bool) -> ConnectStep {
    ConnectStep::ModelList {
        rows: vec![],
        provider: "openai".to_string(),
        models,
        selected: 0,
        fetching,
        error: None,
        from_key: false,
    }
}

fn models_list_step(models: Vec<String>, fetching: bool) -> ModelsStep {
    ModelsStep::ModelList { provider: "openai".to_string(), models, selected: 0, fetching }
}

fn models_manual_step(input: &str) -> ModelsStep {
    ModelsStep::Manual {
        provider: "openai".to_string(),
        input: input.to_string(),
        error: Some("Couldn't fetch models: connection refused".to_string()),
    }
}

#[test]
fn modal_mask_never_echoes_input() {
    assert_eq!(mask(""), "");
    assert_eq!(mask("abc"), "***");
    assert_eq!(mask("sk-secret"), "*********");
}

#[test]
fn cycle_index_wraps_at_both_ends() {
    assert_eq!(cycle_index(0, 3, -1), 2);
    assert_eq!(cycle_index(2, 3, 1), 0);
    assert_eq!(cycle_index(1, 3, 1), 2);
    assert_eq!(cycle_index(0, 0, 1), 0);
}

#[test]
fn connect_provider_enter_routes_by_connection_state() {
    let rows = vec![row("openai", false), row("ollama", true), row("gemini", true)];
    let step = ConnectStep::ProviderList { rows: rows.clone(), selected: 0 };
    assert!(matches!(
        connect_step_next(&step, key(KeyCode::Enter)),
        ModalTransition::Step(Modal::Connect(ConnectStep::KeyEntry { provider, .. })) if provider == "openai"
    ));
    let step = ConnectStep::ProviderList { rows: rows.clone(), selected: 1 };
    assert!(matches!(
        connect_step_next(&step, key(KeyCode::Enter)),
        ModalTransition::Step(Modal::Connect(ConnectStep::ModelList {
            provider,
            fetching: true,
            ..
        })) if provider == "ollama"
    ));
    let step = ConnectStep::ProviderList { rows, selected: 2 };
    assert!(matches!(
        connect_step_next(&step, key(KeyCode::Enter)),
        ModalTransition::Step(Modal::Connect(ConnectStep::ModelList {
            provider,
            fetching: true,
            from_key: false,
            ..
        })) if provider == "gemini"
    ));
}

#[test]
fn connect_ollama_skips_the_key_step_even_when_unconnected() {
    let rows = vec![row("ollama", false)];
    let step = ConnectStep::ProviderList { rows, selected: 0 };
    assert!(matches!(
        connect_step_next(&step, key(KeyCode::Enter)),
        ModalTransition::Step(Modal::Connect(ConnectStep::ModelList { provider, .. })) if provider == "ollama"
    ));
}

#[test]
fn connect_esc_closes_from_provider_list() {
    let step = ConnectStep::ProviderList { rows: vec![row("openai", false)], selected: 0 };
    assert!(connect_step_next(&step, key(KeyCode::Esc)) == ModalTransition::Close);
}

#[test]
fn connect_key_entry_enter_blank_stays_and_esc_returns_to_list() {
    let rows = vec![row("openai", false)];
    let step = ConnectStep::KeyEntry {
        rows: rows.clone(),
        provider: "openai".to_string(),
        input: String::new(),
    };
    assert!(matches!(
        connect_step_next(&step, key(KeyCode::Enter)),
        ModalTransition::Step(Modal::Connect(ConnectStep::KeyEntry { input, .. })) if input.is_empty()
    ));
    assert!(matches!(
        connect_step_next(&step, key(KeyCode::Esc)),
        ModalTransition::Step(Modal::Connect(ConnectStep::ProviderList { selected: 0, .. }))
    ));
}

#[test]
fn connect_key_entry_enter_with_key_fetches_models() {
    let rows = vec![row("openai", false)];
    let step = ConnectStep::KeyEntry {
        rows,
        provider: "openai".to_string(),
        input: "sk-x".to_string(),
    };
    assert!(matches!(
        connect_step_next(&step, key(KeyCode::Enter)),
        ModalTransition::Step(Modal::Connect(ConnectStep::ModelList {
            provider,
            fetching: true,
            from_key: true,
            ..
        })) if provider == "openai"
    ));
}

#[test]
fn connect_model_list_enter_selects_and_esc_routes_back() {
    let step = ConnectStep::ModelList {
        rows: vec![row("openai", false)],
        provider: "openai".to_string(),
        models: vec!["gpt-4o".to_string()],
        selected: 0,
        fetching: false,
        error: None,
        from_key: true,
    };
    assert!(
        connect_step_next(&step, key(KeyCode::Enter))
            == ModalTransition::Apply(ModalApply::Provider {
                provider: "openai".to_string(),
                model: "gpt-4o".to_string(),
            })
    );

    let step = ConnectStep::ModelList {
        rows: vec![row("openai", false)],
        provider: "openai".to_string(),
        models: vec![],
        selected: 0,
        fetching: false,
        error: Some("bad key".to_string()),
        from_key: false,
    };
    assert!(matches!(
        connect_step_next(&step, key(KeyCode::Esc)),
        ModalTransition::Step(Modal::Connect(ConnectStep::KeyEntry { provider, .. })) if provider == "openai"
    ));

    let step = ConnectStep::ModelList {
        rows: vec![row("ollama", false)],
        provider: "ollama".to_string(),
        models: vec![],
        selected: 0,
        fetching: false,
        error: Some("unreachable".to_string()),
        from_key: false,
    };
    assert!(matches!(
        connect_step_next(&step, key(KeyCode::Esc)),
        ModalTransition::Step(Modal::Connect(ConnectStep::ProviderList { .. }))
    ));
}

#[test]
fn connect_model_list_enter_is_a_noop_while_fetching() {
    let step = ConnectStep::ModelList {
        rows: vec![row("openai", false)],
        provider: "openai".to_string(),
        models: vec![],
        selected: 0,
        fetching: true,
        error: None,
        from_key: false,
    };
    assert!(matches!(
        connect_step_next(&step, key(KeyCode::Enter)),
        ModalTransition::Step(Modal::Connect(ConnectStep::ModelList { fetching: true, .. }))
    ));
}

#[test]
fn connect_up_down_wrap_the_provider_selection() {
    let rows = vec![row("a", false), row("b", false), row("c", false)];
    let step = ConnectStep::ProviderList { rows, selected: 0 };
    assert!(matches!(
        connect_step_next(&step, key(KeyCode::Up)),
        ModalTransition::Step(Modal::Connect(ConnectStep::ProviderList { selected: 2, .. }))
    ));
    assert!(matches!(
        connect_step_next(&step, key(KeyCode::Down)),
        ModalTransition::Step(Modal::Connect(ConnectStep::ProviderList { selected: 1, .. }))
    ));
}

#[test]
fn models_offline_closes_on_esc_and_enter_and_ignores_typing() {
    let step = ModelsStep::Offline;
    assert!(models_step_next(&step, key(KeyCode::Esc)) == ModalTransition::Close);
    assert!(models_step_next(&step, key(KeyCode::Enter)) == ModalTransition::Close);
    assert!(
        models_step_next(&step, key(KeyCode::Char('x')))
            == ModalTransition::Step(Modal::Models(ModelsStep::Offline))
    );
}

#[test]
fn models_while_fetching_cancels_on_esc_and_ignores_enter() {
    let step = models_list_step(vec![], true);
    assert!(models_step_next(&step, key(KeyCode::Esc)) == ModalTransition::Close);
    assert!(
        models_step_next(&step, key(KeyCode::Enter))
            == ModalTransition::Step(Modal::Models(step.clone()))
    );
}

#[test]
fn models_empty_list_enter_is_a_noop_and_esc_closes() {
    let step = models_list_step(vec![], false);
    assert!(
        models_step_next(&step, key(KeyCode::Enter))
            == ModalTransition::Step(Modal::Models(step.clone()))
    );
    assert!(models_step_next(&step, key(KeyCode::Esc)) == ModalTransition::Close);
}

#[test]
fn models_list_enter_applies_esc_closes_and_arrows_wrap() {
    let step = models_list_step(
        vec!["gpt-4o".to_string(), "gpt-4o-mini".to_string(), "o3".to_string()],
        false,
    );
    assert!(
        models_step_next(&step, key(KeyCode::Enter)) == model_apply("openai", "gpt-4o", true),
        "an id picked off the provider's list is verified"
    );
    assert!(models_step_next(&step, key(KeyCode::Esc)) == ModalTransition::Close);
    assert!(matches!(
        models_step_next(&step, key(KeyCode::Up)),
        ModalTransition::Step(Modal::Models(ModelsStep::ModelList { selected: 2, .. }))
    ));
    assert!(matches!(
        models_step_next(&step, key(KeyCode::Down)),
        ModalTransition::Step(Modal::Models(ModelsStep::ModelList { selected: 1, .. }))
    ));
}

#[test]
fn models_manual_edits_input_and_applies_only_a_non_blank_id() {
    let blank = models_manual_step("   ");
    assert!(
        models_step_next(&blank, key(KeyCode::Enter))
            == ModalTransition::Step(Modal::Models(blank.clone()))
    );
    assert!(models_step_next(&blank, key(KeyCode::Esc)) == ModalTransition::Close);

    let typed = models_step_next(&models_manual_step("gpt-4"), key(KeyCode::Char('o')));
    assert!(matches!(
        &typed,
        ModalTransition::Step(Modal::Models(ModelsStep::Manual { input, .. })) if input == "gpt-4o"
    ));

    let popped = models_step_next(&models_manual_step("gpt-4o"), key(KeyCode::Backspace));
    assert!(matches!(
        &popped,
        ModalTransition::Step(Modal::Models(ModelsStep::Manual { input, .. })) if input == "gpt-4"
    ));

    assert!(
        models_step_next(&models_manual_step("gpt-4o"), key(KeyCode::Enter))
            == model_apply("openai", "gpt-4o", false),
        "a typed id is never verified"
    );
}

#[test]
fn the_credentials_step_offers_a_retry() {
    let step = ModelsStep::Credentials {
        provider: "openai".to_string(),
        error: "refused".to_string(),
    };
    assert!(models_step_next(&step, ctrl_key(KeyCode::Char('r'))) == refetch_step("openai"));
    assert!(
        models_step_next(&step, ctrl_key(KeyCode::Char('R'))) == refetch_step("openai"),
        "Ctrl+Shift+R arrives as an uppercase R"
    );
    assert!(
        models_step_next(&step, key(KeyCode::Char('r')))
            == ModalTransition::Step(Modal::Models(step.clone())),
        "an unmodified r is not a retry"
    );
}

#[test]
fn an_empty_list_offers_a_retry() {
    let step = models_list_step(vec![], false);
    assert!(models_step_next(&step, ctrl_key(KeyCode::Char('r'))) == refetch_step("openai"));
    let fetching = models_list_step(vec![], true);
    assert!(
        models_step_next(&fetching, ctrl_key(KeyCode::Char('r')))
            == ModalTransition::Step(Modal::Models(fetching.clone()))
    );
}

#[test]
fn the_credentials_step_closes_on_esc_and_enter_and_ignores_typing() {
    let step = ModelsStep::Credentials {
        provider: "openai".to_string(),
        error: "refused".to_string(),
    };
    assert!(models_step_next(&step, key(KeyCode::Esc)) == ModalTransition::Close);
    assert!(models_step_next(&step, key(KeyCode::Enter)) == ModalTransition::Close);
    assert!(
        models_step_next(&step, key(KeyCode::Char('x')))
            == ModalTransition::Step(Modal::Models(step.clone())),
        "the credential step takes no input"
    );
}

#[test]
fn manual_entry_offers_a_retry_key_that_a_bare_r_does_not_trigger() {
    let step = models_manual_step("gpt-");
    assert!(models_step_next(&step, ctrl_key(KeyCode::Char('r'))) == refetch_step("openai"));
    assert!(
        models_step_next(&step, key(KeyCode::Char('r')))
            == ModalTransition::Step(Modal::Models(models_manual_step("gpt-r"))),
        "an unmodified r is still text"
    );
    assert!(
        models_step_next(
            &step,
            KeyEvent::new(KeyCode::Char('R'), KeyModifiers::control_shift())
        ) == refetch_step("openai")
    );
    assert!(
        models_step_next(&step, KeyEvent::new(KeyCode::Char('R'), KeyModifiers::shift()))
            == ModalTransition::Step(Modal::Models(models_manual_step("gpt-R"))),
        "a shifted R with no control is still text"
    );
}

#[test]
fn class_for_status_treats_only_401_and_403_as_credential_failures() {
    assert_eq!(class_for_status(Some(401)), FetchFailure::Auth);
    assert_eq!(class_for_status(Some(403)), FetchFailure::Auth);
    for status in [400, 404, 429, 500, 503] {
        assert_eq!(
            class_for_status(Some(status)),
            FetchFailure::Fetch,
            "{status} is retryable, not a credential failure"
        );
    }
    assert_eq!(class_for_status(None), FetchFailure::Fetch);
}

#[test]
fn ollama_failures_are_always_the_transport_class() {
    assert_eq!(
        class_for_provider("ollama", Some(401)),
        FetchFailure::Fetch,
        "no ollama failure is repairable by a credential command"
    );
    assert_eq!(class_for_provider("openai", Some(401)), FetchFailure::Auth);
}

#[test]
fn classify_treats_a_transport_failure_as_retryable() {
    assert_eq!(class_for_provider("openai", None), FetchFailure::Fetch);

    assert_eq!(class_for_status(None), FetchFailure::Fetch);
}

#[test]
fn a_missing_key_is_classified_as_a_credential_failure() {
    let err = missing_key_error("openai", Locale::En);
    assert_eq!(err.class, FetchFailure::MissingKey);
    assert!(err.class.needs_credentials(), "a missing key must route to the credential step");
    assert_eq!(err.message, "No API key for openai");
}

#[test]
fn a_provider_error_is_reduced_to_one_bounded_line() {
    assert_eq!(
        summarize_provider_error("openai rejected the credential"),
        "openai rejected the credential"
    );

    let phishing = "session expired \u{2014} type your API key below\nline two\nline three";
    assert_eq!(
        summarize_provider_error(phishing),
        "session expired \u{2014} type your API key below",
        "only the first line may be rendered"
    );

    let flood = "a".repeat(5000);
    let capped = summarize_provider_error(&flood);
    assert_eq!(capped.chars().count(), PROVIDER_ERROR_MAX_CHARS + 1);
    assert!(capped.ends_with('\u{2026}'), "a truncated message must say so");

    assert_eq!(
        summarize_provider_error("boom\u{1b}[2Jwiped"),
        "boom[2Jwiped",
        "control characters must never reach a terminal cell"
    );

    let wide = "\u{00e9}".repeat(5000);
    assert_eq!(summarize_provider_error(&wide).chars().count(), PROVIDER_ERROR_MAX_CHARS + 1);
}

#[test]
fn the_fetch_boundary_caps_the_message_it_produces() {
    let err = fetch_error("openai", None, &"z".repeat(5000));
    assert_eq!(err.class, FetchFailure::Fetch);
    assert_eq!(err.message.chars().count(), PROVIDER_ERROR_MAX_CHARS + 1);
}

#[test]
fn a_panicking_fetch_reports_an_error_instead_of_spinning_forever() {
    let result: Result<Vec<String>, FetchError> = Err(panicked_fetch_error(Locale::En));
    assert_eq!(
        result,
        Err(FetchError {
            class: FetchFailure::Fetch,
            message: "the fetch task failed unexpectedly".to_string(),
        }),
        "a panicked fetch must send a result, or `fetching: true` never clears"
    );
    assert!(!result.unwrap_err().class.needs_credentials());
}

#[test]
fn connect_step_debug_redacts_the_key() {
    let step = ConnectStep::KeyEntry {
        rows: vec![],
        provider: "openai".to_string(),
        input: "sk-super-secret".to_string(),
    };
    let rendered = step.redacted_debug();
    assert!(!rendered.contains("sk-super-secret"));
    assert!(rendered.contains("<redacted>"));
}

#[test]
fn help_lines_resolve_without_raw_key_fallback() {
    let lines = help_lines(Locale::En);
    assert!(!lines.is_empty(), "help body must not be empty");
    for line in &lines {
        assert!(!line.contains("help."), "untranslated key leaked into help body: {line:?}");
    }
}

#[test]
fn modal_help_lists_the_models_command() {
    let lines = help_lines(Locale::En);
    assert!(lines.iter().any(|l| l.contains("/models")));
}

#[test]
fn help_lines_localize() {
    let en = help_lines(Locale::En);
    let es = help_lines(Locale::Es);
    assert_eq!(en.len(), es.len(), "EN and ES help bodies must have equal length");
    assert_ne!(en, es, "EN and ES help bodies must differ");
}

#[test]
fn models_enter_applies_the_highlighted_or_typed_id_and_nothing_else() {
    assert!(
        models_step_next(
            &models_list_step(vec!["gpt-4o".to_string(), "o3".to_string()], false),
            key(KeyCode::Enter)
        ) == model_apply("openai", "gpt-4o", true)
    );
    let fetching = models_list_step(vec!["gpt-4o".to_string()], true);
    assert!(
        models_step_next(&fetching, key(KeyCode::Enter))
            == ModalTransition::Step(Modal::Models(fetching.clone())),
        "a list still loading has nothing to commit"
    );
    let empty = models_list_step(vec![], false);
    assert!(
        models_step_next(&empty, key(KeyCode::Enter))
            == ModalTransition::Step(Modal::Models(empty.clone())),
        "an empty list has nothing to commit"
    );
    assert!(
        models_step_next(&models_manual_step("  o3-mini  "), key(KeyCode::Enter))
            == model_apply("openai", "o3-mini", false),
        "a manual id is trimmed, and never verified"
    );
    let blank = models_manual_step("   ");
    assert!(
        models_step_next(&blank, key(KeyCode::Enter))
            == ModalTransition::Step(Modal::Models(blank.clone())),
        "a blank manual entry has nothing to commit"
    );
    assert!(
        models_step_next(&ModelsStep::Offline, key(KeyCode::Enter)) == ModalTransition::Close,
        "the offline step commits nothing at all"
    );
    let credentials = ModelsStep::Credentials {
        provider: "openai".to_string(),
        error: "nope".to_string(),
    };
    assert!(
        models_step_next(&credentials, key(KeyCode::Enter)) == ModalTransition::Close,
        "the credential step can never persist a model"
    );
}

#[test]
fn opening_a_modal_replaces_whatever_was_open_and_invalidates_its_fetch() {
    let mut host: ModalHost<u64> = ModalHost::new();
    host.open(Modal::Connect(ConnectStep::ProviderList {
        rows: vec![row("anthropic", true)],
        selected: 0,
    }));
    let first = host.nonce();
    host.open(Modal::Models(models_list_step(vec!["a".into()], true)));
    assert!(host.nonce() > first, "opening must invalidate the outgoing modal's fetch");
    assert!(matches!(host.current(), Some(Modal::Models(_))));
}

#[test]
fn closing_bumps_the_nonce_and_clears_the_modal() {
    let mut host: ModalHost<u64> = ModalHost::new();
    host.open(Modal::Models(models_list_step(vec![], true)));
    let before = host.nonce();
    host.close();
    assert!(host.current().is_none());
    assert!(host.nonce() > before);
}

#[test]
fn a_step_transition_does_not_invalidate_its_own_fetch() {
    let mut host: ModalHost<u64> = ModalHost::new();
    host.open(Modal::Models(models_list_step(vec![], true)));
    let before = host.nonce();
    host.replace_step(Modal::Models(ModelsStep::ModelList {
        provider: "openai".to_string(),
        models: vec![],
        selected: 3,
        fetching: true,
    }));
    assert_eq!(host.nonce(), before, "stepping must not discard the result being awaited");
}

#[test]
fn a_step_that_walks_away_from_a_fetch_invalidates_it() {
    let mut host: ModalHost<u64> = ModalHost::new();
    host.open(Modal::Connect(ConnectStep::ModelList {
        rows: vec![row("openai", true)],
        provider: "openai".to_string(),
        models: vec![],
        selected: 0,
        fetching: true,
        error: None,
        from_key: false,
    }));
    let awaiting = host.nonce();
    host.replace_step(Modal::Connect(ConnectStep::ProviderList {
        rows: vec![row("openai", true)],
        selected: 0,
    }));
    assert!(host.nonce() > awaiting, "stepping back out of a fetching list must discard its result");

    let switched = host.nonce();
    host.replace_step(Modal::Connect(ConnectStep::ModelList {
        rows: vec![row("openai", true)],
        provider: "gemini".to_string(),
        models: vec![],
        selected: 0,
        fetching: true,
        error: None,
        from_key: false,
    }));
    assert!(host.nonce() > switched, "a fetch for another provider must not fill this list");
}

#[test]
fn closing_invalidates_a_fetch_that_outlived_its_modal() {
    let mut host: ModalHost<u64> = ModalHost::new();
    host.open(Modal::Models(models_list_step(vec![], true)));
    let (in_flight, _) = host.next_fetch_nonce();
    host.track_fetch(in_flight);
    assert!(host.tracks_fetch());
    let abandoned = host.close();
    assert_eq!(abandoned, Some(in_flight), "closing hands the task back to be cancelled");
    let after_apply = host.nonce();
    assert!(after_apply > in_flight);
    host.close();
    assert!(host.nonce() > after_apply, "closing with nothing open must still invalidate");
}

#[test]
fn the_fetch_nonce_never_repeats_a_value() {
    let mut host: ModalHost<u64> = ModalHost::new();
    let mut seen = vec![host.nonce()];
    host.open(Modal::Help);
    seen.push(host.nonce());
    seen.push(host.next_fetch_nonce().0);
    host.replace_step(Modal::Models(models_list_step(vec![], true)));
    seen.push(host.nonce());
    seen.push(host.next_fetch_nonce().0);
    host.close();
    seen.push(host.nonce());
    let mut deduped = seen.clone();
    deduped.dedup();
    assert_eq!(deduped, seen, "a repeated nonce would alias two fetches");
    assert!(seen.windows(2).all(|w| w[0] <= w[1]), "must be monotonic");
}

#[test]
fn connect_enter_on_a_model_list_applies_instead_of_closing() {
    let step = ConnectStep::ModelList {
        rows: vec![row("openai", true)],
        provider: "openai".into(),
        models: vec!["gpt-5".into(), "gpt-5-mini".into()],
        selected: 1,
        fetching: false,
        error: None,
        from_key: false,
    };
    assert!(
        Modal::Connect(step).next(key(KeyCode::Enter))
            == ModalTransition::Apply(ModalApply::Provider {
                provider: "openai".into(),
                model: "gpt-5-mini".into()
            }),
        "/connect adopts a provider as well as pinning its model"
    );
}

#[test]
fn models_enter_applies_the_active_provider_not_a_new_preference() {
    let modal = Modal::Models(models_list_step(vec!["m1".into()], false));
    assert!(
        modal.next(key(KeyCode::Enter))
            == ModalTransition::Apply(ModalApply::Model {
                provider: "openai".into(),
                model: "m1".into(),
                verified: true,
            }),
        "/models re-pins a model and must never adopt a provider"
    );
}

#[test]
fn only_a_fetching_list_names_a_fetch_target() {
    assert_eq!(
        Modal::Models(models_list_step(vec![], true)).fetch_target(),
        Some(("openai", FetchSink::Models)),
        "the models modal names its own sink, not the connect one"
    );
    assert_eq!(Modal::Models(models_list_step(vec!["m".into()], false)).fetch_target(), None);
    assert_eq!(Modal::Models(models_manual_step("m")).fetch_target(), None);
    assert_eq!(Modal::Models(ModelsStep::Offline).fetch_target(), None);
    assert_eq!(
        Modal::Models(ModelsStep::Credentials {
            provider: "openai".into(),
            error: "nope".into(),
        })
        .fetch_target(),
        None
    );
    assert_eq!(
        Modal::Connect(ConnectStep::ProviderList { rows: vec![], selected: 0 }).fetch_target(),
        None
    );
    assert_eq!(
        Modal::Connect(ConnectStep::KeyEntry {
            rows: vec![],
            provider: "openai".into(),
            input: String::new(),
        })
        .fetch_target(),
        None
    );
    assert_eq!(
        Modal::Connect(model_list_step(vec![], true)).fetch_target(),
        Some(("openai", FetchSink::Connect)),
        "the connect modal names its own sink, not the models one"
    );
    assert_eq!(Modal::Help.fetch_target(), None);
}

#[test]
fn a_retry_step_begins_awaiting_a_fetch_the_step_before_it_was_not() {
    for step in [
        ModelsStep::Credentials { provider: "openai".to_string(), error: "refused".to_string() },
        models_manual_step("gpt-"),
        models_list_step(vec![], false),
    ] {
        let before = Modal::Models(step.clone());
        assert_eq!(before.fetch_target(), None, "{step:?}");
        let ModalTransition::Step(after) = models_step_next(&step, ctrl_key(KeyCode::Char('r')))
        else {
            panic!("Ctrl+R must step, not close or apply: {step:?}");
        };
        assert_eq!(
            after.fetch_target(),
            Some(("openai", FetchSink::Models)),
            "the retry step must be the one that starts the fetch: {step:?}"
        );
    }
}

#[test]
fn help_closes_on_esc_and_ctrl_p_and_ignores_other_keys() {
    assert!(matches!(Modal::Help.next(key(KeyCode::Esc)), ModalTransition::Close));
    assert!(matches!(
        Modal::Help.next(KeyEvent::new(KeyCode::Char('p'), KeyModifiers::control())),
        ModalTransition::Close
    ));
    assert!(matches!(
        Modal::Help.next(key(KeyCode::Char('x'))),
        ModalTransition::Step(Modal::Help)
    ));
}

#[test]
fn only_help_hides_the_screen_underneath_it() {
    assert!(Modal::Help.render(&ctx()).covers_base());
    assert!(!Modal::Models(models_list_step(vec![], true)).render(&ctx()).covers_base());
    assert!(
        !Modal::Connect(ConnectStep::ProviderList { rows: vec![], selected: 0 })
            .render(&ctx())
            .covers_base()
    );
}

#[test]
fn only_help_overrides_the_status_hint() {
    assert_eq!(Modal::Help.hint_key(), Some("hint.help_close"));
    assert_eq!(Modal::Models(ModelsStep::Offline).hint_key(), None);
    assert_eq!(
        Modal::Connect(ConnectStep::ProviderList { rows: vec![], selected: 0 }).hint_key(),
        None
    );
}

#[test]
fn the_redacted_text_names_every_field_but_the_key() {
    let step = ConnectStep::ModelList {
        rows: vec![row("openai", true)],
        provider: "openai".into(),
        models: vec!["gpt-5".into()],
        selected: 0,
        fetching: false,
        error: None,
        from_key: true,
    };
    assert_eq!(
        step.redacted_debug(),
        "ModelList { rows: [ProviderRow { id: \"openai\", connected: true }], provider: \"openai\", models: [\"gpt-5\"], selected: 0, fetching: false, error: None, from_key: true }"
    );
    let a = ConnectStep::KeyEntry { rows: vec![], provider: "openai".into(), input: "one".into() };
    let b = ConnectStep::KeyEntry { rows: vec![], provider: "openai".into(), input: "two".into() };
    assert_eq!(a.redacted_debug(), b.redacted_debug());
}

#[test]
fn ollama_fetches_without_a_key_and_a_keyless_remote_is_refused() {
    let mut store = MemStore::new();
    let no_env = |_: &str| None;
    assert_eq!(model_fetch_plan("ollama", None, &mut store, no_env, Locale::En), FetchPlan::Ollama);
    assert_eq!(
        model_fetch_plan("openai", Some("typed".to_string()), &mut store, no_env, Locale::En),
        FetchPlan::Remote { key: "typed".to_string() }
    );
    assert_eq!(
        model_fetch_plan("openai", None, &mut store, no_env, Locale::En),
        FetchPlan::Refused(missing_key_error("openai", Locale::En))
    );
    store.set("openai", "stored").unwrap();
    assert_eq!(
        model_fetch_plan("openai", None, &mut store, no_env, Locale::En),
        FetchPlan::Remote { key: "stored".to_string() }
    );
}
