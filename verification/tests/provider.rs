use light_factory_tui::i18n::Locale;
use light_factory_tui::provider::{offline_notice, OfflineReason, ProviderInfo};

#[test]
fn offline_notice_covers_each_reason() {
    assert_eq!(
        offline_notice(Locale::En, &OfflineReason::NothingConfigured),
        "No provider configured — set ANTHROPIC_API_KEY (or another provider's key) or LIGHT_OLLAMA=1"
    );
    assert_eq!(
        offline_notice(
            Locale::En,
            &OfflineReason::NamedProviderMissingKey {
                selector: "openai".into(),
                key: "OPENAI_API_KEY".into(),
            }
        ),
        "Provider 'openai' selected but OPENAI_API_KEY is not set — falling back to offline"
    );
    assert_eq!(
        offline_notice(
            Locale::En,
            &OfflineReason::BaseUrlRejected { var: "LIGHT_OPENAI_BASE_URL".into() }
        ),
        "LIGHT_OPENAI_BASE_URL was rejected — falling back to offline"
    );
}

#[test]
fn the_display_names_the_model_when_there_is_one() {
    let mut info = ProviderInfo {
        id: "openai".into(),
        model: None,
        offline: None,
        selected_by: None,
        warnings: vec![],
    };
    assert_eq!(info.display(), "openai");
    info.model = Some("gpt-5".into());
    assert_eq!(info.display(), "openai (gpt-5)");
}
