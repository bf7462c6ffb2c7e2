use light_factory_tui::credentials::{CredentialStore, MemStore};
use light_factory_tui::selection::{
    apply_preferences, classify, key_status, layer_keys, resolve_key_from, resolve_key_with,
    KeyStatus, Selection,
};
use light_factory_tui::settings::Settings;
use light_factory_tui::strmap::StrMap;

fn settings(provider: Option<&str>) -> Settings {
    Settings { lang: "en".to_string(), provider: provider.map(str::to_string), models: StrMap::new() }
}

fn unset(_: &str) -> Option<String> {
    None
}

#[test]
fn classify_distinguishes_env_keyring_and_none() {
    assert_eq!(classify(Some("k".to_string()), None), KeyStatus::Env);
    assert_eq!(classify(Some(String::new()), Some("k".to_string())), KeyStatus::Keyring);
    assert_eq!(classify(None, Some("k".to_string())), KeyStatus::Keyring);
    assert_eq!(classify(None, None), KeyStatus::Absent);
}

#[test]
fn non_remote_providers_have_no_key() {
    let mut store = MemStore::new();
    assert_eq!(key_status("ollama", &mut store, unset), KeyStatus::Absent);
    assert_eq!(key_status("local", &mut store, unset), KeyStatus::Absent);
}

#[test]
fn resolve_key_from_prefers_env_over_keyring() {
    assert_eq!(
        resolve_key_from(Some("env".to_string()), Some("ring".to_string())),
        Some("env".to_string())
    );
    assert_eq!(resolve_key_from(None, Some("ring".to_string())), Some("ring".to_string()));
    assert_eq!(resolve_key_from(None, None), None);
}

#[test]
fn resolve_key_from_treats_an_empty_env_value_as_absent() {
    assert_eq!(
        resolve_key_from(Some(String::new()), Some("ring".to_string())),
        Some("ring".to_string())
    );
    assert_eq!(resolve_key_from(Some(String::new()), None), None);
}

#[test]
fn resolve_key_reads_a_stored_keyring_key() {
    let mut store = MemStore::new();
    store.set("openai", "sk-ring").unwrap();
    assert_eq!(resolve_key_with("openai", &mut store, unset), Some("sk-ring".to_string()));
    assert_eq!(resolve_key_with("openai", &mut MemStore::new(), unset), None);
}

#[test]
fn resolve_key_reads_the_env_var_the_provider_declares() {
    let mut store = MemStore::new();
    store.set("openai", "sk-ring").unwrap();
    let only_openai =
        |var: &str| if var == "OPENAI_API_KEY" { Some("sk-env".to_string()) } else { None };
    assert_eq!(resolve_key_with("openai", &mut store, only_openai), Some("sk-env".to_string()));
    let mut store = MemStore::new();
    store.set("ollama", "sk-ring").unwrap();
    assert_eq!(
        resolve_key_with("ollama", &mut store, |_: &str| Some("sk-env".to_string())),
        Some("sk-ring".to_string())
    );
}

#[test]
fn apply_preferences_maps_preferences_and_keyring_keys() {
    let mut store = MemStore::new();
    store.set("openai", "sk-o").unwrap();
    let base = Selection::empty();
    let selection = apply_preferences(base, &settings(Some("openai")), &mut store);
    assert_eq!(selection.preferred.as_deref(), Some("openai"));
    assert_eq!(selection.keys.get("openai"), Some(&"sk-o".to_string()));
}

#[test]
fn apply_preferences_does_not_overwrite_an_env_key() {
    let mut store = MemStore::new();
    store.set("openai", "sk-ring").unwrap();
    let mut base = Selection::empty();
    base.keys.insert("openai".to_string(), "sk-env".to_string());
    let selection = apply_preferences(base, &settings(None), &mut store);
    assert_eq!(selection.keys.get("openai"), Some(&"sk-env".to_string()));
}

#[test]
fn a_saved_model_fills_only_a_provider_the_environment_left_open() {
    let mut store = MemStore::new();
    let mut base = Selection::empty();
    base.models.insert("openai".to_string(), "env-model".to_string());
    let mut saved = settings(None);
    saved.models.insert("openai".to_string(), "saved-model".to_string());
    saved.models.insert("gemini".to_string(), "g-model".to_string());
    let selection = apply_preferences(base, &saved, &mut store);
    assert_eq!(selection.models.get("openai"), Some(&"env-model".to_string()));
    assert_eq!(selection.models.get("gemini"), Some(&"g-model".to_string()));
}

#[test]
fn an_empty_env_value_falls_to_the_keyring_in_the_status_too() {
    let mut store = MemStore::new();
    store.set("gemini", "sk").unwrap();
    let empty = |_: &str| Some(String::new());
    assert_eq!(key_status("gemini", &mut store, empty), KeyStatus::Keyring);
    let set = |_: &str| Some("x".to_string());
    assert_eq!(key_status("gemini", &mut store, set), KeyStatus::Env);
}

#[test]
fn keyring_keys_fill_only_providers_without_a_key() {
    let mut keys = StrMap::new();
    keys.insert("openai".to_string(), "sk-env".to_string());
    let found = vec![
        Some("sk-a".to_string()),
        Some("sk-ring".to_string()),
        None,
        Some("sk-d".to_string()),
    ];
    let keys = layer_keys(keys, &found);
    assert_eq!(keys.get("anthropic"), Some(&"sk-a".to_string()));
    assert_eq!(keys.get("openai"), Some(&"sk-env".to_string()));
    assert_eq!(keys.get("gemini"), None);
    assert_eq!(keys.get("deepseek"), Some(&"sk-d".to_string()));
    assert_eq!(keys.get("ollama"), None);
}

/// A store that finds a key for every provider, to show which providers are asked.
struct EchoStore;

impl CredentialStore for EchoStore {
    fn get(&mut self, provider: &str) -> Result<Option<String>, light_factory_tui::credentials::StoreError> {
        Ok(Some(format!("key-of-{provider}")))
    }

    fn set(&mut self, _provider: &str, _key: &str) -> Result<(), light_factory_tui::credentials::StoreError> {
        Ok(())
    }

    fn delete(&mut self, _provider: &str) -> Result<(), light_factory_tui::credentials::StoreError> {
        Ok(())
    }
}

#[test]
fn each_provider_is_read_under_its_own_name() {
    let selection = apply_preferences(Selection::empty(), &settings(None), &mut EchoStore);
    for id in ["anthropic", "openai", "gemini", "deepseek"] {
        assert_eq!(selection.keys.get(id), Some(&format!("key-of-{id}")));
    }
    assert_eq!(key_status("gemini", &mut EchoStore, unset), KeyStatus::Keyring);
    assert_eq!(resolve_key_with("deepseek", &mut EchoStore, unset), Some("key-of-deepseek".to_string()));
}
