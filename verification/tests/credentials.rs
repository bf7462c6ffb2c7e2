use light_factory_tui::credentials::{CredentialStore, KeyringFailure, KeyringStore, MemStore};

#[test]
fn round_trips_set_get_delete() {
    let mut store = MemStore::new();
    assert_eq!(store.get("openai").unwrap(), None);
    store.set("openai", "sk-test").unwrap();
    assert_eq!(store.get("openai").unwrap(), Some("sk-test".to_string()));
    store.delete("openai").unwrap();
    assert_eq!(store.get("openai").unwrap(), None);
}

#[test]
fn delete_missing_key_is_a_noop() {
    let mut store = MemStore::new();
    store.delete("never-stored").unwrap();
}

#[test]
fn set_replaces_the_existing_key() {
    let mut store = MemStore::new();
    store.set("gemini", "first").unwrap();
    store.set("gemini", "second").unwrap();
    assert_eq!(store.get("gemini").unwrap(), Some("second".to_string()));
}

#[test]
fn a_keyring_without_the_entry_reads_as_no_key() {
    let missing = KeyringFailure { no_entry: true, message: "no entry".into() };
    assert_eq!(KeyringStore::read_outcome(Err(missing.clone())), Ok(None));
    assert_eq!(KeyringStore::delete_outcome(Err(missing)), Ok(()));
    let locked = KeyringFailure { no_entry: false, message: "locked".into() };
    assert_eq!(KeyringStore::read_outcome(Err(locked.clone())).unwrap_err().message, "locked");
    assert_eq!(KeyringStore::delete_outcome(Err(locked)).unwrap_err().message, "locked");
    assert_eq!(KeyringStore::read_outcome(Ok("sk".into())), Ok(Some("sk".to_string())));
}

#[test]
fn a_failed_keyring_write_reports_the_keyring_message() {
    let missing = KeyringFailure { no_entry: true, message: "no entry".into() };
    assert_eq!(KeyringStore::write_outcome(Err(missing)).unwrap_err().message, "no entry");
    assert_eq!(KeyringStore::write_outcome(Ok(())), Ok(()));
}
