use endpoint_config::AppConfig;
use endpoint_config::ConfigError;
use endpoint_config::ConfigStore;

#[test]
fn seed_fills_absent_keys_with_defaults() {
    let mut store = ConfigStore::new();
    assert_eq!(store.get("api_base_url"), None);
    assert_eq!(store.get("api_key"), None);
    store.seed_defaults();
    assert_eq!(store.get("api_base_url"), Some("http://localhost:4000".to_string()));
    assert_eq!(store.get("api_key"), Some("".to_string()));
}

#[test]
fn seed_leaves_present_values_unchanged() {
    let mut store = ConfigStore::new();
    store.set("api_base_url", "http://example.test:9".to_string()).unwrap();
    store.seed_defaults();
    assert_eq!(store.get("api_base_url"), Some("http://example.test:9".to_string()));
    assert_eq!(store.get("api_key"), Some("".to_string()));
}

#[test]
fn seed_is_idempotent() {
    let mut store = ConfigStore::new();
    store.seed_defaults();
    let once = store.save_to_string();
    store.seed_defaults();
    let twice = store.save_to_string();
    assert_eq!(once, twice);
}

#[test]
fn set_unknown_key_fails_and_changes_nothing() {
    let mut store = ConfigStore::new();
    store.seed_defaults();
    let before = store.save_to_string();
    let r = store.set("endpoint", "http://example.test".to_string());
    assert_eq!(r, Err(ConfigError::UnknownKey));
    let after = store.save_to_string();
    assert_eq!(before, after);
    assert_eq!(store.get("endpoint"), None);
}

#[test]
fn save_and_reload_round_trip() {
    let mut store = ConfigStore::new();
    store.seed_defaults();
    store.set("api_base_url", "x".to_string()).unwrap();
    let saved = store.save_to_string();
    let reloaded = ConfigStore::from_saved(&saved).unwrap();
    assert_eq!(reloaded.get("api_base_url"), Some("x".to_string()));
    assert_eq!(reloaded.get("api_key"), Some("".to_string()));
}

#[test]
fn save_format_is_a_flat_json_object() {
    let mut store = ConfigStore::new();
    store.set("api_base_url", "u".to_string()).unwrap();
    store.set("api_key", "k".to_string()).unwrap();
    assert_eq!(store.save_to_string(), "{\"api_base_url\":\"u\",\"api_key\":\"k\"}");
}

#[test]
fn unknown_keys_in_the_file_are_preserved() {
    let text = "{\"api_base_url\":\"u\",\"other\":\"v\"}";
    let store = ConfigStore::from_saved(text).unwrap();
    assert_eq!(store.get("api_base_url"), Some("u".to_string()));
    assert_eq!(store.get("other"), None);
    assert_eq!(store.save_to_string(), "{\"api_base_url\":\"u\",\"other\":\"v\"}");
}

#[test]
fn later_duplicate_keys_win_on_reload() {
    let text = "{\"api_key\":\"a\",\"api_key\":\"k\"}";
    let store = ConfigStore::from_saved(text).unwrap();
    assert_eq!(store.get("api_key"), Some("k".to_string()));
}

#[test]
fn corrupt_content_fails_to_reload() {
    for text in ["not json", "[1,2]", "{\"api_base_url\":5}"] {
        match ConfigStore::from_saved(text) {
            Err(e) => assert_eq!(e, ConfigError::StoreIo),
            Ok(_) => panic!("expected StoreIo for {:?}", text),
        }
    }
}

#[test]
fn empty_object_reloads_as_empty_store() {
    let store = ConfigStore::from_saved("{}").unwrap();
    assert_eq!(store.get("api_base_url"), None);
    assert_eq!(store.get("api_key"), None);
}

#[test]
fn is_complete_requires_both_values_non_blank() {
    let mut store = ConfigStore::new();
    assert!(!store.is_complete());
    store.seed_defaults();
    // api_key defaults to the empty string, so the store is not complete.
    assert!(!store.is_complete());
    store.set("api_key", "secret".to_string()).unwrap();
    assert!(store.is_complete());
    store.set("api_base_url", "".to_string()).unwrap();
    assert!(!store.is_complete());
    store.set("api_base_url", " \t\r\n".to_string()).unwrap();
    assert!(!store.is_complete());
    store.set("api_base_url", "http://localhost:4000".to_string()).unwrap();
    assert!(store.is_complete());
    store.set("api_key", "   ".to_string()).unwrap();
    assert!(!store.is_complete());
}

#[test]
fn snapshot_fills_defaults_for_absent_values() {
    let store = ConfigStore::new();
    let snap = store.snapshot();
    assert_eq!(snap.api_base_url, "http://localhost:4000");
    assert_eq!(snap.api_key, "");
}

#[test]
fn snapshot_reads_stored_values() {
    let mut store = ConfigStore::new();
    store.set("api_base_url", "http://example.test".to_string()).unwrap();
    store.set("api_key", "k".to_string()).unwrap();
    let snap = store.snapshot();
    assert_eq!(snap.api_base_url, "http://example.test");
    assert_eq!(snap.api_key, "k");
}

#[test]
fn default_config_matches_the_per_key_defaults() {
    let d = AppConfig::default();
    assert_eq!(d.api_base_url, "http://localhost:4000");
    assert_eq!(d.api_key, "");
}
