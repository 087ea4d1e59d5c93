use pwvlt::keyring_backend::{attr_value, attrs_to_slot, slots_with_sentinel};
use pwvlt::{KeyringStore, PwvltError, Slot};

#[test]
fn default_slot_is_the_unprogrammed_sentinel() {
    let slot = Slot::default();
    assert_eq!(slot.service, "<not programmed>");
    assert_eq!(slot.username, "<not programmed>");
}

#[test]
fn slot_table_appends_one_sentinel() {
    let cache = vec![
        Slot { service: "github".to_string(), username: "alice".to_string() },
        Slot { service: "mail".to_string(), username: "bob".to_string() },
    ];
    let table = slots_with_sentinel(&cache);
    assert_eq!(table.len(), 3);
    assert_eq!(table[0], cache[0]);
    assert_eq!(table[1], cache[1]);
    assert_eq!(table[2], Slot::default());
}

#[test]
fn slot_table_is_idempotent_without_writes() {
    let cache = vec![Slot { service: "github".to_string(), username: "alice".to_string() }];
    let first = slots_with_sentinel(&cache);
    let second = slots_with_sentinel(&cache);
    assert_eq!(first, second);
}

#[test]
fn attributes_map_to_slot_fields() {
    let attrs = vec![
        ("application".to_string(), "pwvlt".to_string()),
        ("service".to_string(), "github".to_string()),
        ("username".to_string(), "alice".to_string()),
    ];
    let slot = attrs_to_slot(&attrs);
    assert_eq!(slot.service, "github");
    assert_eq!(slot.username, "alice");
}

#[test]
fn missing_attributes_fall_back_to_not_set() {
    let attrs = vec![("application".to_string(), "pwvlt".to_string())];
    let slot = attrs_to_slot(&attrs);
    assert_eq!(slot.service, "not_set");
    assert_eq!(slot.username, "not_set");
}

#[test]
fn attr_value_finds_only_present_keys() {
    let attrs = vec![("service".to_string(), "github".to_string())];
    assert_eq!(attr_value(&attrs, "service"), Some(&"github".to_string()));
    assert_eq!(attr_value(&attrs, "username"), None);
}

#[test]
fn keyring_store_reports_store_errors_as_keyring() {
    let store = KeyringStore::new();
    assert_eq!(store.name(), "Keyring");
    // with no platform secret service reachable the read fails; the
    // error must be classified as a keyring error either way
    if let Err(e) = store.password("pwvlt-test-service", "pwvlt-test-user") {
        assert!(matches!(e, PwvltError::Keyring(_)));
        let msg = store.log_error(e);
        assert!(!msg.is_empty());
    }
}
