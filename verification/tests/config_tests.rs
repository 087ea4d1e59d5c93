use pwvlt::{BackendName, Config, General, Password};

fn empty_config() -> Config {
    Config {
        general: General { backends: Vec::new() },
        password: Password::default(),
        default: Vec::new(),
    }
}

#[test]
fn known_backend_names_parse() {
    assert_eq!(BackendName::parse("nitrokey"), Some(BackendName::Nitrokey));
    assert_eq!(BackendName::parse("keyring"), Some(BackendName::Keyring));
}

#[test]
fn unknown_backend_names_do_not_parse() {
    assert_eq!(BackendName::parse("floppy"), None);
    assert_eq!(BackendName::parse(""), None);
    assert_eq!(BackendName::parse("Keyring"), None);
}

#[test]
fn default_username_lookup_finds_inserted_pair() {
    let mut config = empty_config();
    config.insert_default("github".to_string(), "alice".to_string());
    config.insert_default("mail".to_string(), "bob".to_string());
    assert_eq!(config.default_username("github"), Some(&"alice".to_string()));
    assert_eq!(config.default_username("mail"), Some(&"bob".to_string()));
    assert_eq!(config.default_username("absent"), None);
}

#[test]
fn insert_default_replaces_earlier_entry() {
    let mut config = empty_config();
    config.insert_default("github".to_string(), "alice".to_string());
    config.insert_default("github".to_string(), "carol".to_string());
    assert_eq!(config.default_username("github"), Some(&"carol".to_string()));
    assert_eq!(config.default.len(), 1);
}
