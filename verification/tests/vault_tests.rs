use pwvlt::{
    Config, General, NitrokeyFault, NitrokeyFaultKind, Password, PasswordVault, PwvltError,
    SecretPrompt, TokenDevice,
};

struct TestPrompt {}

impl SecretPrompt for TestPrompt {
    fn prompt(&mut self) -> Result<String, String> {
        Ok("123456".to_string())
    }
}

/// A token that is never reachable, as on a machine without one.
struct AbsentDevice {}

impl TokenDevice for AbsentDevice {
    fn connect() -> Result<AbsentDevice, NitrokeyFault> {
        Err(NitrokeyFault {
            kind: NitrokeyFaultKind::NoConnection,
            message: "Could not connect to a Nitrokey device".to_string(),
        })
    }

    fn retry_count(&mut self) -> Result<u8, NitrokeyFault> {
        AbsentDevice::connect().map(|_| 0)
    }

    fn open_safe(&mut self, _pin: &str) -> Result<(), NitrokeyFault> {
        AbsentDevice::connect().map(|_| ())
    }

    fn slot_status(&mut self) -> Result<Vec<bool>, NitrokeyFault> {
        AbsentDevice::connect().map(|_| Vec::new())
    }

    fn slot_name(&mut self, _slot: u8) -> Result<String, NitrokeyFault> {
        AbsentDevice::connect().map(|_| String::new())
    }

    fn slot_login(&mut self, _slot: u8) -> Result<String, NitrokeyFault> {
        AbsentDevice::connect().map(|_| String::new())
    }

    fn slot_password(&mut self, _slot: u8) -> Result<String, NitrokeyFault> {
        AbsentDevice::connect().map(|_| String::new())
    }

    fn write_slot(
        &mut self,
        _slot: u8,
        _name: &str,
        _login: &str,
        _password: &str,
    ) -> Result<(), NitrokeyFault> {
        AbsentDevice::connect().map(|_| ())
    }

    fn lock(&mut self) -> Result<(), NitrokeyFault> {
        AbsentDevice::connect().map(|_| ())
    }
}

/// A reachable in-memory token with sixteen slots and PIN "123456".
struct MemoryDevice {
    open: bool,
    programmed: Vec<bool>,
    names: Vec<String>,
    logins: Vec<String>,
    passwords: Vec<String>,
}

impl MemoryDevice {
    fn check_open(&self) -> Result<(), NitrokeyFault> {
        if self.open {
            Ok(())
        } else {
            Err(NitrokeyFault {
                kind: NitrokeyFaultKind::Other,
                message: "password safe not enabled".to_string(),
            })
        }
    }
}

impl TokenDevice for MemoryDevice {
    fn connect() -> Result<MemoryDevice, NitrokeyFault> {
        Ok(MemoryDevice {
            open: false,
            programmed: vec![false; 16],
            names: vec![String::new(); 16],
            logins: vec![String::new(); 16],
            passwords: vec![String::new(); 16],
        })
    }

    fn retry_count(&mut self) -> Result<u8, NitrokeyFault> {
        Ok(3)
    }

    fn open_safe(&mut self, pin: &str) -> Result<(), NitrokeyFault> {
        if pin == "123456" {
            self.open = true;
            Ok(())
        } else {
            Err(NitrokeyFault {
                kind: NitrokeyFaultKind::WrongPin,
                message: "The given password is wrong".to_string(),
            })
        }
    }

    fn slot_status(&mut self) -> Result<Vec<bool>, NitrokeyFault> {
        self.check_open()?;
        Ok(self.programmed.clone())
    }

    fn slot_name(&mut self, slot: u8) -> Result<String, NitrokeyFault> {
        self.check_open()?;
        Ok(self.names[slot as usize].clone())
    }

    fn slot_login(&mut self, slot: u8) -> Result<String, NitrokeyFault> {
        self.check_open()?;
        Ok(self.logins[slot as usize].clone())
    }

    fn slot_password(&mut self, slot: u8) -> Result<String, NitrokeyFault> {
        self.check_open()?;
        Ok(self.passwords[slot as usize].clone())
    }

    fn write_slot(
        &mut self,
        slot: u8,
        name: &str,
        login: &str,
        password: &str,
    ) -> Result<(), NitrokeyFault> {
        self.check_open()?;
        let i = slot as usize;
        self.programmed[i] = true;
        self.names[i] = name.to_string();
        self.logins[i] = login.to_string();
        self.passwords[i] = password.to_string();
        Ok(())
    }

    fn lock(&mut self) -> Result<(), NitrokeyFault> {
        self.open = false;
        Ok(())
    }
}

fn config_with_backends(names: &[&str]) -> Config {
    Config {
        general: General { backends: names.iter().map(|n| n.to_string()).collect() },
        password: Password {
            length: 12,
            numbers: true,
            lowercase_letters: true,
            uppercase_letters: false,
            symbols: false,
            strict: true,
        },
        default: Vec::new(),
    }
}

#[test]
fn unknown_backend_names_are_omitted_and_logged() {
    let config = config_with_backends(&["floppy", "punchcard"]);
    let vault = PasswordVault::<TestPrompt, MemoryDevice>::new(config, None);
    assert_eq!(vault.stores().len(), 0);
    assert_eq!(vault.log().len(), 2);
    assert_eq!(vault.log()[0].backend, "floppy");
    assert_eq!(vault.log()[1].backend, "punchcard");
    assert_eq!(vault.log()[0].message, "unknown backend name");
}

#[test]
fn empty_vault_lookup_fails_with_password_not_found() {
    let config = config_with_backends(&[]);
    let mut vault = PasswordVault::<TestPrompt, MemoryDevice>::new(config, None);
    let r = vault.password("github", "alice");
    assert!(matches!(r, Err(PwvltError::PasswordNotFound)));
    assert_eq!(vault.log().len(), 0);
}

#[test]
fn unreachable_token_is_omitted_from_the_vault() {
    let config = config_with_backends(&["nitrokey"]);
    let vault = PasswordVault::<TestPrompt, AbsentDevice>::new(config, Some(TestPrompt {}));
    assert_eq!(vault.stores().len(), 0);
    assert_eq!(vault.log().len(), 1);
    assert_eq!(vault.log()[0].backend, "Nitrokey");
    assert_eq!(vault.log()[0].message, "Couldn't connect to the Nitrokey!");
}

#[test]
fn reachable_token_is_activated() {
    let config = config_with_backends(&["nitrokey", "floppy"]);
    let vault = PasswordVault::<TestPrompt, MemoryDevice>::new(config, Some(TestPrompt {}));
    assert_eq!(vault.stores().len(), 1);
    assert_eq!(vault.stores()[0].name(), "Nitrokey");
}

#[test]
fn vault_round_trip_returns_the_stored_password() {
    let config = config_with_backends(&["nitrokey"]);
    let mut vault = PasswordVault::<TestPrompt, MemoryDevice>::new(config, Some(TestPrompt {}));
    vault.set_password(0, 4, "github", "alice", Some("s3cret")).unwrap();
    assert_eq!(vault.password("github", "alice").unwrap(), "s3cret");
    assert_eq!(vault.log().len(), 0);
}

#[test]
fn failed_backends_are_logged_in_order_before_the_final_failure() {
    let config = config_with_backends(&["nitrokey"]);
    let mut vault = PasswordVault::<TestPrompt, MemoryDevice>::new(config, Some(TestPrompt {}));
    let r = vault.password("github", "alice");
    assert!(matches!(r, Err(PwvltError::PasswordNotFound)));
    assert_eq!(vault.log().len(), 1);
    assert_eq!(vault.log()[0].backend, "Nitrokey");
    assert_eq!(vault.log()[0].message, "Password not found on Nitrokey!");
}

#[test]
fn generated_passwords_follow_the_configured_policy() {
    let config = config_with_backends(&["nitrokey"]);
    let mut vault = PasswordVault::<TestPrompt, MemoryDevice>::new(config, Some(TestPrompt {}));
    vault.set_password(0, 0, "mail", "bob", None).unwrap();
    let pw = vault.password("mail", "bob").unwrap();
    assert_eq!(pw.chars().count(), 12);
    assert!(pw.chars().all(|c| c.is_ascii_digit() || c.is_ascii_lowercase()));
    assert!(pw.chars().any(|c| c.is_ascii_digit()));
    assert!(pw.chars().any(|c| c.is_ascii_lowercase()));
}

#[test]
fn unsatisfiable_policy_fails_generation() {
    let mut config = config_with_backends(&["nitrokey"]);
    config.password.length = 0;
    let mut vault = PasswordVault::<TestPrompt, MemoryDevice>::new(config, Some(TestPrompt {}));
    let r = vault.set_password(0, 0, "mail", "bob", None);
    assert!(matches!(r, Err(PwvltError::PasswordGeneration(_))));
}

#[test]
fn backend_slot_tables_are_exposed_for_selection() {
    let config = config_with_backends(&["nitrokey"]);
    let mut vault = PasswordVault::<TestPrompt, MemoryDevice>::new(config, Some(TestPrompt {}));
    vault.set_password(0, 1, "github", "alice", Some("pw")).unwrap();
    let slots = vault.backend_slots(0).unwrap();
    assert_eq!(slots.len(), 16);
    assert_eq!(slots[1].service, "github");
    assert_eq!(slots[0].service, "<not programmed>");
}

#[test]
fn vault_default_username_reads_configuration() {
    let mut config = config_with_backends(&[]);
    config.insert_default("github".to_string(), "alice".to_string());
    let vault = PasswordVault::<TestPrompt, MemoryDevice>::new(config, None);
    assert_eq!(vault.default("github"), Some(&"alice".to_string()));
    assert_eq!(vault.default("absent"), None);
}

#[test]
fn closing_the_vault_releases_every_backend() {
    let config = config_with_backends(&["nitrokey"]);
    let mut vault = PasswordVault::<TestPrompt, MemoryDevice>::new(config, Some(TestPrompt {}));
    vault.set_password(0, 0, "github", "alice", Some("pw")).unwrap();
    let failures = vault.close();
    assert!(failures.is_empty());
}
