//! A local credential vault that reads and writes passwords across
//! pluggable storage backends — the OS secret-store service and a
//! PIN-gated hardware token — with deterministic fallback ordering,
//! slot-based allocation, and policy-driven password generation.

pub mod config;
pub mod error;
pub mod keyring_backend;
pub mod keyring_store;
pub mod nitrokey_store;
pub mod pass_store;
pub mod util;
pub mod vault;

pub use config::{BackendName, Config, General, Password};
pub use error::{NitrokeyFault, NitrokeyFaultKind, PwvltError};
pub use keyring_backend::KeyringBackend;
pub use keyring_store::KeyringStore;
pub use nitrokey_store::{NitrokeyStore, TokenDevice};
pub use pass_store::{LogEntry, SecretPrompt, Slot};
pub use util::random_password;
pub use vault::{Backend, PasswordVault};
