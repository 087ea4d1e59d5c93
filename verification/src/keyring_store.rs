use vstd::prelude::*;

use crate::error::PwvltError;
use crate::keyring_backend::{keyring_error_message, keyring_log_message, keyring_producible};

verus! {

/// Relies on `keyring::Entry::new` followed by `Entry::get_password`:
/// reads the secret stored for (service, username) in the platform
/// credential store; any failure is reported as its error text.
#[verifier::external_body]
fn keyring_get(service: &str, username: &str) -> (r: Result<String, String>)
{
    match keyring::Entry::new(service, username) {
        Ok(entry) => entry.get_password().map_err(|e| e.to_string()),
        Err(e) => Err(e.to_string()),
    }
}

/// Relies on `keyring::Entry::new` followed by `Entry::set_password`:
/// stores the secret for (service, username) in the platform credential
/// store; any failure is reported as its error text.
#[verifier::external_body]
fn keyring_set(service: &str, username: &str, password: &str) -> (r: Result<(), String>)
{
    match keyring::Entry::new(service, username) {
        Ok(entry) => entry.set_password(password).map_err(|e| e.to_string()),
        Err(e) => Err(e.to_string()),
    }
}

/// The errors a [`KeyringStore`] operation can surface: every failure
/// of the platform store is reported as a `Keyring` error.
pub open spec fn keyring_store_producible(e: PwvltError) -> bool {
    e is Keyring
}

/// A minimal store over the platform keyring: one entry per
/// (service, username), no slot table of its own.
#[derive(Default)]
pub struct KeyringStore {}

impl KeyringStore {
    pub fn new() -> KeyringStore {
        KeyringStore {  }
    }

    /// Read the password stored for (service, username).
    pub fn password(&self, service: &str, username: &str) -> (r: Result<String, PwvltError>)
        ensures
            r matches Err(e) ==> keyring_store_producible(e),
    {
        match keyring_get(service, username) {
            Ok(p) => Ok(p),
            Err(m) => Err(PwvltError::Keyring(m)),
        }
    }

    /// Store `password` for (service, username), replacing any previous
    /// secret under that identity.
    pub fn set_password(&self, service: &str, username: &str, password: &str) -> (r: Result<
        (),
        PwvltError,
    >)
        ensures
            r matches Err(e) ==> keyring_store_producible(e),
    {
        match keyring_set(service, username, password) {
            Ok(()) => Ok(()),
            Err(m) => Err(PwvltError::Keyring(m)),
        }
    }

    /// Classify an error of this store for the warning log.  Only
    /// errors this store can produce may be handed in.
    pub fn log_error(&self, err: PwvltError) -> (msg: String)
        requires
            keyring_store_producible(err),
        ensures
            msg@ == keyring_log_message(err),
    {
        proof {
            assert(keyring_producible(err));
        }
        keyring_error_message(err)
    }

    /// The stable display identifier of this store.
    pub fn name(&self) -> (r: &'static str)
        ensures
            r@ == "Keyring"@,
    {
        "Keyring"
    }
}

} // verus!
