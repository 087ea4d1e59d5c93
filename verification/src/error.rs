use vstd::prelude::*;

verus! {

/// The hardware-token command failures that callers must tell apart:
/// a missing device and a rejected PIN warrant different user guidance,
/// everything else is reported verbatim.
#[derive(Clone, Debug)]
pub enum NitrokeyFaultKind {
    NoConnection,
    WrongPin,
    Other,
}

/// A classified failure reported by the hardware token, together with
/// the text of the underlying driver error.
#[derive(Clone, Debug)]
pub struct NitrokeyFault {
    pub kind: NitrokeyFaultKind,
    pub message: String,
}

/// The error taxonomy of the vault.
///
/// `PasswordNotFound` is recoverable: a lookup moves on to the next backend.
/// `Skip` marks a hardware token that cannot be unlocked without admin
/// recovery; the backend is unavailable for the rest of the session.
/// The remaining variants carry backend or I/O failures that end the
/// operation that met them.
#[derive(Clone, Debug)]
pub enum PwvltError {
    /// No entry matched the requested service and username.
    PasswordNotFound,
    /// The OS secret-store service failed; the payload is its report.
    Keyring(String),
    /// An input/output failure, e.g. from a prompt callback.
    Io(String),
    /// A hardware-token command failed.
    Nitrokey(NitrokeyFault),
    /// The hardware token must be recovered with the admin PIN first;
    /// skip it for this session.
    Skip,
    /// The password-generation policy cannot be satisfied.
    PasswordGeneration(String),
    /// A stored secret was not valid UTF-8; the payload is the decoder's report.
    Utf8(String),
}

} // verus!
