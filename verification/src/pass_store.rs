use vstd::prelude::*;

verus! {

/// The mathematical value of a [`Slot`]: the two character sequences
/// that identify one storage location.
pub ghost struct SlotView {
    pub service: Seq<char>,
    pub username: Seq<char>,
}

/// A (service, username) pair naming one storage location on a backend.
///
/// The sentinel value returned by [`Slot::unprogrammed`] stands for an
/// empty slot: on the hardware token an unprogrammed position, on the
/// keyring the trailing "create new entry" position.
#[derive(Debug, PartialEq)]
pub struct Slot {
    pub service: String,
    pub username: String,
}

impl Clone for Slot {
    fn clone(&self) -> (r: Slot)
        ensures
            r == *self,
    {
        Slot { service: self.service.clone(), username: self.username.clone() }
    }
}

impl View for Slot {
    type V = SlotView;

    open spec fn view(&self) -> SlotView {
        SlotView { service: self.service@, username: self.username@ }
    }
}

/// The view of the sentinel slot that marks an unprogrammed location.
pub open spec fn unprogrammed_view() -> SlotView {
    SlotView { service: "<not programmed>"@, username: "<not programmed>"@ }
}

impl Slot {
    /// The sentinel slot standing for an unprogrammed storage location.
    pub fn unprogrammed() -> (r: Slot)
        ensures
            r@ == unprogrammed_view(),
    {
        Slot {
            service: "<not programmed>".to_owned(),
            username: "<not programmed>".to_owned(),
        }
    }
}

impl Default for Slot {
    fn default() -> (r: Slot)
        ensures
            r@ == unprogrammed_view(),
    {
        Slot::unprogrammed()
    }
}

/// A callback that asks the user for a secret (the hardware token's
/// user PIN).  Supplied by the embedding application; invoked at most
/// once per hardware-token unlock.  An `Err` carries the report of
/// whatever kept the prompt from producing a secret.
pub trait SecretPrompt {
    fn prompt(&mut self) -> Result<String, String>;
}

/// One warning recorded while a lookup walked the backends: which
/// backend failed, with the message its own error classifier gave.
#[derive(Clone, Debug)]
pub struct LogEntry {
    pub backend: String,
    pub message: String,
}

} // verus!
