use vstd::prelude::*;
use vstd::string::StringExecFns;

use crate::error::{NitrokeyFault, NitrokeyFaultKind, PwvltError};
use crate::pass_store::{unprogrammed_view, SecretPrompt, Slot};
use crate::util::str_eq;

verus! {

/// The number of password slots on the hardware token, a device constant.
pub const SLOT_COUNT: u8 = 16;

/// The commands the hardware token answers: an injected capability,
/// implemented by the embedding application over the real device
/// driver.  Every command may fail with a classified device fault.
/// Opening the password safe validates the PIN; once it succeeds, the
/// slot commands work until the device is locked.
pub trait TokenDevice: Sized {
    /// Connect to the token, claiming it for this session.
    fn connect() -> Result<Self, NitrokeyFault>;

    /// How many user-PIN attempts the device still allows.
    fn retry_count(&mut self) -> Result<u8, NitrokeyFault>;

    /// Send the user PIN and enable the password safe; fails with a
    /// wrong-PIN fault on a rejected PIN.
    fn open_safe(&mut self, pin: &str) -> Result<(), NitrokeyFault>;

    /// Which slots are programmed, one flag per slot in slot order.
    fn slot_status(&mut self) -> Result<Vec<bool>, NitrokeyFault>;

    /// The service name stored in the given slot.
    fn slot_name(&mut self, slot: u8) -> Result<String, NitrokeyFault>;

    /// The login stored in the given slot.
    fn slot_login(&mut self, slot: u8) -> Result<String, NitrokeyFault>;

    /// The password stored in the given slot.
    fn slot_password(&mut self, slot: u8) -> Result<String, NitrokeyFault>;

    /// Overwrite the given slot with the new name, login and password.
    fn write_slot(
        &mut self,
        slot: u8,
        name: &str,
        login: &str,
        password: &str,
    ) -> Result<(), NitrokeyFault>;

    /// Lock the device, ending the password-safe session.
    fn lock(&mut self) -> Result<(), NitrokeyFault>;
}

/// The errors the hardware-token backend can produce: a missing entry,
/// the skip condition, device faults, and failures of the injected
/// PIN prompt.
pub open spec fn nitrokey_producible(e: PwvltError) -> bool {
    ||| e is PasswordNotFound
    ||| e is Skip
    ||| e is Nitrokey
    ||| e is Io
}

/// The warning text the hardware-token backend's classifier gives each
/// of its errors: fixed guidance for a missing entry, the skip
/// condition, an unreachable device and a rejected PIN, and the
/// driver's or prompt's own report otherwise.
pub open spec fn nitrokey_log_message(e: PwvltError) -> Seq<char> {
    match e {
        PwvltError::PasswordNotFound => "Password not found on Nitrokey!"@,
        PwvltError::Skip => "Skipping Nitrokey search..."@,
        PwvltError::Nitrokey(f) => match f.kind {
            NitrokeyFaultKind::NoConnection => "Couldn't connect to the Nitrokey!"@,
            NitrokeyFaultKind::WrongPin => "User pin was incorrect."@,
            NitrokeyFaultKind::Other => "Nitrokey error: "@ + f.message@,
        },
        PwvltError::Io(m) => m@,
        _ => Seq::empty(),
    }
}

/// Render the hardware-token classifier's warning text for an error.
pub fn nitrokey_error_message(err: PwvltError) -> (msg: String)
    requires
        nitrokey_producible(err),
    ensures
        msg@ == nitrokey_log_message(err),
{
    match err {
        PwvltError::PasswordNotFound => "Password not found on Nitrokey!".to_owned(),
        PwvltError::Skip => "Skipping Nitrokey search...".to_owned(),
        PwvltError::Nitrokey(f) => match f.kind {
            NitrokeyFaultKind::NoConnection => "Couldn't connect to the Nitrokey!".to_owned(),
            NitrokeyFaultKind::WrongPin => "User pin was incorrect.".to_owned(),
            NitrokeyFaultKind::Other => "Nitrokey error: ".to_owned().concat(f.message.as_str()),
        },
        PwvltError::Io(m) => m,
        _ => vstd::pervasive::unreached(),
    }
}

/// Assemble the published slot table from the device's answers: one
/// entry per status flag, in order; a programmed slot carries exactly
/// the name and login that were read for it, an unprogrammed slot the
/// sentinel.
pub fn token_table(status: &Vec<bool>, names: &Vec<String>, logins: &Vec<String>) -> (r: Vec<Slot>)
    requires
        names@.len() == status@.len(),
        logins@.len() == status@.len(),
    ensures
        r@.len() == status@.len(),
        forall|i: int|
            0 <= i < status@.len() && status@[i] ==> (#[trigger] r@[i])@.service == names@[i]@
                && r@[i]@.username == logins@[i]@,
        forall|i: int|
            0 <= i < status@.len() && !status@[i] ==> (#[trigger] r@[i])@ == unprogrammed_view(),
{
    let mut r: Vec<Slot> = Vec::new();
    let n = status.len();
    for k in 0..n
        invariant
            n == status@.len(),
            names@.len() == n,
            logins@.len() == n,
            r@.len() == k,
            forall|i: int|
                0 <= i < k && status@[i] ==> (#[trigger] r@[i])@.service == names@[i]@
                    && r@[i]@.username == logins@[i]@,
            forall|i: int|
                0 <= i < k && !status@[i] ==> (#[trigger] r@[i])@ == unprogrammed_view(),
    {
        if status[k] {
            r.push(Slot { service: names[k].clone(), username: logins[k].clone() });
        } else {
            r.push(Slot::unprogrammed());
        }
    }
    r
}

/// The backend over the PIN-gated hardware token.  The device
/// connection is held for the store's lifetime and released by
/// [`NitrokeyStore::lock`]; the password safe is unlocked lazily,
/// asking the injected prompt for the PIN at most once per session.
pub struct NitrokeyStore<P: SecretPrompt, D: TokenDevice> {
    device: D,
    unlocked: bool,
    prompt: P,
}

impl<P: SecretPrompt, D: TokenDevice> NitrokeyStore<P, D> {
    /// The password safe has been unlocked in this session.
    pub closed spec fn spec_unlocked(&self) -> bool {
        self.unlocked
    }

    /// The injected PIN prompt, for stating when it is left untouched.
    pub closed spec fn spec_prompt(&self) -> P {
        self.prompt
    }

    /// Connect to the hardware token; the password safe stays locked
    /// until the first operation needs it.
    pub fn new(prompt: P) -> (r: Result<NitrokeyStore<P, D>, PwvltError>)
        ensures
            r matches Ok(s) ==> !s.spec_unlocked() && s.spec_prompt() == prompt,
            r matches Err(e) ==> e is Nitrokey,
    {
        match D::connect() {
            Ok(device) => Ok(NitrokeyStore { device, unlocked: false, prompt }),
            Err(f) => Err(PwvltError::Nitrokey(f)),
        }
    }

    /// Unlock the password safe given the device's remaining user-PIN
    /// retry budget.  With a session already unlocked nothing happens.
    /// With no retries left the backend asks to be skipped, leaving
    /// both the PIN prompt and the device untouched.  Otherwise the
    /// prompt is asked once and the PIN is sent to the device.
    pub fn unlock_with_retries(&mut self, retries: u8) -> (r: Result<(), PwvltError>)
        ensures
            old(self).spec_unlocked() ==> r is Ok && *final(self) == *old(self),
            !old(self).spec_unlocked() && retries < 1 ==> (r matches Err(e) && e is Skip
                && *final(self) == *old(self)),
            retries >= 1 ==> (r matches Err(e) ==> e is Io || e is Nitrokey),
            r is Ok ==> final(self).spec_unlocked(),
            r is Err ==> !final(self).spec_unlocked(),
            r matches Err(e) ==> nitrokey_producible(e),
    {
        if self.unlocked {
            return Ok(());
        }
        if retries < 1 {
            return Err(PwvltError::Skip);
        }
        let pin = match self.prompt.prompt() {
            Ok(pin) => pin,
            Err(m) => {
                return Err(PwvltError::Io(m));
            },
        };
        match self.device.open_safe(pin.as_str()) {
            Ok(()) => {
                self.unlocked = true;
                Ok(())
            },
            Err(f) => Err(PwvltError::Nitrokey(f)),
        }
    }

    /// Unlock the password safe, reading the retry budget from the
    /// device first.  A cached session is reused without any prompt.
    pub fn unlock_safe(&mut self) -> (r: Result<(), PwvltError>)
        ensures
            old(self).spec_unlocked() ==> r is Ok && *final(self) == *old(self),
            r is Ok ==> final(self).spec_unlocked(),
            r is Err ==> !final(self).spec_unlocked(),
            r matches Err(e) ==> nitrokey_producible(e) && !(e is PasswordNotFound),
            r matches Err(e) ==> (e is Skip ==> final(self).spec_prompt() == old(self).spec_prompt()),
    {
        if self.unlocked {
            return Ok(());
        }
        let retries = match self.device.retry_count() {
            Ok(n) => n,
            Err(f) => {
                return Err(PwvltError::Nitrokey(f));
            },
        };
        self.unlock_with_retries(retries)
    }

    /// Look up the password stored for (service, username): scan the
    /// device's slots in order and return the password of the first
    /// slot whose name and login match.
    pub fn password(&mut self, service: &str, username: &str) -> (r: Result<String, PwvltError>)
        ensures
            old(self).spec_unlocked() ==> final(self).spec_prompt() == old(self).spec_prompt(),
            old(self).spec_unlocked() ==> (r matches Err(e) ==> !(e is Skip)),
            r is Ok ==> final(self).spec_unlocked(),
            r matches Err(e) ==> nitrokey_producible(e),
            r matches Err(e) ==> (e is Skip ==> final(self).spec_prompt() == old(self).spec_prompt() && !final(self).spec_unlocked()),
    {
        match self.unlock_safe() {
            Ok(()) => (),
            Err(e) => {
                return Err(e);
            },
        }
        let mut slot: u8 = 0;
        while slot < SLOT_COUNT
            invariant
                self.spec_unlocked(),
                self.spec_prompt() == old(self).spec_prompt() || !old(self).spec_unlocked(),
            decreases SLOT_COUNT - slot,
        {
            let name = match self.device.slot_name(slot) {
                Ok(name) => name,
                Err(f) => {
                    return Err(PwvltError::Nitrokey(f));
                },
            };
            if str_eq(name.as_str(), service) {
                let login = match self.device.slot_login(slot) {
                    Ok(login) => login,
                    Err(f) => {
                        return Err(PwvltError::Nitrokey(f));
                    },
                };
                if str_eq(login.as_str(), username) {
                    return match self.device.slot_password(slot) {
                        Ok(p) => Ok(p),
                        Err(f) => Err(PwvltError::Nitrokey(f)),
                    };
                }
            }
            slot = slot + 1;
        }
        Err(PwvltError::PasswordNotFound)
    }

    /// Write a credential into the given device slot, overwriting any
    /// prior contents.  Indices outside the device's slot range are
    /// rejected.
    pub fn set_password(
        &mut self,
        slot: usize,
        service: &str,
        username: &str,
        password: &str,
    ) -> (r: Result<(), PwvltError>)
        ensures
            old(self).spec_unlocked() ==> final(self).spec_prompt() == old(self).spec_prompt(),
            old(self).spec_unlocked() ==> (r matches Err(e) ==> !(e is Skip)),
            r is Ok ==> final(self).spec_unlocked(),
            slot >= SLOT_COUNT as usize ==> r is Err,
            r matches Err(e) ==> nitrokey_producible(e),
            r matches Err(e) ==> (e is Skip ==> final(self).spec_prompt() == old(self).spec_prompt() && !final(self).spec_unlocked()),
    {
        match self.unlock_safe() {
            Ok(()) => (),
            Err(e) => {
                return Err(e);
            },
        }
        if slot >= SLOT_COUNT as usize {
            return Err(
                PwvltError::Nitrokey(
                    NitrokeyFault {
                        kind: NitrokeyFaultKind::Other,
                        message: "slot index out of range".to_owned(),
                    },
                ),
            );
        }
        match self.device.write_slot(slot as u8, service, username, password) {
            Ok(()) => Ok(()),
            Err(f) => Err(PwvltError::Nitrokey(f)),
        }
    }

    /// Classify an error of this backend for the warning log.  Only
    /// errors this backend can produce may be handed in.
    pub fn log_error(&self, err: PwvltError) -> (msg: String)
        requires
            nitrokey_producible(err),
        ensures
            msg@ == nitrokey_log_message(err),
    {
        nitrokey_error_message(err)
    }

    /// The stable display identifier of this backend.
    pub fn name(&self) -> (r: &'static str)
        ensures
            r@ == "Nitrokey"@,
    {
        "Nitrokey"
    }

    /// The slot table: one entry per device slot, in slot order,
    /// always covering the full device capacity.  The per-slot answers
    /// are gathered from the device — falling back to the empty string
    /// for a field the device fails to read, and treating positions
    /// the status answer left out as unprogrammed — and the table is
    /// assembled by [`token_table`], whose contract ties every entry
    /// to those answers.
    pub fn slots(&mut self) -> (r: Result<Vec<Slot>, PwvltError>)
        ensures
            old(self).spec_unlocked() ==> final(self).spec_prompt() == old(self).spec_prompt(),
            old(self).spec_unlocked() ==> (r matches Err(e) ==> !(e is Skip)),
            r matches Ok(v) ==> v@.len() == SLOT_COUNT as int,
            r matches Err(e) ==> nitrokey_producible(e),
            r matches Err(e) ==> (e is Skip ==> final(self).spec_prompt() == old(
                self,
            ).spec_prompt() && !final(self).spec_unlocked()),
    {
        match self.unlock_safe() {
            Ok(()) => (),
            Err(e) => {
                return Err(e);
            },
        }
        let status = match self.device.slot_status() {
            Ok(v) => v,
            Err(f) => {
                return Err(PwvltError::Nitrokey(f));
            },
        };
        let mut programmed: Vec<bool> = Vec::new();
        let mut names: Vec<String> = Vec::new();
        let mut logins: Vec<String> = Vec::new();
        let n = SLOT_COUNT as usize;
        let mut i: usize = 0;
        while i < n
            invariant
                n == SLOT_COUNT as int,
                self.spec_unlocked(),
                self.spec_prompt() == old(self).spec_prompt() || !old(self).spec_unlocked(),
                programmed@.len() == i,
                names@.len() == i,
                logins@.len() == i,
                i <= n,
            decreases n - i,
        {
            if i < status.len() && status[i] {
                let name = match self.device.slot_name(i as u8) {
                    Ok(name) => name,
                    Err(_) => String::new(),
                };
                let login = match self.device.slot_login(i as u8) {
                    Ok(login) => login,
                    Err(_) => String::new(),
                };
                programmed.push(true);
                names.push(name);
                logins.push(login);
            } else {
                programmed.push(false);
                names.push(String::new());
                logins.push(String::new());
            }
            i = i + 1;
        }
        Ok(token_table(&programmed, &names, &logins))
    }

    /// Release the device: lock it, ending the password-safe session.
    /// Mandatory teardown for a store that is no longer needed.
    pub fn lock(self) -> (r: Result<(), PwvltError>)
        ensures
            r matches Err(e) ==> e is Nitrokey,
    {
        let mut store = self;
        match store.device.lock() {
            Ok(()) => Ok(()),
            Err(f) => Err(PwvltError::Nitrokey(f)),
        }
    }
}

} // verus!
