use vstd::prelude::*;

use crate::config::{BackendName, Config, spec_parse_backend};
use crate::error::PwvltError;
use crate::keyring_backend::{
    keyring_error_message, keyring_log_message, keyring_producible, spec_overwritten_cache,
    spec_slot_table, KeyringBackend,
};
use crate::nitrokey_store::{
    nitrokey_error_message, nitrokey_log_message, nitrokey_producible, NitrokeyStore, TokenDevice,
    SLOT_COUNT,
};
use crate::pass_store::{LogEntry, SecretPrompt, Slot};
use crate::util::{policy_valid, random_password};

verus! {

/// One activated credential backend.  The set of backends is closed,
/// so a sum type stands in for dynamic dispatch.
pub enum Backend<P: SecretPrompt, D: TokenDevice> {
    Keyring(KeyringBackend),
    Nitrokey(NitrokeyStore<P, D>),
}

impl<P: SecretPrompt, D: TokenDevice> Backend<P, D> {
    /// Which kind of backend this is.
    pub open spec fn spec_kind(&self) -> BackendName {
        match self {
            Backend::Keyring(_) => BackendName::Keyring,
            Backend::Nitrokey(_) => BackendName::Nitrokey,
        }
    }

    /// The backend's internal consistency.
    pub open spec fn wf(&self) -> bool {
        match self {
            Backend::Keyring(b) => b.wf(),
            Backend::Nitrokey(_) => true,
        }
    }

    /// The display identifier, as a character sequence.
    pub open spec fn spec_name(&self) -> Seq<char> {
        if self.spec_kind() == BackendName::Keyring {
            "Keyring"@
        } else {
            "Nitrokey"@
        }
    }

    /// The keyring backend's cached slot table; the hardware token
    /// keeps no such cache.
    pub open spec fn spec_cache(&self) -> Option<Seq<Slot>> {
        match self {
            Backend::Keyring(b) => b.spec_slots(),
            Backend::Nitrokey(_) => None,
        }
    }

    /// The hardware token's injected PIN prompt; the keyring has none.
    pub open spec fn spec_token_prompt(&self) -> Option<P> {
        match self {
            Backend::Keyring(_) => None,
            Backend::Nitrokey(nk) => Some(nk.spec_prompt()),
        }
    }

    /// The warning text this backend's classifier gives an error.
    pub open spec fn spec_log_message(&self, e: PwvltError) -> Seq<char> {
        if self.spec_kind() == BackendName::Keyring {
            keyring_log_message(e)
        } else {
            nitrokey_log_message(e)
        }
    }

    /// Whether this backend can produce the error at all; its error
    /// classifier must only ever see errors satisfying this.
    pub open spec fn producible(&self, e: PwvltError) -> bool {
        if self.spec_kind() == BackendName::Keyring {
            keyring_producible(e)
        } else {
            nitrokey_producible(e)
        }
    }

    /// The stable display identifier of this backend.
    pub fn name(&self) -> (r: &'static str)
        ensures
            r@ == self.spec_name(),
    {
        match self {
            Backend::Keyring(b) => b.name(),
            Backend::Nitrokey(b) => b.name(),
        }
    }

    /// Look up the password stored for (service, username).
    pub fn password(&mut self, service: &str, username: &str) -> (r: Result<String, PwvltError>)
        requires
            old(self).wf(),
        ensures
            final(self).wf(),
            final(self).spec_kind() == old(self).spec_kind(),
            old(self).spec_cache() is Some ==> final(self).spec_cache() == old(self).spec_cache(),
            r matches Err(e) ==> final(self).producible(e),
            r matches Err(e) ==> (e is Skip ==> final(self).spec_token_prompt() == old(self).spec_token_prompt()),
    {
        match self {
            Backend::Keyring(b) => b.password(service, username),
            Backend::Nitrokey(b) => b.password(service, username),
        }
    }

    /// Write a credential into the given slot of this backend.
    pub fn set_password(
        &mut self,
        slot: usize,
        service: &str,
        username: &str,
        password: &str,
    ) -> (r: Result<(), PwvltError>)
        requires
            old(self).wf(),
        ensures
            final(self).wf(),
            final(self).spec_kind() == old(self).spec_kind(),
            r matches Err(e) ==> final(self).producible(e),
            r matches Err(e) ==> (e is Skip ==> final(self).spec_token_prompt() == old(self).spec_token_prompt()),
            old(self).spec_cache() is Some ==> ({
                let c = old(self).spec_cache().unwrap();
                &&& slot >= c.len() ==> final(self).spec_cache() == old(self).spec_cache()
                &&& slot < c.len() ==> (final(self).spec_cache() == old(self).spec_cache() || (
                final(self).spec_cache() is Some && spec_overwritten_cache(
                    c,
                    slot as int,
                    service@,
                    username@,
                    final(self).spec_cache().unwrap(),
                )))
                &&& (r is Ok && slot < c.len()) ==> (final(self).spec_cache() is Some
                    && spec_overwritten_cache(
                    c,
                    slot as int,
                    service@,
                    username@,
                    final(self).spec_cache().unwrap(),
                ))
            }),
    {
        match self {
            Backend::Keyring(b) => b.set_password(slot, service, username, password),
            Backend::Nitrokey(b) => b.set_password(slot, service, username, password),
        }
    }

    /// The backend's current slot table.  The keyring's table is a
    /// function of its session cache, which enumerating leaves as it
    /// was; the hardware token re-reads its device.
    pub fn slots(&mut self) -> (r: Result<Vec<Slot>, PwvltError>)
        requires
            old(self).wf(),
        ensures
            final(self).wf(),
            final(self).spec_kind() == old(self).spec_kind(),
            old(self).spec_cache() is Some ==> final(self).spec_cache() == old(self).spec_cache(),
            r matches Ok(v) ==> (old(self).spec_kind() == BackendName::Keyring ==> final(self).spec_cache() is Some && spec_slot_table(final(self).spec_cache().unwrap(), v@)),
            r matches Ok(v) ==> (old(self).spec_kind() == BackendName::Nitrokey ==> v@.len()
                == SLOT_COUNT as int),
            r matches Err(e) ==> final(self).producible(e),
            r matches Err(e) ==> (e is Skip ==> final(self).spec_token_prompt() == old(self).spec_token_prompt()),
    {
        match self {
            Backend::Keyring(b) => b.slots(),
            Backend::Nitrokey(b) => b.slots(),
        }
    }

    /// Classify an error of this backend for the warning log.  Only
    /// errors this backend can produce may be handed in.
    pub fn log_error(&self, err: PwvltError) -> (msg: String)
        requires
            self.producible(err),
        ensures
            msg@ == self.spec_log_message(err),
    {
        match self {
            Backend::Keyring(b) => b.log_error(err),
            Backend::Nitrokey(b) => b.log_error(err),
        }
    }

    /// Release the backend's underlying session.  For the hardware
    /// token this locks the device, the mandatory teardown; the
    /// keyring's service session needs no farewell.
    pub fn close(self) -> (r: Result<(), PwvltError>)
        ensures
            self.spec_kind() == BackendName::Keyring ==> r is Ok,
            r matches Err(e) ==> e is Nitrokey,
    {
        match self {
            Backend::Keyring(_) => Ok(()),
            Backend::Nitrokey(b) => b.lock(),
        }
    }
}

/// How many of the configured backend identifiers are recognised.
pub open spec fn spec_recognized_count(names: Seq<String>) -> int
    decreases names.len(),
{
    if names.len() == 0 {
        0
    } else {
        spec_recognized_count(names.drop_last()) + (if spec_parse_backend(
            names.last()@,
        ) is Some {
            1int
        } else {
            0int
        })
    }
}

/// Whether the configuration asks for the hardware-token backend.
pub open spec fn spec_wants_nitrokey(config: Config) -> bool {
    exists|i: int|
        0 <= i < config.general.backends@.len() && spec_parse_backend(
            config.general.backends@[i]@,
        ) == Some(BackendName::Nitrokey)
}

/// The active backends are an order-preserving selection from the
/// recognized configured names: read right to left, every activated
/// backend accounts for one recognized name of its own kind, and no
/// name accounts for more than one backend.
pub open spec fn spec_activation_of<P: SecretPrompt, D: TokenDevice>(
    names: Seq<String>,
    stores: Seq<Backend<P, D>>,
) -> bool
    decreases names.len(),
{
    if names.len() == 0 {
        stores.len() == 0
    } else {
        ||| spec_activation_of(names.drop_last(), stores)
        ||| (stores.len() > 0 && spec_parse_backend(names.last()@) == Some(
            stores.last().spec_kind(),
        ) && spec_activation_of(names.drop_last(), stores.drop_last()))
    }
}

/// What a construction log entry may report: an unrecognised
/// configured name with the fixed note, or a backend kind that could
/// not be activated, carrying its own classifier's message for an
/// error of its kind — for the hardware token also the note that the
/// token is already active.
pub open spec fn spec_construction_entry(config: Config, entry: LogEntry) -> bool {
    ||| (spec_parse_backend(entry.backend@) is None && entry.message@ == "unknown backend name"@
        && exists|i: int|
        0 <= i < config.general.backends@.len() && (#[trigger] config.general.backends@[i])@
            == entry.backend@)
    ||| (entry.backend@ == "Nitrokey"@ && ((exists|e: PwvltError|
        e is Nitrokey && entry.message@ == nitrokey_log_message(e)) || entry.message@
        == "the hardware token is already active"@))
    ||| (entry.backend@ == "Keyring"@ && exists|e: PwvltError|
        e is Keyring && entry.message@ == keyring_log_message(e))
}

/// The entry's message is the given backend's own classification of
/// some error that backend can produce: a lookup never records another
/// backend's report.
pub open spec fn spec_entry_classified<P: SecretPrompt, D: TokenDevice>(
    b: Backend<P, D>,
    entry: LogEntry,
) -> bool {
    exists|e: PwvltError| b.producible(e) && entry.message@ == b.spec_log_message(e)
}

/// Taking one backend out of the list and putting its successor back
/// at the same place leaves every other position as it was.
proof fn lemma_replace_at<P: SecretPrompt, D: TokenDevice>(s0: Seq<Backend<P, D>>, k: int, x: Backend<P, D>)
    requires
        0 <= k < s0.len(),
    ensures
        s0.remove(k).insert(k, x).len() == s0.len(),
        forall|i: int|
            0 <= i < s0.len() && i != k ==> #[trigger] s0.remove(k).insert(k, x)[i] == s0[i],
        s0.remove(k).insert(k, x)[k] == x,
{
    let s1 = s0.remove(k);
    let s2 = s1.insert(k, x);
    s0.remove_ensures(k);
    s1.insert_ensures(k, x);
    assert forall|i: int| 0 <= i < s0.len() && i != k implies #[trigger] s2[i] == s0[i] by {
        if i < k {
            assert(s2[i] == s1[i]);
            assert(s1[i] == s0[i]);
        } else {
            assert(s2[(i - 1) + 1] == s1[i - 1]);
            assert(s1[i - 1] == s0[i]);
        }
    }
}

/// The vault orchestrator: an ordered, immutable list of activated
/// backends, the configuration, and the warning log of failed lookups.
pub struct PasswordVault<P: SecretPrompt, D: TokenDevice> {
    config: Config,
    stores: Vec<Backend<P, D>>,
    log: Vec<LogEntry>,
}

impl<P: SecretPrompt, D: TokenDevice> PasswordVault<P, D> {
    /// Every active backend is internally consistent and the
    /// configuration's default mapping has unique keys.
    pub closed spec fn wf(&self) -> bool {
        &&& (forall|i: int| 0 <= i < self.stores@.len() ==> (#[trigger] self.stores@[i]).wf())
        &&& self.config.wf()
    }

    /// The active backends, in construction order.
    pub closed spec fn spec_stores(&self) -> Seq<Backend<P, D>> {
        self.stores@
    }

    /// The configuration the vault was built from.
    pub closed spec fn spec_config(&self) -> Config {
        self.config
    }

    /// The warning log: one entry per backend that failed a lookup.
    pub closed spec fn spec_log(&self) -> Seq<LogEntry> {
        self.log@
    }

    /// Build a vault from the configuration: attempt each configured
    /// backend in order; an unrecognised identifier or a backend that
    /// fails to construct is logged and skipped, and never aborts
    /// construction.  The hardware token takes the PIN prompt with it
    /// when activated, so at most one token backend exists.
    pub fn new(config: Config, nitrokey_unlock: Option<P>) -> (v: PasswordVault<P, D>)
        requires
            config.wf(),
            spec_wants_nitrokey(config) ==> nitrokey_unlock is Some,
        ensures
            v.wf(),
            v.spec_config() == config,
            // each configured name yields exactly one outcome: an
            // active backend or a logged skip
            v.spec_stores().len() + v.spec_log().len() == config.general.backends@.len(),
            forall|j: int|
                0 <= j < v.spec_log().len() ==> spec_construction_entry(
                    config,
                    #[trigger] v.spec_log()[j],
                ),
            v.spec_stores().len() <= spec_recognized_count(config.general.backends@),
            spec_activation_of(config.general.backends@, v.spec_stores()),
            forall|i: int, j: int|
                0 <= i < j < v.spec_stores().len() ==> !((#[trigger] v.spec_stores()[i]) is Nitrokey
                    && (#[trigger] v.spec_stores()[j]) is Nitrokey),
            forall|i: int|
                0 <= i < v.spec_stores().len() ==> ((#[trigger] v.spec_stores()[i]) matches Backend::Nitrokey(nk)
                    ==> (nitrokey_unlock matches Some(p) && nk.spec_prompt() == p)),
            forall|i: int| 0 <= i < v.spec_stores().len() ==> (#[trigger] v.spec_stores()[i]).wf(),
    {
        let mut stores: Vec<Backend<P, D>> = Vec::new();
        let mut log: Vec<LogEntry> = Vec::new();
        let mut prompt = nitrokey_unlock;
        let n = config.general.backends.len();
        for k in 0..n
            invariant
                n == config.general.backends@.len(),
                stores@.len() <= spec_recognized_count(config.general.backends@.take(k as int)),
                stores@.len() + log@.len() == k,
                forall|j: int|
                    0 <= j < log@.len() ==> spec_construction_entry(config, #[trigger] log@[j]),
                spec_activation_of(config.general.backends@.take(k as int), stores@),
                prompt is Some ==> prompt == nitrokey_unlock,
                prompt is Some ==> (forall|i: int|
                    0 <= i < stores@.len() ==> !((#[trigger] stores@[i]) is Nitrokey)),
                forall|i: int, j: int|
                    0 <= i < j < stores@.len() ==> !((#[trigger] stores@[i]) is Nitrokey && (
                    #[trigger] stores@[j]) is Nitrokey),
                forall|i: int|
                    0 <= i < stores@.len() ==> ((#[trigger] stores@[i]) matches Backend::Nitrokey(
                        nk,
                    ) ==> (nitrokey_unlock matches Some(p) && nk.spec_prompt() == p)),
                forall|i: int| 0 <= i < stores@.len() ==> (#[trigger] stores@[i]).wf(),
        {
            proof {
                assert(config.general.backends@.take(k + 1).drop_last() == config.general.backends@.take(
                    k as int,
                ));
                assert(config.general.backends@.take(k + 1).last() == config.general.backends@[k as int]);
            }
            let ghost pre = stores@;
            match BackendName::parse(config.general.backends[k].as_str()) {
                Some(BackendName::Nitrokey) => {
                    match prompt.take() {
                        Some(p) => {
                            match NitrokeyStore::new(p) {
                                Ok(nk) => {
                                    let activated = Backend::Nitrokey(nk);
                                    let ghost gb = activated;
                                    stores.push(activated);
                                    proof {
                                        assert(stores@.drop_last() =~= pre);
                                        assert(stores@.last() == gb);
                                    }
                                },
                                Err(e) => {
                                    let ghost fault = e;
                                    let message = nitrokey_error_message(e);
                                    let mut entry_backend = String::new();
                                    entry_backend.append("Nitrokey");
                                    let entry = LogEntry { backend: entry_backend, message };
                                    proof {
                                        assert(fault is Nitrokey && entry.message@
                                            == nitrokey_log_message(fault));
                                        assert(spec_construction_entry(config, entry));
                                    }
                                    log.push(entry);
                                },
                            }
                        },
                        // a second hardware-token entry cannot take the
                        // prompt again; it is logged and skipped like a
                        // backend that failed to construct
                        None => {
                            let entry = LogEntry {
                                backend: "Nitrokey".to_owned(),
                                message: "the hardware token is already active".to_owned(),
                            };
                            proof {
                                assert(spec_construction_entry(config, entry));
                            }
                            log.push(entry);
                        },
                    }
                },
                Some(BackendName::Keyring) => {
                    match KeyringBackend::new() {
                        Ok(kr) => {
                            let activated = Backend::Keyring(kr);
                            let ghost gb = activated;
                            stores.push(activated);
                            proof {
                                assert(stores@.drop_last() =~= pre);
                                assert(stores@.last() == gb);
                            }
                        },
                        Err(e) => {
                            let ghost fault = e;
                            let message = keyring_error_message(e);
                            let mut entry_backend = String::new();
                            entry_backend.append("Keyring");
                            let entry = LogEntry { backend: entry_backend, message };
                            proof {
                                assert(fault is Keyring && entry.message@ == keyring_log_message(
                                    fault,
                                ));
                                assert(spec_construction_entry(config, entry));
                            }
                            log.push(entry);
                        },
                    }
                },
                None => {
                    let entry = LogEntry {
                        backend: config.general.backends[k].clone(),
                        message: "unknown backend name".to_owned(),
                    };
                    proof {
                        assert(config.general.backends@[k as int]@ == entry.backend@);
                        assert(spec_construction_entry(config, entry));
                    }
                    log.push(entry);
                },
            }
        }
        proof {
            assert(config.general.backends@.take(n as int) == config.general.backends@);
        }
        PasswordVault { config, stores, log }
    }

    /// The active backends, in fallback order, for rendering a
    /// selection UI and querying slot tables.
    pub fn stores(&self) -> (r: &Vec<Backend<P, D>>)
        ensures
            r@ == self.spec_stores(),
    {
        &self.stores
    }

    /// The warnings recorded by lookups so far, oldest first.
    pub fn log(&self) -> (r: &Vec<LogEntry>)
        ensures
            r@ == self.spec_log(),
    {
        &self.log
    }

    /// Look up a password: consult the backends in construction order
    /// and return the first success.  Every backend that fails is
    /// observed, classified by its own `log_error`, and recorded in
    /// the warning log, in order, before any later backend is tried.
    /// Only when every backend has failed does the lookup fail, and
    /// then always with `PasswordNotFound`.
    pub fn password(&mut self, service: &str, username: &str) -> (r: Result<String, PwvltError>)
        requires
            old(self).wf(),
        ensures
            final(self).wf(),
            final(self).spec_config() == old(self).spec_config(),
            final(self).spec_stores().len() == old(self).spec_stores().len(),
            forall|i: int|
                0 <= i < old(self).spec_stores().len() ==> (#[trigger] final(self).spec_stores()[i]).spec_kind() == old(self).spec_stores()[i].spec_kind(),
            // a lookup never invalidates a backend's cached slot table
            forall|i: int|
                0 <= i < old(self).spec_stores().len() && old(self).spec_stores()[i].spec_cache() is Some
                    ==> (#[trigger] final(self).spec_stores()[i]).spec_cache() == old(self).spec_stores()[i].spec_cache(),
            // the log grows by one entry per failed backend, in
            // construction order, before any later backend's outcome
            old(self).spec_log().len() <= final(self).spec_log().len() <= old(self).spec_log().len() + old(self).spec_stores().len(),
            final(self).spec_log().take(old(self).spec_log().len() as int) == old(self).spec_log(),
            forall|j: int|
                old(self).spec_log().len() <= j < final(self).spec_log().len() ==> (#[trigger] final(self).spec_log()[j]).backend@ == old(self).spec_stores()[j - old(self).spec_log().len()].spec_name(),
            // each recorded message is that backend's own classification
            // of an error it can produce
            forall|j: int|
                old(self).spec_log().len() <= j < final(self).spec_log().len()
                    ==> spec_entry_classified(
                    old(self).spec_stores()[j - old(self).spec_log().len()],
                    #[trigger] final(self).spec_log()[j],
                ),
            r is Ok ==> final(self).spec_log().len() - old(self).spec_log().len() < old(self).spec_stores().len(),
            r matches Err(e) ==> e is PasswordNotFound && final(self).spec_log().len() == old(self).spec_log().len() + old(self).spec_stores().len(),
    {
        let n = self.stores.len();
        let ghost base = self.log@.len() as int;
        for k in 0..n
            invariant
                old(self).wf(),
                n == self.stores@.len(),
                n == old(self).stores@.len(),
                base == old(self).log@.len(),
                self.config == old(self).config,
                forall|i: int| 0 <= i < n ==> (#[trigger] self.stores@[i]).wf(),
                forall|i: int|
                    0 <= i < n ==> (#[trigger] self.stores@[i]).spec_kind() == old(self).stores@[i].spec_kind(),
                forall|i: int|
                    0 <= i < n && old(self).stores@[i].spec_cache() is Some ==> (#[trigger] self.stores@[i]).spec_cache() == old(self).stores@[i].spec_cache(),
                self.log@.len() == base + k,
                self.log@.take(base) == old(self).log@,
                forall|j: int|
                    base <= j < self.log@.len() ==> (#[trigger] self.log@[j]).backend@ == old(self).stores@[j - base].spec_name(),
                forall|j: int|
                    base <= j < self.log@.len() ==> spec_entry_classified(
                        old(self).stores@[j - base],
                        #[trigger] self.log@[j],
                    ),
        {
            let mut store = self.stores.remove(k);
            let res = store.password(service, username);
            let name = store.name();
            match res {
                Ok(found) => {
                    self.stores.insert(k, store);
                    proof {
                        assert(self.log@.take(base) == old(self).log@);
                    }
                    return Ok(found);
                },
                Err(err) => {
                    let ghost classified = err;
                    let message = store.log_error(err);
                    let mut entry_backend = String::new();
                    entry_backend.append(name);
                    let entry = LogEntry { backend: entry_backend, message };
                    proof {
                        assert(old(self).stores@[k as int].producible(classified)
                            && entry.message@ == old(self).stores@[k as int].spec_log_message(
                            classified,
                        ));
                        assert(spec_entry_classified(old(self).stores@[k as int], entry));
                    }
                    self.log.push(entry);
                    self.stores.insert(k, store);
                },
            }
        }
        Err(PwvltError::PasswordNotFound)
    }

    /// Write a credential through the chosen backend and slot.  With
    /// no password supplied, one is generated under the configured
    /// policy first; an unsatisfiable policy fails the whole call with
    /// a generation error and nothing is written.  Backend errors
    /// propagate to the caller; the warning log is not involved.
    pub fn set_password(
        &mut self,
        backend: usize,
        slot: usize,
        service: &str,
        username: &str,
        password: Option<&str>,
    ) -> (r: Result<(), PwvltError>)
        requires
            old(self).wf(),
            backend < old(self).spec_stores().len(),
        ensures
            final(self).wf(),
            final(self).spec_config() == old(self).spec_config(),
            final(self).spec_log() == old(self).spec_log(),
            final(self).spec_stores().len() == old(self).spec_stores().len(),
            forall|i: int|
                0 <= i < old(self).spec_stores().len() ==> (#[trigger] final(self).spec_stores()[i]).spec_kind() == old(self).spec_stores()[i].spec_kind(),
            forall|i: int|
                0 <= i < old(self).spec_stores().len() && i != backend ==> final(self).spec_stores()[i] == old(self).spec_stores()[i],
            password is None && !policy_valid(old(self).spec_config().password) ==> (r matches Err(
                e,
            ) && e is PasswordGeneration),
            // generation is the only pre-backend failure: with it the
            // backends are untouched, and it never masks a backend error
            password is None && !policy_valid(old(self).spec_config().password) ==> final(self).spec_stores() == old(self).spec_stores(),
            r matches Err(e) ==> (e is PasswordGeneration ==> password is None && !policy_valid(
                old(self).spec_config().password,
            )),
            r matches Err(e) ==> e is PasswordGeneration || old(self).spec_stores()[
                backend as int
            ].producible(e),
            r matches Err(e) ==> (e is Skip ==> final(self).spec_stores()[
                backend as int
            ].spec_token_prompt() == old(self).spec_stores()[backend as int].spec_token_prompt()),
            old(self).spec_stores()[backend as int].spec_cache() is Some ==> ({
                let c = old(self).spec_stores()[backend as int].spec_cache().unwrap();
                &&& slot >= c.len() ==> final(self).spec_stores()[backend as int].spec_cache()
                    == old(self).spec_stores()[backend as int].spec_cache()
                &&& slot < c.len() ==> (final(self).spec_stores()[backend as int].spec_cache()
                    == old(self).spec_stores()[backend as int].spec_cache() || (final(self).spec_stores()[backend as int].spec_cache() is Some && spec_overwritten_cache(
                    c,
                    slot as int,
                    service@,
                    username@,
                    final(self).spec_stores()[backend as int].spec_cache().unwrap(),
                )))
                &&& (r is Ok && slot < c.len()) ==> (final(self).spec_stores()[
                    backend as int
                ].spec_cache() is Some && spec_overwritten_cache(
                    c,
                    slot as int,
                    service@,
                    username@,
                    final(self).spec_stores()[backend as int].spec_cache().unwrap(),
                ))
            }),
    {
        let generated: String;
        let chosen: &str = match password {
            Some(p) => p,
            None => {
                match random_password(&self.config.password) {
                    Ok(p) => {
                        generated = p;
                        generated.as_str()
                    },
                    Err(e) => {
                        return Err(e);
                    },
                }
            },
        };
        let mut store = self.stores.remove(backend);
        let res = store.set_password(slot, service, username, chosen);
        let ghost replacement = store;
        self.stores.insert(backend, store);
        proof {
            lemma_replace_at(old(self).stores@, backend as int, replacement);
        }
        res
    }

    /// The slot table of one active backend, by its index in the
    /// backend list, for rendering a slot-selection UI before a write.
    pub fn backend_slots(&mut self, backend: usize) -> (r: Result<Vec<Slot>, PwvltError>)
        requires
            old(self).wf(),
            backend < old(self).spec_stores().len(),
        ensures
            final(self).wf(),
            final(self).spec_config() == old(self).spec_config(),
            final(self).spec_log() == old(self).spec_log(),
            final(self).spec_stores().len() == old(self).spec_stores().len(),
            forall|i: int|
                0 <= i < old(self).spec_stores().len() ==> (#[trigger] final(self).spec_stores()[i]).spec_kind() == old(self).spec_stores()[i].spec_kind(),
            forall|i: int|
                0 <= i < old(self).spec_stores().len() && i != backend ==> final(self).spec_stores()[i] == old(self).spec_stores()[i],
            old(self).spec_stores()[backend as int].spec_cache() is Some ==> final(self).spec_stores()[backend as int].spec_cache() == old(self).spec_stores()[
                backend as int
            ].spec_cache(),
            r matches Ok(v) ==> (old(self).spec_stores()[backend as int].spec_kind()
                == BackendName::Keyring ==> final(self).spec_stores()[backend as int].spec_cache() is Some
                && spec_slot_table(
                final(self).spec_stores()[backend as int].spec_cache().unwrap(),
                v@,
            )),
            r matches Ok(v) ==> (old(self).spec_stores()[backend as int].spec_kind()
                == BackendName::Nitrokey ==> v@.len() == SLOT_COUNT as int),
            r matches Err(e) ==> final(self).spec_stores()[backend as int].producible(e),
            r matches Err(e) ==> (e is Skip ==> final(self).spec_stores()[
                backend as int
            ].spec_token_prompt() == old(self).spec_stores()[backend as int].spec_token_prompt()),
    {
        let mut store = self.stores.remove(backend);
        let res = store.slots();
        let ghost replacement = store;
        self.stores.insert(backend, store);
        proof {
            lemma_replace_at(old(self).stores@, backend as int, replacement);
        }
        res
    }

    /// End the session: release every backend.  A backend that fails
    /// to release is reported and does not keep the others from being
    /// released.
    pub fn close(self) -> (failures: Vec<String>)
        ensures
            failures@.len() <= self.spec_stores().len(),
            (forall|i: int|
                0 <= i < self.spec_stores().len() ==> !((#[trigger] self.spec_stores()[i]) is Nitrokey))
                ==> failures@.len() == 0,
    {
        let mut vault = self;
        let mut failures: Vec<String> = Vec::new();
        let ghost total = vault.stores@.len();
        while vault.stores.len() > 0
            invariant
                vault.stores@.len() + failures@.len() <= total,
                total == self.spec_stores().len(),
                vault.stores@ == self.spec_stores().take(vault.stores@.len() as int),
                (forall|i: int|
                    0 <= i < self.spec_stores().len() ==> !((#[trigger] self.spec_stores()[i]) is Nitrokey))
                    ==> failures@.len() == 0,
            decreases vault.stores@.len(),
        {
            let ghost remaining = vault.stores@;
            let store = match vault.stores.pop() {
                Some(s) => s,
                None => vstd::pervasive::unreached(),
            };
            proof {
                assert(vault.stores@ =~= self.spec_stores().take(vault.stores@.len() as int));
                assert(store == self.spec_stores()[remaining.len() - 1]);
            }
            let store_name = store.name();
            match store.close() {
                Ok(()) => (),
                Err(err) => {
                    let mut report = String::new();
                    report.append(store_name);
                    report.append(": failed to release: ");
                    match err {
                        PwvltError::Nitrokey(f) => report.append(f.message.as_str()),
                        _ => vstd::pervasive::unreached(),
                    }
                    failures.push(report);
                },
            }
        }
        failures
    }

    /// The default username configured for `service`, if any.
    pub fn default(&self, service: &str) -> (r: Option<&String>)
        ensures
            r is Some <==> self.spec_config().spec_has_default(service@),
            r matches Some(u) ==> self.spec_config().spec_default_entry(service@, u@),
    {
        self.config.default_username(service)
    }
}

} // verus!
